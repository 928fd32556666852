//! Commands to run, as plain data: the program, its arguments and the
//! surroundings it is started in.

use crate::strmap::StringMap;
use crate::text::text_values;
use crate::text::texts;
use std::path::PathBuf;
use vstd::prelude::*;

verus! {

/// A path of the file system, carried through as it is.
#[verifier::external_type_specification]
#[verifier::external_body]
pub struct ExPathBuf(PathBuf);

/// A command, as contracts see it.
pub struct CommandView {
    /// The arguments, in order.
    pub args: Seq<Seq<char>>,
    /// The working directory, where one is set.
    pub cwd: Option<PathBuf>,
    /// The environment variables, where any are set.
    pub env: Option<Map<Seq<char>, Seq<char>>>,
    /// The group, where one is set.
    pub gid: Option<u32>,
    /// The program.
    pub program: Seq<char>,
    /// The user, where one is set.
    pub uid: Option<u32>,
}

/// A command.
#[derive(Debug, Clone, PartialEq, Eq)]
pub struct Command {
    /// The arguments to pass to the command.
    pub args: Vec<String>,
    /// The current working directory to run the command in.
    pub cwd: Option<PathBuf>,
    /// The environment variables to set for the command.
    pub env: Option<StringMap<String>>,
    /// The group to run the command as.
    pub gid: Option<u32>,
    /// The program to run.
    pub program: String,
    /// The user to run the command as.
    pub uid: Option<u32>,
}

impl View for Command {
    type V = CommandView;

    open spec fn view(&self) -> CommandView {
        CommandView {
            args: texts(self.args@),
            cwd: self.cwd,
            env: match self.env {
                Some(env) => Some(text_values(env@)),
                None => None,
            },
            gid: self.gid,
            program: self.program@,
            uid: self.uid,
        }
    }
}

impl Command {
    /// Creates a new command: the program alone, with no argument and
    /// nothing set.
    pub fn new(program: String) -> (cmd: Self)
        ensures
            cmd@ == (CommandView {
                args: Seq::empty(),
                cwd: None,
                env: None,
                gid: None,
                program: program@,
                uid: None,
            }),
    {
        let cmd = Command {
            args: Vec::new(),
            cwd: None,
            env: None,
            gid: None,
            program,
            uid: None,
        };
        assert(texts(cmd.args@) =~= Seq::empty());
        cmd
    }

    /// Add argument.
    pub fn with_arg(self, arg: String) -> (cmd: Self)
        ensures
            cmd@ == (CommandView { args: self@.args.push(arg@), ..self@ }),
    {
        let mut cmd = self;
        cmd.args.push(arg);
        assert(texts(cmd.args@) =~= texts(self.args@).push(arg@));
        cmd
    }

    /// Set arguments.
    pub fn with_args(self, args: Vec<String>) -> (cmd: Self)
        ensures
            cmd@ == (CommandView { args: texts(args@), ..self@ }),
    {
        let mut cmd = self;
        cmd.args = args;
        cmd
    }

    /// Set current working directory.
    pub fn with_cwd(self, cwd: PathBuf) -> (cmd: Self)
        ensures
            cmd@ == (CommandView { cwd: Some(cwd), ..self@ }),
    {
        let mut cmd = self;
        cmd.cwd = Some(cwd);
        cmd
    }

    /// Set environment variable: `key` gets `val`, whatever it had, and the
    /// other variables keep what they have.
    pub fn with_env(self, key: String, val: String) -> (cmd: Self)
        ensures
            cmd@ == (CommandView {
                env: Some(
                    match self@.env {
                        Some(env) => env.insert(key@, val@),
                        None => Map::empty().insert(key@, val@),
                    },
                ),
                ..self@
            }),
    {
        let mut cmd = self;
        let mut env = match cmd.env {
            Some(env) => env,
            None => StringMap::new(),
        };
        let ghost before = env@;
        env.insert(key, val);
        assert(text_values(env@) =~= text_values(before).insert(key@, val@));
        assert(self.env is None ==> text_values(before) =~= Map::empty());
        cmd.env = Some(env);
        cmd
    }

    /// Set all environment variables: those that `env` holds, and no other.
    pub fn with_envs(self, env: StringMap<String>) -> (cmd: Self)
        ensures
            cmd@ == (CommandView { env: Some(text_values(env@)), ..self@ }),
    {
        let mut cmd = self;
        cmd.env = Some(env);
        cmd
    }

    /// Set GID.
    pub fn with_gid(self, gid: u32) -> (cmd: Self)
        ensures
            cmd@ == (CommandView { gid: Some(gid), ..self@ }),
    {
        let mut cmd = self;
        cmd.gid = Some(gid);
        cmd
    }

    /// Set UID.
    pub fn with_uid(self, uid: u32) -> (cmd: Self)
        ensures
            cmd@ == (CommandView { uid: Some(uid), ..self@ }),
    {
        let mut cmd = self;
        cmd.uid = Some(uid);
        cmd
    }
}

/// The output of a command.
#[derive(Debug, Clone, PartialEq, Eq)]
pub struct CommandOutput {
    /// The exit code of the command.
    pub code: Option<i32>,
    /// The standard error output of the command.
    pub stderr: Vec<u8>,
    /// The standard output of the command.
    pub stdout: Vec<u8>,
}

} // verus!
