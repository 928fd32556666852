use std::path::PathBuf;

use mockable::cmd::Command;
use mockable::cmd::CommandOutput;
use mockable::strmap::StringMap;

#[test]
fn new_command_has_the_program_alone() {
    let cmd = Command::new("echo".to_string());
    assert_eq!(cmd.program, "echo");
    assert!(cmd.args.is_empty());
    assert!(cmd.cwd.is_none());
    assert!(cmd.env.is_none());
    assert!(cmd.gid.is_none());
    assert!(cmd.uid.is_none());
}

#[test]
fn with_arg_appends() {
    let cmd = Command::new("echo".to_string())
        .with_arg("Hello,".to_string())
        .with_arg("world!".to_string());
    assert_eq!(cmd.args, vec!["Hello,".to_string(), "world!".to_string()]);
    assert_eq!(cmd.program, "echo");
}

#[test]
fn with_args_replaces() {
    let cmd = Command::new("ls".to_string())
        .with_arg("-l".to_string())
        .with_args(vec!["-a".to_string(), "/tmp".to_string()]);
    assert_eq!(cmd.args, vec!["-a".to_string(), "/tmp".to_string()]);
}

#[test]
fn with_cwd_sets_the_directory() {
    let cmd = Command::new("ls".to_string()).with_cwd(PathBuf::from("/tmp"));
    assert_eq!(cmd.cwd, Some(PathBuf::from("/tmp")));
    let cmd = cmd.with_cwd(PathBuf::from("/var"));
    assert_eq!(cmd.cwd, Some(PathBuf::from("/var")));
}

#[test]
fn with_env_sets_one_variable() {
    let cmd = Command::new("env".to_string()).with_env("A".to_string(), "1".to_string());
    let env = cmd.env.as_ref().expect("no environment");
    assert_eq!(env.len(), 1);
    assert_eq!(env.get("A"), Some(&"1".to_string()));

    let cmd = cmd
        .with_env("B".to_string(), "2".to_string())
        .with_env("A".to_string(), "3".to_string());
    let env = cmd.env.as_ref().expect("no environment");
    assert_eq!(env.len(), 2);
    assert_eq!(env.get("A"), Some(&"3".to_string()));
    assert_eq!(env.get("B"), Some(&"2".to_string()));
    assert_eq!(env.get("C"), None);
}

#[test]
fn with_envs_replaces_the_environment() {
    let mut env = StringMap::new();
    env.insert("X".to_string(), "x".to_string());
    let cmd = Command::new("env".to_string())
        .with_env("A".to_string(), "1".to_string())
        .with_envs(env);
    let env = cmd.env.as_ref().expect("no environment");
    assert_eq!(env.len(), 1);
    assert_eq!(env.get("X"), Some(&"x".to_string()));
    assert_eq!(env.get("A"), None);
}

#[test]
fn with_gid_and_uid_set_the_ids() {
    let cmd = Command::new("id".to_string()).with_gid(100).with_uid(1000);
    assert_eq!(cmd.gid, Some(100));
    assert_eq!(cmd.uid, Some(1000));
    assert_eq!(cmd.program, "id");
}

#[test]
fn command_output_holds_what_it_is_given() {
    let output = CommandOutput {
        code: Some(0),
        stderr: vec![],
        stdout: "Hello, world!".as_bytes().to_vec(),
    };
    assert_eq!(output.clone(), output);
    assert_eq!(String::from_utf8(output.stdout).expect("not utf8"), "Hello, world!");
}

#[test]
fn commands_are_equal_whatever_the_order_of_their_variables() {
    let one = Command::new("env".to_string())
        .with_arg("-i".to_string())
        .with_env("A".to_string(), "1".to_string())
        .with_env("B".to_string(), "2".to_string());
    let other = Command::new("env".to_string())
        .with_arg("-i".to_string())
        .with_env("B".to_string(), "2".to_string())
        .with_env("A".to_string(), "0".to_string())
        .with_env("A".to_string(), "1".to_string());
    assert_eq!(one, other);
    assert_eq!(one.clone(), one);
    assert_ne!(one, other.clone().with_env("C".to_string(), "3".to_string()));
    assert_ne!(one, other.clone().with_env("B".to_string(), "3".to_string()));
    assert_ne!(one, other.clone().with_arg("x".to_string()));
    assert_ne!(one, other.clone().with_uid(1));
    assert_ne!(one, Command::new("env".to_string()).with_arg("-i".to_string()));
}
