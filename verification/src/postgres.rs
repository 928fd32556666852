//! The transactional executor: a unit of work run against a transactional
//! resource is committed if it succeeds and rolled back if it fails, and the
//! transaction never stays open.

use crate::mock::Mock;
use crate::mock::Script;
use vstd::prelude::*;
use vstd::string::StringExecFns;

verus! {

/// A failure of the transactional machinery: opening, committing or rolling
/// back did not succeed. Its view is the message.
#[derive(Debug)]
pub struct PostgresError {
    message: String,
}

/// The result of a call into the transactional machinery.
pub type PostgresResult<T> = Result<T, PostgresError>;

impl View for PostgresError {
    type V = Seq<char>;

    closed spec fn view(&self) -> Seq<char> {
        self.message@
    }
}

impl PostgresError {
    /// A failure with the given message.
    pub fn new(message: String) -> (err: Self)
        ensures
            err@ == message@,
    {
        PostgresError { message }
    }

    /// The message.
    pub fn to_string(&self) -> (message: String)
        ensures
            message@ == self@,
    {
        self.message.clone()
    }
}

/// The message of the failure that stands for a recorder called more often
/// than its script allows.
pub open spec fn overrun_message() -> Seq<char> {
    "Mock called when it should not have been"@
}

/// The failure that stands for a recorder called more often than its script
/// allows.
pub fn overrun() -> (err: PostgresError)
    ensures
        err@ == overrun_message(),
{
    PostgresError::new(String::from_str("Mock called when it should not have been"))
}

/// A transaction on a resource. It ends by one call of `commit` or of
/// `rollback`, each of which consumes it.
pub trait PostgresTransaction: Sized {
    /// `r` is a result that `commit` may give. Any, unless the
    /// implementation says more.
    open spec fn commits(&self, r: PostgresResult<()>) -> bool {
        true
    }

    /// `r` is a result that `rollback` may give. Any, unless the
    /// implementation says more.
    open spec fn rolls_back(&self, r: PostgresResult<()>) -> bool {
        true
    }

    /// Commits the transaction.
    fn commit(self) -> (r: PostgresResult<()>)
        ensures
            self.commits(r),
    ;

    /// Rolls the transaction back.
    fn rollback(self) -> (r: PostgresResult<()>)
        ensures
            self.rolls_back(r),
    ;
}

/// A resource on which a transaction can be opened.
pub trait PostgresClient {
    /// The transactions that this resource opens.
    type Transaction: PostgresTransaction;

    /// `r` is a result that `transaction` may give. Any, unless the
    /// implementation says more.
    open spec fn opens(&self, r: PostgresResult<Self::Transaction>) -> bool {
        true
    }

    /// Opens a new transaction.
    fn transaction(&mut self) -> (r: PostgresResult<Self::Transaction>)
        ensures
            old(self).opens(r),
    ;
}

/// Where one run of the executor stands.
#[derive(Clone, Copy, Debug, PartialEq, Eq, Structural)]
pub enum Phase {
    /// No transaction was opened.
    Idle,
    /// A transaction is open and the operation has not returned.
    Open,
    /// The operation succeeded, and the commit was attempted.
    Committed,
    /// The operation failed, and the rollback was attempted.
    RolledBack,
}

/// A call that the executor makes.
#[derive(Clone, Copy, Debug, PartialEq, Eq, Structural)]
pub enum Step {
    /// Open a transaction on the resource.
    Open,
    /// Run the operation against the transaction.
    Operate,
    /// Commit the transaction.
    Commit,
    /// Roll the transaction back.
    Rollback,
}

/// The step that resolves a transaction whose operation returned `outcome`.
pub open spec fn resolving_step<T, E>(outcome: Result<T, E>) -> Step {
    match outcome {
        Ok(_) => Step::Commit,
        Err(_) => Step::Rollback,
    }
}

/// What is returned once the operation has returned `outcome` and the
/// resolving step `resolved`: a failure of the step, whatever the operation
/// gave, and else the operation's own result.
pub open spec fn settled<T, E, X>(outcome: Result<T, E>, resolved: Result<(), X>) -> Result<
    Result<T, E>,
    X,
> {
    match resolved {
        Ok(_) => Ok(outcome),
        Err(err) => Err(err),
    }
}

/// Decides how to resolve a transaction whose operation returned `outcome`:
/// commit on success, roll back on failure.
pub fn resolution<T, E>(outcome: &Result<T, E>) -> (step: Step)
    ensures
        step == resolving_step(*outcome),
        step == Step::Commit || step == Step::Rollback,
{
    match outcome {
        Ok(_) => Step::Commit,
        Err(_) => Step::Rollback,
    }
}

/// Decides what a run returns once its transaction is resolved.
pub fn settle<T, E, X>(outcome: Result<T, E>, resolved: Result<(), X>) -> (r: Result<
    Result<T, E>,
    X,
>)
    ensures
        r == settled(outcome, resolved),
{
    match resolved {
        Ok(_) => Ok(outcome),
        Err(err) => Err(err),
    }
}

/// One run of the executor, by what the resource and the operation gave.
pub enum Run<X, T, E> {
    /// The resource did not open a transaction.
    Refused(PostgresError),
    /// The resource opened `tx`, the operation returned `outcome`, and the
    /// step that resolves `tx` returned `resolved`.
    Resolved { tx: X, outcome: Result<T, E>, resolved: PostgresResult<()> },
}

impl<X, T, E> Run<X, T, E> {
    /// What the run returns: the outer layer is the machinery's, the inner
    /// one the operation's.
    pub open spec fn result(self) -> PostgresResult<Result<T, E>> {
        match self {
            Run::Refused(err) => Err(err),
            Run::Resolved { outcome, resolved, .. } => settled(outcome, resolved),
        }
    }

    /// The calls that the run makes, in order.
    pub open spec fn steps(self) -> Seq<Step> {
        match self {
            Run::Refused(_) => seq![Step::Open],
            Run::Resolved { outcome, .. } => seq![
                Step::Open,
                Step::Operate,
                resolving_step(outcome),
            ],
        }
    }

    /// How often the run makes the call `step`.
    pub open spec fn times(self, step: Step) -> nat {
        occurrences(self.steps(), step)
    }

    /// Where the run ends.
    pub open spec fn phase(self) -> Phase {
        match self {
            Run::Refused(_) => Phase::Idle,
            Run::Resolved { outcome: Ok(_), .. } => Phase::Committed,
            Run::Resolved { outcome: Err(_), .. } => Phase::RolledBack,
        }
    }
}

/// How often `step` occurs in `steps`.
pub open spec fn occurrences(steps: Seq<Step>, step: Step) -> nat
    decreases steps.len(),
{
    if steps.len() == 0 {
        0
    } else {
        occurrences(steps.drop_last(), step) + if steps.last() == step {
            1nat
        } else {
            0nat
        }
    }
}

/// `run` is a run that `client` and `f` may give: each part of it is a result
/// that the call it stands for may return, and the transaction is resolved by
/// a commit where the operation succeeded and by a rollback where it failed.
pub open spec fn admits<C: PostgresClient, T, E, F: Fn(&C::Transaction) -> Result<T, E>>(
    client: C,
    f: F,
    run: Run<C::Transaction, T, E>,
) -> bool {
    match run {
        Run::Refused(err) => client.opens(Err(err)),
        Run::Resolved { tx, outcome, resolved } => {
            &&& client.opens(Ok(tx))
            &&& call_ensures(f, (&tx,), outcome)
            &&& outcome is Ok ==> tx.commits(resolved)
            &&& outcome is Err ==> tx.rolls_back(resolved)
        },
    }
}

/// `r` is a result that running `f` in a transaction on `client` may give.
pub open spec fn transacts<C: PostgresClient, T, E, F: Fn(&C::Transaction) -> Result<T, E>>(
    client: C,
    f: F,
    r: PostgresResult<Result<T, E>>,
) -> bool {
    exists|run: Run<C::Transaction, T, E>| #[trigger] admits(client, f, run) && r == run.result()
}

/// Runs `f` in a transaction on `client`.
///
/// The transaction is opened first; where that fails, the failure is
/// returned and `f` is not run. Else `f` is run once against the
/// transaction, which is then committed where `f` succeeded and rolled back
/// where it failed. A failure of that step is returned in place of what `f`
/// gave; else what `f` gave is returned inside `Ok`.
pub fn transactional<C, T, E, F>(client: &mut C, f: F) -> (r: PostgresResult<Result<T, E>>) where
    C: PostgresClient,
    F: Fn(&C::Transaction) -> Result<T, E>,

    requires
        forall|tx: C::Transaction| old(client).opens(Ok(tx)) ==> call_requires(f, (&tx,)),
    ensures
        transacts(*old(client), f, r),
{
    match client.transaction() {
        Err(err) => {
            assert(admits(*old(client), f, Run::Refused(err)));
            Err(err)
        },
        Ok(tx) => {
            let outcome = f(&tx);
            let ghost opened = tx;
            let resolved = match resolution(&outcome) {
                Step::Commit => tx.commit(),
                _ => tx.rollback(),
            };
            assert(admits(*old(client), f, Run::Resolved { tx: opened, outcome, resolved }));
            settle(outcome, resolved)
        },
    }
}

/// `r` is a result that a call answered by a recorder of `script` may give:
/// what the recorder yields, or the overrun failure where the script has no
/// entry for the call.
pub open spec fn recorded<T>(script: Script<PostgresResult<T>, ()>, r: PostgresResult<T>) -> bool {
    ||| script.may_yield((), r)
    ||| script is Scripted && r is Err && r->Err_0@ == overrun_message()
}

/// A transaction whose commit and rollback are answered by recorders.
pub struct MockPostgresTransaction {
    /// Answers `commit`.
    pub commit: Mock<PostgresResult<()>>,
    /// Answers `rollback`.
    pub rollback: Mock<PostgresResult<()>>,
}

impl Default for MockPostgresTransaction {
    /// A transaction that expects neither a commit nor a rollback.
    fn default() -> (tx: Self)
        ensures
            tx.commit@.times() == 0,
            tx.rollback@.times() == 0,
    {
        MockPostgresTransaction { commit: Mock::never(), rollback: Mock::never() }
    }
}

impl PostgresTransaction for MockPostgresTransaction {
    open spec fn commits(&self, r: PostgresResult<()>) -> bool {
        recorded(self.commit@, r)
    }

    open spec fn rolls_back(&self, r: PostgresResult<()>) -> bool {
        recorded(self.rollback@, r)
    }

    fn commit(self) -> (r: PostgresResult<()>) {
        match self.commit.call() {
            Some(r) => r,
            None => Err(overrun()),
        }
    }

    fn rollback(self) -> (r: PostgresResult<()>) {
        match self.rollback.call() {
            Some(r) => r,
            None => Err(overrun()),
        }
    }
}

/// A resource whose transactions come from a recorder.
pub struct MockPostgresClient {
    /// Answers `transaction`.
    pub transaction: Mock<MockPostgresTransaction>,
}

impl Default for MockPostgresClient {
    /// A resource that expects no transaction.
    fn default() -> (client: Self)
        ensures
            client.transaction@.times() == 0,
    {
        MockPostgresClient { transaction: Mock::never() }
    }
}

impl PostgresClient for MockPostgresClient {
    type Transaction = MockPostgresTransaction;

    open spec fn opens(&self, r: PostgresResult<MockPostgresTransaction>) -> bool {
        match r {
            Ok(tx) => self.transaction@.may_yield((), tx),
            Err(err) => self.transaction@ is Scripted && err@ == overrun_message(),
        }
    }

    fn transaction(&mut self) -> (r: PostgresResult<MockPostgresTransaction>) {
        match self.transaction.call() {
            Some(tx) => Ok(tx),
            None => Err(overrun()),
        }
    }
}

/// A run is committed exactly where its transaction was opened and the
/// operation succeeded, is rolled back exactly where the transaction was
/// opened and the operation failed, and never ends with the transaction
/// open. It opens once, runs the operation at most once, and resolves the
/// transaction once where it opened one.
pub proof fn law_always_resolved<X, T, E>(run: Run<X, T, E>)
    ensures
        run.phase() != Phase::Open,
        run.phase() == Phase::Committed <==> run is Resolved && run->outcome is Ok,
        run.phase() == Phase::RolledBack <==> run is Resolved && run->outcome is Err,
        run.phase() == Phase::Idle <==> run is Refused,
        run.times(Step::Open) == 1,
        run.times(Step::Operate) == if run is Resolved { 1nat } else { 0nat },
        run.times(Step::Commit) == if run.phase() == Phase::Committed { 1nat } else { 0nat },
        run.times(Step::Rollback) == if run.phase() == Phase::RolledBack { 1nat } else { 0nat },
{
    reveal_with_fuel(occurrences, 4);
    let steps = run.steps();
    if steps.len() == 3 {
        assert(steps.drop_last() =~= seq![steps[0], steps[1]]);
        assert(steps.drop_last().drop_last() =~= seq![steps[0]]);
        assert(steps.drop_last().drop_last().drop_last() =~= Seq::<Step>::empty());
    } else {
        assert(steps.drop_last() =~= Seq::<Step>::empty());
    }
}

/// Success path: where opening succeeds, the operation returns `Ok(value)`
/// and the commit succeeds, the run returns `Ok(Ok(value))`, commits once
/// and never rolls back.
pub proof fn law_success_commits<C, T, E, F>(
    client: C,
    f: F,
    run: Run<C::Transaction, T, E>,
    value: T,
) where C: PostgresClient, F: Fn(&C::Transaction) -> Result<T, E>
    requires
        admits(client, f, run),
        forall|err: PostgresError| !client.opens(Err(err)),
        forall|tx: C::Transaction, outcome: Result<T, E>|
            call_ensures(f, (&tx,), outcome) ==> outcome == Ok::<T, E>(value),
        forall|tx: C::Transaction, resolved: PostgresResult<()>|
            tx.commits(resolved) ==> resolved is Ok,
    ensures
        run.result() == Ok::<Result<T, E>, PostgresError>(Ok(value)),
        run.times(Step::Commit) == 1,
        run.times(Step::Rollback) == 0,
        run.phase() == Phase::Committed,
{
    law_always_resolved(run);
}

/// Operation-failure path: where opening succeeds, the operation returns
/// `Err(error)` and the rollback succeeds, the run returns `Ok(Err(error))`,
/// rolls back once and never commits.
pub proof fn law_failure_rolls_back<C, T, E, F>(
    client: C,
    f: F,
    run: Run<C::Transaction, T, E>,
    error: E,
) where C: PostgresClient, F: Fn(&C::Transaction) -> Result<T, E>
    requires
        admits(client, f, run),
        forall|err: PostgresError| !client.opens(Err(err)),
        forall|tx: C::Transaction, outcome: Result<T, E>|
            call_ensures(f, (&tx,), outcome) ==> outcome == Err::<T, E>(error),
        forall|tx: C::Transaction, resolved: PostgresResult<()>|
            tx.rolls_back(resolved) ==> resolved is Ok,
    ensures
        run.result() == Ok::<Result<T, E>, PostgresError>(Err(error)),
        run.times(Step::Rollback) == 1,
        run.times(Step::Commit) == 0,
        run.phase() == Phase::RolledBack,
{
    law_always_resolved(run);
}

/// Open-failure path: where opening fails, the run returns that failure,
/// and the operation is never run, nor anything committed or rolled back.
pub proof fn law_refusal_runs_nothing<C, T, E, F>(
    client: C,
    f: F,
    run: Run<C::Transaction, T, E>,
) where C: PostgresClient, F: Fn(&C::Transaction) -> Result<T, E>
    requires
        admits(client, f, run),
        forall|tx: C::Transaction| !client.opens(Ok(tx)),
    ensures
        run is Refused,
        run.result() == Err::<Result<T, E>, PostgresError>(run->Refused_0),
        client.opens(Err(run->Refused_0)),
        run.times(Step::Operate) == 0,
        run.times(Step::Commit) == 0,
        run.times(Step::Rollback) == 0,
        run.phase() == Phase::Idle,
{
    law_always_resolved(run);
}

/// Commit-failure path: where the operation succeeds and the commit fails,
/// the run returns the commit's failure, and the operation's value is lost.
pub proof fn law_failed_commit_is_returned<C, T, E, F>(
    client: C,
    f: F,
    run: Run<C::Transaction, T, E>,
) where C: PostgresClient, F: Fn(&C::Transaction) -> Result<T, E>
    requires
        admits(client, f, run),
        run is Resolved,
        run->outcome is Ok,
        forall|tx: C::Transaction, resolved: PostgresResult<()>|
            tx.commits(resolved) ==> resolved is Err,
    ensures
        run->resolved is Err,
        run.result() == Err::<Result<T, E>, PostgresError>(run->resolved->Err_0),
        run->tx.commits(run->resolved),
        run.times(Step::Commit) == 1,
{
    law_always_resolved(run);
}

/// Rollback-failure path: where the operation fails and the rollback fails
/// too, the run returns the rollback's failure in place of the operation's.
pub proof fn law_failed_rollback_is_returned<C, T, E, F>(
    client: C,
    f: F,
    run: Run<C::Transaction, T, E>,
) where C: PostgresClient, F: Fn(&C::Transaction) -> Result<T, E>
    requires
        admits(client, f, run),
        run is Resolved,
        run->outcome is Err,
        forall|tx: C::Transaction, resolved: PostgresResult<()>|
            tx.rolls_back(resolved) ==> resolved is Err,
    ensures
        run->resolved is Err,
        run.result() == Err::<Result<T, E>, PostgresError>(run->resolved->Err_0),
        run->tx.rolls_back(run->resolved),
        run.times(Step::Rollback) == 1,
{
    law_always_resolved(run);
}

} // verus!
