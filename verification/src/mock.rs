//! The sequenced call recorder.
//!
//! A [`Mock`] replays a behaviour decided when it is built: either a script,
//! one answer per call, or a single rule that answers every call and is told
//! the call's index. Each call claims the next index from a counter that all
//! clones of the recorder share.

use std::sync::atomic::AtomicUsize;
use std::sync::atomic::Ordering;
use std::sync::Arc;
use vstd::prelude::*;

verus! {

/// What the recorder needs of an answer: a function object that can be shared
/// between threads, together with the contract of one invocation.
trait Behavior<RETURN, ARGS>: Send + Sync {
    spec fn accepts(&self, args: ARGS) -> bool;

    spec fn yields(&self, args: ARGS, ret: RETURN) -> bool;

    fn invoke(&self, args: ARGS) -> (ret: RETURN)
        requires
            self.accepts(args),
        ensures
            self.yields(args, ret),
    ;
}

/// A function of the call's arguments.
struct OfArgs<F>(F);

/// A function of the call's index and arguments.
struct OfIndexAndArgs<F>(F);

/// A function of the call's index alone.
struct OfIndex<F>(F);

/// A function of nothing.
struct OfNothing<F>(F);

impl<RETURN, ARGS, F: Fn(ARGS) -> RETURN + Send + Sync> Behavior<RETURN, ARGS> for OfArgs<F> {
    closed spec fn accepts(&self, args: ARGS) -> bool {
        call_requires(self.0, (args,))
    }

    closed spec fn yields(&self, args: ARGS, ret: RETURN) -> bool {
        call_ensures(self.0, (args,), ret)
    }

    fn invoke(&self, args: ARGS) -> (ret: RETURN) {
        (self.0)(args)
    }
}

impl<RETURN, ARGS, F: Fn(usize, ARGS) -> RETURN + Send + Sync> Behavior<
    RETURN,
    (usize, ARGS),
> for OfIndexAndArgs<F> {
    closed spec fn accepts(&self, args: (usize, ARGS)) -> bool {
        call_requires(self.0, (args.0, args.1))
    }

    closed spec fn yields(&self, args: (usize, ARGS), ret: RETURN) -> bool {
        call_ensures(self.0, (args.0, args.1), ret)
    }

    fn invoke(&self, args: (usize, ARGS)) -> (ret: RETURN) {
        (self.0)(args.0, args.1)
    }
}

impl<RETURN, F: Fn(usize) -> RETURN + Send + Sync> Behavior<RETURN, (usize, ())> for OfIndex<F> {
    closed spec fn accepts(&self, args: (usize, ())) -> bool {
        call_requires(self.0, (args.0,))
    }

    closed spec fn yields(&self, args: (usize, ()), ret: RETURN) -> bool {
        call_ensures(self.0, (args.0,), ret)
    }

    fn invoke(&self, args: (usize, ())) -> (ret: RETURN) {
        (self.0)(args.0)
    }
}

impl<RETURN, F: Fn() -> RETURN + Send + Sync> Behavior<RETURN, ()> for OfNothing<F> {
    closed spec fn accepts(&self, args: ()) -> bool {
        call_requires(self.0, ())
    }

    closed spec fn yields(&self, args: (), ret: RETURN) -> bool {
        call_ensures(self.0, (), ret)
    }

    fn invoke(&self, args: ()) -> (ret: RETURN) {
        (self.0)()
    }
}

/// One answer of a recorder: a function from a call's arguments to its
/// result, which can be invoked on every argument.
#[verifier::reject_recursive_types(RETURN)]
#[verifier::reject_recursive_types(ARGS)]
pub struct MockFn<RETURN, ARGS = ()> {
    f: Box<dyn Behavior<RETURN, ARGS>>,
}

impl<RETURN, ARGS> MockFn<RETURN, ARGS> {
    #[verifier::type_invariant]
    spec fn total(&self) -> bool {
        forall|args: ARGS| self.f.accepts(args)
    }

    /// `ret` is a result that this answer may give to `args`.
    pub closed spec fn yields(&self, args: ARGS, ret: RETURN) -> bool {
        self.f.yields(args, ret)
    }

    /// Wraps a function of the call's arguments.
    pub fn new<F: Fn(ARGS) -> RETURN + Send + Sync + 'static>(f: F) -> (entry: Self)
        requires
            forall|args: ARGS| call_requires(f, (args,)),
        ensures
            forall|args: ARGS, ret: RETURN|
                entry.yields(args, ret) <==> call_ensures(f, (args,), ret),
    {
        MockFn { f: Box::new(OfArgs(f)) }
    }

    /// Gives this answer to `args`.
    pub fn invoke(&self, args: ARGS) -> (ret: RETURN)
        ensures
            self.yields(args, ret),
    {
        proof {
            use_type_invariant(self);
        }
        self.f.invoke(args)
    }
}

impl<RETURN> MockFn<RETURN, ()> {
    /// Wraps a function that takes nothing.
    pub fn of_nothing<F: Fn() -> RETURN + Send + Sync + 'static>(f: F) -> (entry: Self)
        requires
            call_requires(f, ()),
        ensures
            forall|ret: RETURN| entry.yields((), ret) <==> call_ensures(f, (), ret),
    {
        MockFn { f: Box::new(OfNothing(f)) }
    }
}

/// The behaviour of a recorder, as contracts see it.
#[verifier::reject_recursive_types(RETURN)]
#[verifier::reject_recursive_types(ARGS)]
pub enum Script<RETURN, ARGS> {
    /// One rule answers every call, and is told the call's index.
    Always(MockFn<RETURN, (usize, ARGS)>),
    /// The call with index `i` is answered by the entry at `i`, and no other
    /// call is answered.
    Scripted(Seq<MockFn<RETURN, ARGS>>),
}

impl<RETURN, ARGS> Script<RETURN, ARGS> {
    /// How many calls are expected: the script's length, or `usize::MAX` for
    /// a rule that answers without bound.
    pub open spec fn times(self) -> int {
        match self {
            Script::Always(_) => usize::MAX as int,
            Script::Scripted(entries) => entries.len() as int,
        }
    }

    /// Whether the call that claimed `idx` is answered.
    pub open spec fn answers(self, idx: usize) -> bool {
        match self {
            Script::Always(_) => true,
            Script::Scripted(entries) => idx < entries.len(),
        }
    }

    /// `ret` is a result that the call that claimed `idx` may get for `args`.
    pub open spec fn yields(self, idx: usize, args: ARGS, ret: RETURN) -> bool {
        match self {
            Script::Always(rule) => rule.yields((idx, args), ret),
            Script::Scripted(entries) => idx < entries.len() && entries[idx as int].yields(
                args,
                ret,
            ),
        }
    }

    /// `ret` is a result that some answered call may get for `args`.
    pub open spec fn may_yield(self, args: ARGS, ret: RETURN) -> bool {
        exists|idx: usize| self.answers(idx) && #[trigger] self.yields(idx, args, ret)
    }
}

#[verifier::reject_recursive_types(RETURN)]
#[verifier::reject_recursive_types(ARGS)]
enum MockKind<RETURN, ARGS> {
    Always(Arc<MockFn<RETURN, (usize, ARGS)>>),
    CallSpecific(Arc<Vec<MockFn<RETURN, ARGS>>>),
}

/// A recorder of calls: it hands each call the next index and answers it as
/// its behaviour says. Clones share the counter and the behaviour.
#[verifier::reject_recursive_types(RETURN)]
#[verifier::reject_recursive_types(ARGS)]
pub struct Mock<RETURN, ARGS = ()> {
    idx: Arc<AtomicUsize>,
    kind: MockKind<RETURN, ARGS>,
}

impl<RETURN, ARGS> View for Mock<RETURN, ARGS> {
    type V = Script<RETURN, ARGS>;

    closed spec fn view(&self) -> Script<RETURN, ARGS> {
        match self.kind {
            MockKind::Always(rule) => Script::Always(*rule),
            MockKind::CallSpecific(entries) => Script::Scripted(entries@),
        }
    }
}

impl<RETURN, ARGS> Mock<RETURN, ARGS> {
    /// A recorder whose every call is answered by `f`, which is given the
    /// call's index and arguments.
    pub fn always_with_args<F: Fn(usize, ARGS) -> RETURN + Send + Sync + 'static>(f: F) -> (mock:
        Self)
        requires
            forall|idx: usize, args: ARGS| call_requires(f, (idx, args)),
        ensures
            mock@ is Always,
            forall|idx: usize, args: ARGS, ret: RETURN|
                mock@.yields(idx, args, ret) <==> call_ensures(f, (idx, args), ret),
    {
        let rule = MockFn { f: Box::new(OfIndexAndArgs(f)) };
        Mock { idx: Arc::new(AtomicUsize::new(0)), kind: MockKind::Always(Arc::new(rule)) }
    }

    /// A recorder that answers no call.
    pub fn never() -> (mock: Self)
        ensures
            mock@ == Script::<RETURN, ARGS>::Scripted(Seq::empty()),
    {
        Self::with(Vec::new())
    }

    /// A recorder that answers one call, by `f`.
    pub fn once_with_args<F: Fn(ARGS) -> RETURN + Send + Sync + 'static>(f: F) -> (mock: Self)
        requires
            forall|args: ARGS| call_requires(f, (args,)),
        ensures
            mock@ is Scripted,
            mock@.times() == 1,
            forall|args: ARGS, ret: RETURN|
                mock@.yields(0, args, ret) <==> call_ensures(f, (args,), ret),
    {
        let mut entries = Vec::new();
        entries.push(MockFn::new(f));
        Self::with(entries)
    }

    /// A recorder that answers as many calls as `f` has entries: the call
    /// with index `i` by the entry at `i`.
    pub fn with(f: Vec<MockFn<RETURN, ARGS>>) -> (mock: Self)
        ensures
            mock@ == Script::Scripted(f@),
    {
        Mock { idx: Arc::new(AtomicUsize::new(0)), kind: MockKind::CallSpecific(Arc::new(f)) }
    }

    /// Answers the call that claimed `idx`.
    pub fn respond(&self, idx: usize, args: ARGS) -> (ret: RETURN)
        requires
            self@.answers(idx),
        ensures
            self@.yields(idx, args, ret),
    {
        match &self.kind {
            MockKind::Always(rule) => rule.invoke((idx, args)),
            MockKind::CallSpecific(entries) => entries[idx].invoke(args),
        }
    }

    /// Claims the next index and answers the call, or returns `None` where
    /// the script has no entry for the index claimed.
    ///
    /// The index comes from the counter that all clones share, so the
    /// contract says what holds whichever index was claimed.
    pub fn call_with_args(&self, args: ARGS) -> (ret: Option<RETURN>)
        ensures
            ret matches Some(value) ==> self@.may_yield(args, value),
            ret is None ==> self@ is Scripted,
            self@.times() == 0 ==> ret is None,
    {
        let idx = self.idx.fetch_add(1, Ordering::Relaxed);
        if self.answers(idx) {
            let value = self.respond(idx, args);
            assert(self@.answers(idx) && self@.yields(idx, args, value));
            Some(value)
        } else {
            None
        }
    }

    /// Whether the call that claims `idx` is answered.
    pub fn answers(&self, idx: usize) -> (answered: bool)
        ensures
            answered == self@.answers(idx),
    {
        match &self.kind {
            MockKind::Always(_) => true,
            MockKind::CallSpecific(entries) => idx < entries.len(),
        }
    }

    /// The number of indices claimed so far, over all clones.
    ///
    /// It is read from the counter that all clones share, and any of them
    /// may claim an index at any time: nothing is known of the number
    /// beforehand.
    pub fn count(&self) -> usize {
        self.idx.load(Ordering::Relaxed)
    }

    /// The number of calls expected: the script's length, or `usize::MAX`
    /// where one rule answers every call.
    pub fn times(&self) -> (n: usize)
        ensures
            n == self@.times(),
    {
        match &self.kind {
            MockKind::Always(_) => usize::MAX,
            MockKind::CallSpecific(entries) => entries.len(),
        }
    }
}

impl<RETURN> Mock<RETURN, ()> {
    /// A recorder whose every call is answered by `f`, which is given the
    /// call's index.
    pub fn always<F: Fn(usize) -> RETURN + Send + Sync + 'static>(f: F) -> (mock: Self)
        requires
            forall|idx: usize| call_requires(f, (idx,)),
        ensures
            mock@ is Always,
            forall|idx: usize, ret: RETURN|
                mock@.yields(idx, (), ret) <==> call_ensures(f, (idx,), ret),
    {
        let rule = MockFn { f: Box::new(OfIndex(f)) };
        Mock { idx: Arc::new(AtomicUsize::new(0)), kind: MockKind::Always(Arc::new(rule)) }
    }

    /// A recorder that answers one call, by `f`.
    pub fn once<F: Fn() -> RETURN + Send + Sync + 'static>(f: F) -> (mock: Self)
        requires
            call_requires(f, ()),
        ensures
            mock@ is Scripted,
            mock@.times() == 1,
            forall|ret: RETURN| mock@.yields(0, (), ret) <==> call_ensures(f, (), ret),
    {
        let mut entries = Vec::new();
        entries.push(MockFn::of_nothing(f));
        Self::with(entries)
    }

    /// Claims the next index and answers the call, or returns `None` where
    /// the script has no entry for the index claimed.
    pub fn call(&self) -> (ret: Option<RETURN>)
        ensures
            ret matches Some(value) ==> self@.may_yield((), value),
            ret is None ==> self@ is Scripted,
            self@.times() == 0 ==> ret is None,
    {
        self.call_with_args(())
    }
}

impl<RETURN, ARGS> Clone for Mock<RETURN, ARGS> {
    /// A second handle on the same recorder.
    fn clone(&self) -> (mock: Self)
        ensures
            mock@ == self@,
    {
        Mock {
            idx: self.idx.clone(),
            kind: match &self.kind {
                MockKind::Always(rule) => MockKind::Always(rule.clone()),
                MockKind::CallSpecific(entries) => MockKind::CallSpecific(entries.clone()),
            },
        }
    }
}

impl<RETURN, ARGS> Default for Mock<RETURN, ARGS> {
    /// A recorder that answers no call.
    fn default() -> (mock: Self)
        ensures
            mock@ == Script::<RETURN, ARGS>::Scripted(Seq::empty()),
    {
        Self::never()
    }
}

/// A recorder scripted with `entries` answers the calls whose index is below
/// their number, each by the entry at its index, and no other call.
pub proof fn law_script_is_replayed_in_order<RETURN, ARGS>(
    mock: Mock<RETURN, ARGS>,
    entries: Seq<MockFn<RETURN, ARGS>>,
    idx: usize,
    args: ARGS,
    ret: RETURN,
)
    requires
        mock@ == Script::Scripted(entries),
    ensures
        mock@.times() == entries.len(),
        mock@.answers(idx) <==> idx < entries.len(),
        mock@.yields(idx, args, ret) <==> idx < entries.len() && entries[idx as int].yields(
            args,
            ret,
        ),
{
}

/// A recorder with one rule answers every call, whatever its index, and
/// hands the rule that index with the call's arguments.
pub proof fn law_rule_is_told_the_index<RETURN, ARGS>(
    mock: Mock<RETURN, ARGS>,
    rule: MockFn<RETURN, (usize, ARGS)>,
    idx: usize,
    args: ARGS,
    ret: RETURN,
)
    requires
        mock@ == Script::Always(rule),
    ensures
        mock@.times() == usize::MAX,
        mock@.answers(idx),
        mock@.yields(idx, args, ret) <==> rule.yields((idx, args), ret),
{
}

} // verus!
