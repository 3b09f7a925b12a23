//! Mocked system functions: each call is answered from a queue of configured
//! behaviours, in the order they were configured, and falls back to the real
//! call when the queue is empty and fallback is enabled.
use vstd::prelude::*;
use std::collections::VecDeque;
use crate::errors::OsError;
use crate::c::{ForkReturn, PipeFds, SysCall};

verus! {

/// A mocked result: a value, or an operating-system error number.
#[derive(Debug, Clone)]
pub enum MockResult<T> {
    /// The call succeeds with this value.
    Value(T),
    /// The call fails with this error number.
    Errno(i32),
}

impl<T> MockResult<T> {
    /// The result that the mocked call returns.
    pub open spec fn spec_result(self) -> Result<T, OsError> {
        match self {
            MockResult::Value(v) => Ok(v),
            MockResult::Errno(code) => Err(OsError { code }),
        }
    }

    /// Turns the mocked result into the call's result.
    pub fn to_result(self) -> (r: Result<T, OsError>)
        ensures
            r == self.spec_result(),
    {
        match self {
            MockResult::Value(val) => Ok(val),
            MockResult::Errno(code) => Err(OsError::from_raw_os_error(code)),
        }
    }

    /// Stores a configured result: a value, or an error's number.
    pub fn from_result(result: Result<T, OsError>) -> (r: MockResult<T>)
        ensures
            r == match result {
                Ok(v) => MockResult::Value(v),
                Err(e) => MockResult::Errno(e.code),
            },
    {
        match result {
            Ok(val) => MockResult::Value(val),
            Err(err) => MockResult::Errno(err.code),
        }
    }
}

/// How one call is implemented: by the real call, or by a mocked result.
#[derive(Debug, Clone)]
pub enum CallImplementation<T> {
    /// Make the real call.
    Real,
    /// Answer with this result.
    Mock(MockResult<T>),
}

/// How a call should behave, as a user configures it.
pub enum CallBehavior<T> {
    /// Use the real system call.
    Real,
    /// Use this result.
    Mock(Result<T, OsError>),
}

/// The implementation that a configured behaviour is stored as.
pub open spec fn stores_as<T>(behavior: CallBehavior<T>, imp: CallImplementation<T>) -> bool {
    match behavior {
        CallBehavior::Real => imp is Real,
        CallBehavior::Mock(Ok(v)) => imp == CallImplementation::Mock(MockResult::Value(v)),
        CallBehavior::Mock(Err(e)) => imp == CallImplementation::Mock(MockResult::<T>::Errno(e.code)),
    }
}

/// How the next call is answered from `queue`.
pub open spec fn answer<T>(queue: Seq<CallImplementation<T>>) -> SysCall<T> {
    if queue.len() == 0 {
        SysCall::Real
    } else {
        match queue[0] {
            CallImplementation::Real => SysCall::Real,
            CallImplementation::Mock(r) => SysCall::Mocked(r.spec_result()),
        }
    }
}

/// What is left of `queue` after the next call.
pub open spec fn after_call<T>(queue: Seq<CallImplementation<T>>) -> Seq<CallImplementation<T>> {
    if queue.len() == 0 { queue } else { queue.drop_first() }
}

/// A queue of call implementations, answered first in, first out.
#[derive(Debug)]
pub struct CallQueue<T> {
    queue: VecDeque<CallImplementation<T>>,
}

impl<T> View for CallQueue<T> {
    type V = Seq<CallImplementation<T>>;

    closed spec fn view(&self) -> Seq<CallImplementation<T>> {
        self.queue@
    }
}

impl<T> CallQueue<T> {
    /// An empty queue.
    pub fn new() -> (q: Self)
        ensures
            q@ == Seq::<CallImplementation<T>>::empty(),
    {
        CallQueue { queue: VecDeque::new() }
    }

    /// Appends a behaviour at the back of the queue.
    pub fn push(&mut self, behavior: CallBehavior<T>)
        ensures
            final(self)@.len() == old(self)@.len() + 1,
            final(self)@.take(old(self)@.len() as int) == old(self)@,
            stores_as(behavior, final(self)@.last()),
    {
        let imp = match behavior {
            CallBehavior::Real => CallImplementation::Real,
            CallBehavior::Mock(result) => CallImplementation::Mock(MockResult::from_result(result)),
        };
        self.queue.push_back(imp);
        proof {
            assert(self@.take(old(self)@.len() as int) =~= old(self)@);
        }
    }

    /// Answers the next call from the front of the queue; with an empty queue
    /// the real call is made, which is only allowed when fallback is enabled.
    pub fn execute_next(&mut self, fallback_enabled: bool) -> (r: SysCall<T>)
        requires
            old(self)@.len() > 0 || fallback_enabled,
        ensures
            r == answer(old(self)@),
            final(self)@ == after_call(old(self)@),
    {
        match self.queue.pop_front() {
            Some(CallImplementation::Real) => SysCall::Real,
            Some(CallImplementation::Mock(result)) => SysCall::Mocked(result.to_result()),
            None => SysCall::Real,
        }
    }

    /// Whether a behaviour is configured for the next call.
    pub fn is_empty(&self) -> (r: bool)
        ensures
            r == (self@.len() == 0),
    {
        self.queue.len() == 0
    }
}

/// The abstract state of a mock: whether it falls back to the real calls, and
/// the behaviours still queued for each call.
pub struct MockState {
    /// Calls with nothing queued are left to the real system functions.
    pub fallback: bool,
    /// What is queued for `fork`, next first.
    pub forks: Seq<CallImplementation<ForkReturn>>,
    /// What is queued for `pipe`, next first.
    pub pipes: Seq<CallImplementation<PipeFds>>,
    /// What is queued for `close`, next first.
    pub closes: Seq<CallImplementation<()>>,
    /// What is queued for `waitpid`, next first.
    pub waits: Seq<CallImplementation<i32>>,
}

/// The state of a mock with nothing configured.
pub open spec fn fresh_state(fallback: bool) -> MockState {
    MockState {
        fallback,
        forks: Seq::empty(),
        pipes: Seq::empty(),
        closes: Seq::empty(),
        waits: Seq::empty(),
    }
}

/// System functions that answer each call from a queue of configured
/// behaviours, and fall back to the real calls when fallback is enabled.
#[derive(Debug)]
pub struct MockableSystemFunctions {
    fallback_enabled: bool,
    fork_queue: CallQueue<ForkReturn>,
    pipe_queue: CallQueue<PipeFds>,
    close_queue: CallQueue<()>,
    waitpid_queue: CallQueue<i32>,
}

impl View for MockableSystemFunctions {
    type V = MockState;

    closed spec fn view(&self) -> MockState {
        MockState {
            fallback: self.fallback_enabled,
            forks: self.fork_queue@,
            pipes: self.pipe_queue@,
            closes: self.close_queue@,
            waits: self.waitpid_queue@,
        }
    }
}

impl MockableSystemFunctions {
    /// A `fork` can be answered: a behaviour is queued, or the real call is
    /// allowed.
    pub open spec fn can_answer_fork(&self) -> bool {
        self@.forks.len() > 0 || self@.fallback
    }

    /// A `pipe` can be answered.
    pub open spec fn can_answer_pipe(&self) -> bool {
        self@.pipes.len() > 0 || self@.fallback
    }

    /// A `close` can be answered.
    pub open spec fn can_answer_close(&self) -> bool {
        self@.closes.len() > 0 || self@.fallback
    }

    /// A `waitpid` can be answered.
    pub open spec fn can_answer_waitpid(&self) -> bool {
        self@.waits.len() > 0 || self@.fallback
    }

    /// A mock with no behaviour configured.
    fn new(fallback: bool) -> (m: Self)
        ensures
            m@ == fresh_state(fallback),
    {
        let m = MockableSystemFunctions {
                    fallback_enabled: fallback,
            fork_queue: CallQueue::new(),
            pipe_queue: CallQueue::new(),
            close_queue: CallQueue::new(),
            waitpid_queue: CallQueue::new(),
        };
        assert(m@ =~= fresh_state(fallback));
        m
    }

    /// A mock that falls back to the real calls when nothing is configured.
    pub fn with_fallback() -> (m: Self)
        ensures
            m@ == fresh_state(true),
    {
        Self::new(true)
    }

    /// A mock that answers only from its configured behaviours.
    pub fn strict() -> (m: Self)
        ensures
            m@ == fresh_state(false),
    {
        Self::new(false)
    }

    /// Falls back to the real calls when nothing is configured.
    pub fn enable_fallback(&mut self) -> (r: &mut Self)
        ensures
            r@ == (MockState { fallback: true, ..old(self)@ }),
            final(self)@ == final(r)@,
    {
        self.fallback_enabled = true;
        self
    }

    /// Answers only from the configured behaviours.
    pub fn disable_fallback(&mut self) -> (r: &mut Self)
        ensures
            r@ == (MockState { fallback: false, ..old(self)@ }),
            final(self)@ == final(r)@,
    {
        self.fallback_enabled = false;
        self
    }

    /// Whether the mock falls back to the real calls.
    pub fn is_fallback_enabled(&self) -> (r: bool)
        ensures
            r == self@.fallback,
    {
        self.fallback_enabled
    }

    /// Queues a behaviour for `fork`.
    pub fn expect_fork(&mut self, behavior: CallBehavior<ForkReturn>) -> (r: &mut Self)
        ensures
            r@.forks.len() == old(self)@.forks.len() + 1,
            r@.forks.take(old(self)@.forks.len() as int) == old(self)@.forks,
            stores_as(behavior, r@.forks.last()),
            r@ == (MockState { forks: r@.forks, ..old(self)@ }),
            final(self)@ == final(r)@,
    {
        self.fork_queue.push(behavior);
        self
    }

    /// Queues a behaviour for `pipe`.
    pub fn expect_pipe(&mut self, behavior: CallBehavior<PipeFds>) -> (r: &mut Self)
        ensures
            r@.pipes.len() == old(self)@.pipes.len() + 1,
            r@.pipes.take(old(self)@.pipes.len() as int) == old(self)@.pipes,
            stores_as(behavior, r@.pipes.last()),
            r@ == (MockState { pipes: r@.pipes, ..old(self)@ }),
            final(self)@ == final(r)@,
    {
        self.pipe_queue.push(behavior);
        self
    }

    /// Queues a behaviour for `close`.
    pub fn expect_close(&mut self, behavior: CallBehavior<()>) -> (r: &mut Self)
        ensures
            r@.closes.len() == old(self)@.closes.len() + 1,
            r@.closes.take(old(self)@.closes.len() as int) == old(self)@.closes,
            stores_as(behavior, r@.closes.last()),
            r@ == (MockState { closes: r@.closes, ..old(self)@ }),
            final(self)@ == final(r)@,
    {
        self.close_queue.push(behavior);
        self
    }

    /// Queues a behaviour for `waitpid`.
    pub fn expect_waitpid(&mut self, behavior: CallBehavior<i32>) -> (r: &mut Self)
        ensures
            r@.waits.len() == old(self)@.waits.len() + 1,
            r@.waits.take(old(self)@.waits.len() as int) == old(self)@.waits,
            stores_as(behavior, r@.waits.last()),
            r@ == (MockState { waits: r@.waits, ..old(self)@ }),
            final(self)@ == final(r)@,
    {
        self.waitpid_queue.push(behavior);
        self
    }

    /// Whether a `fork` can be answered now (else the call would have
    /// nothing to answer with).
    pub fn can_fork(&self) -> (r: bool)
        ensures
            r == self.can_answer_fork(),
    {
        !self.fork_queue.is_empty() || self.fallback_enabled
    }

    /// Whether a `pipe` can be answered now.
    pub fn can_pipe(&self) -> (r: bool)
        ensures
            r == self.can_answer_pipe(),
    {
        !self.pipe_queue.is_empty() || self.fallback_enabled
    }

    /// Whether a `close` can be answered now.
    pub fn can_close(&self) -> (r: bool)
        ensures
            r == self.can_answer_close(),
    {
        !self.close_queue.is_empty() || self.fallback_enabled
    }

    /// Whether a `waitpid` can be answered now.
    pub fn can_waitpid(&self) -> (r: bool)
        ensures
            r == self.can_answer_waitpid(),
    {
        !self.waitpid_queue.is_empty() || self.fallback_enabled
    }

    /// How `fork` is answered: by the next queued behaviour, else by the real
    /// call.
    pub fn fork(&mut self) -> (r: SysCall<ForkReturn>)
        requires
            old(self).can_answer_fork(),
        ensures
            r == answer(old(self)@.forks),
            final(self)@ == (MockState { forks: after_call(old(self)@.forks), ..old(self)@ }),
    {
        let fallback = self.fallback_enabled;
        self.fork_queue.execute_next(fallback)
    }

    /// How `pipe` is answered.
    pub fn pipe(&mut self) -> (r: SysCall<PipeFds>)
        requires
            old(self).can_answer_pipe(),
        ensures
            r == answer(old(self)@.pipes),
            final(self)@ == (MockState { pipes: after_call(old(self)@.pipes), ..old(self)@ }),
    {
        let fallback = self.fallback_enabled;
        self.pipe_queue.execute_next(fallback)
    }

    /// How `close(fd)` is answered.
    pub fn close(&mut self, _fd: i32) -> (r: SysCall<()>)
        requires
            old(self).can_answer_close(),
        ensures
            r == answer(old(self)@.closes),
            final(self)@ == (MockState { closes: after_call(old(self)@.closes), ..old(self)@ }),
    {
        let fallback = self.fallback_enabled;
        self.close_queue.execute_next(fallback)
    }

    /// How `waitpid(pid)` is answered.
    pub fn waitpid(&mut self, _pid: i32) -> (r: SysCall<i32>)
        requires
            old(self).can_answer_waitpid(),
        ensures
            r == answer(old(self)@.waits),
            final(self)@ == (MockState { waits: after_call(old(self)@.waits), ..old(self)@ }),
    {
        let fallback = self.fallback_enabled;
        self.waitpid_queue.execute_next(fallback)
    }
}

impl Clone for MockableSystemFunctions {
    /// A fresh mock with the same fallback setting and no behaviour queued.
    fn clone(&self) -> (r: Self)
        ensures
            r@ == fresh_state(self@.fallback),
    {
        Self::new(self.fallback_enabled)
    }
}

impl Default for MockableSystemFunctions {
    /// A mock that falls back to the real calls, with nothing configured.
    fn default() -> (r: Self)
        ensures
            r@ == fresh_state(true),
    {
        Self::new(true)
    }
}

/// How `with_mock_system` sets up the mock it hands to the test.
pub enum MockConfig {
    /// A fresh mock that falls back to the real calls.
    Fallback,
    /// A fresh mock that answers only from configured behaviours.
    Strict,
    /// A mock configured by `configured_with_fallback`.
    ConfiguredWithFallback(MockableSystemFunctions),
    /// A mock configured by `configured_strict`.
    ConfiguredStrict(MockableSystemFunctions),
}

impl MockConfig {
    /// The state of the mock that the configuration sets up.
    pub open spec fn initial_state(self) -> MockState {
        match self {
            MockConfig::Fallback => fresh_state(true),
            MockConfig::Strict => fresh_state(false),
            MockConfig::ConfiguredWithFallback(m) => m@,
            MockConfig::ConfiguredStrict(m) => m@,
        }
    }
}

/// Sets up a mock as `config` says and runs `test_fn` with it.
pub fn with_mock_system<R, F>(config: MockConfig, test_fn: F) -> (r: R)
    where
        F: FnOnce(&mut MockableSystemFunctions) -> R,
    requires
        forall|m: &mut MockableSystemFunctions| #[trigger] test_fn.requires((m,)),
    ensures
        exists|m: &mut MockableSystemFunctions|
            (*m)@ == config.initial_state() && #[trigger] test_fn.ensures((m,), r),
{
    let mut mock = match config {
        MockConfig::Fallback => MockableSystemFunctions::with_fallback(),
        MockConfig::Strict => MockableSystemFunctions::strict(),
        MockConfig::ConfiguredWithFallback(configured) => configured,
        MockConfig::ConfiguredStrict(configured) => configured,
    };
    test_fn(&mut mock)
}

/// A configuration whose mock falls back to the real calls and was set up
/// by `configure_fn`.
pub fn configured_with_fallback<F>(configure_fn: F) -> (config: MockConfig)
    where
        F: FnOnce(&mut MockableSystemFunctions),
    requires
        forall|m: &mut MockableSystemFunctions| #[trigger] configure_fn.requires((m,)),
    ensures
        config matches MockConfig::ConfiguredWithFallback(m) && exists|start: &mut MockableSystemFunctions|
            (*start)@ == fresh_state(true)
            && #[trigger] configure_fn.ensures((start,), ()) && (*final(start))@ == m@,
{
    let mut mock = MockableSystemFunctions::with_fallback();
    configure_fn(&mut mock);
    MockConfig::ConfiguredWithFallback(mock)
}

/// A configuration whose mock answers only from configured behaviours and
/// was set up by `configure_fn`.
pub fn configured_strict<F>(configure_fn: F) -> (config: MockConfig)
    where
        F: FnOnce(&mut MockableSystemFunctions),
    requires
        forall|m: &mut MockableSystemFunctions| #[trigger] configure_fn.requires((m,)),
    ensures
        config matches MockConfig::ConfiguredStrict(m) && exists|start: &mut MockableSystemFunctions|
            (*start)@ == fresh_state(false)
            && #[trigger] configure_fn.ensures((start,), ()) && (*final(start))@ == m@,
{
    let mut mock = MockableSystemFunctions::strict();
    configure_fn(&mut mock);
    MockConfig::ConfiguredStrict(mock)
}

} // verus!
