//! Recovery from failure: a retry session that decides, after each call of an
//! operation, whether to return, to ask the operator, to call again or to give
//! up; and the two variants of the surface that ask: a headless one, which
//! has nobody to ask, and an interactive one, which shows a modal dialog.
use vstd::prelude::*;

pub mod dummy;
pub mod win;

verus! {

/// Where a retry session stands.
#[derive(Debug, Copy, Clone, PartialEq, Eq, Structural)]
pub enum RetryState {
    /// The operation is to be called.
    Invoking,
    /// The operation failed and the operator is to decide.
    AwaitingDecision,
    /// The operation succeeded and its value was handed back.
    Returned,
    /// The operator gave up, or nobody could be asked: execution stops.
    Terminated,
}

/// What the operator chose after a failure.
#[derive(Debug, Copy, Clone, PartialEq, Eq, Structural)]
pub enum Decision {
    Retry,
    Abandon,
}

/// What the loop that drives a session does next.
#[derive(Debug, Copy, Clone, PartialEq, Eq)]
pub enum Step<T, E> {
    /// Hand the value back to the caller.
    Return(T),
    /// Show the error to the operator and report the decision.
    Ask(E),
    /// Call the operation again.
    Continue,
    /// Stop the current unit of execution with the session's title as the message.
    Terminate,
}

/// One run of an operation that may be retried.
///
/// A headless session can ask nobody, so its first failure ends it.
pub struct RetrySession {
    state: RetryState,
    interactive: bool,
}

impl RetrySession {
    pub closed spec fn spec_state(&self) -> RetryState {
        self.state
    }

    pub closed spec fn spec_interactive(&self) -> bool {
        self.interactive
    }

    /// A session in its initial state, with or without an operator to ask.
    pub fn new(interactive: bool) -> (r: RetrySession)
        ensures
            r.spec_state() == RetryState::Invoking,
            r.spec_interactive() == interactive,
    {
        RetrySession { state: RetryState::Invoking, interactive }
    }

    pub fn state(&self) -> (r: RetryState)
        ensures
            r == self.spec_state(),
    {
        self.state
    }

    pub fn is_interactive(&self) -> (r: bool)
        ensures
            r == self.spec_interactive(),
    {
        self.interactive
    }

    /// Takes the outcome of one call of the operation.
    ///
    /// A success is returned. A failure is shown to the operator where there
    /// is one, and ends the session where there is none.
    pub fn record<T, E>(&mut self, outcome: Result<T, E>) -> (r: Step<T, E>)
        requires
            old(self).spec_state() == RetryState::Invoking,
        ensures
            final(self).spec_interactive() == old(self).spec_interactive(),
            match outcome {
                Ok(t) => r == Step::<T, E>::Return(t) && final(self).spec_state()
                    == RetryState::Returned,
                Err(e) => if old(self).spec_interactive() {
                    r == Step::<T, E>::Ask(e) && final(self).spec_state()
                        == RetryState::AwaitingDecision
                } else {
                    r == Step::<T, E>::Terminate && final(self).spec_state()
                        == RetryState::Terminated
                },
            },
    {
        match outcome {
            Ok(t) => {
                self.state = RetryState::Returned;
                Step::Return(t)
            },
            Err(e) => {
                if self.interactive {
                    self.state = RetryState::AwaitingDecision;
                    Step::Ask(e)
                } else {
                    self.state = RetryState::Terminated;
                    Step::Terminate
                }
            },
        }
    }

    /// Takes the operator's decision after a failure: call again, or stop.
    pub fn decide<T, E>(&mut self, decision: Decision) -> (r: Step<T, E>)
        requires
            old(self).spec_state() == RetryState::AwaitingDecision,
        ensures
            final(self).spec_interactive() == old(self).spec_interactive(),
            decision == Decision::Retry ==> (r == Step::<T, E>::Continue
                && final(self).spec_state() == RetryState::Invoking),
            decision == Decision::Abandon ==> (r == Step::<T, E>::Terminate
                && final(self).spec_state() == RetryState::Terminated),
    {
        match decision {
            Decision::Retry => {
                self.state = RetryState::Invoking;
                Step::Continue
            },
            Decision::Abandon => {
                self.state = RetryState::Terminated;
                Step::Terminate
            },
        }
    }
}

} // verus!
