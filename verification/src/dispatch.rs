//! The decisions of running a message's handlers: which handlers start
//! when, whether the message counts as handled, and whether it is deleted.

use vstd::prelude::*;

use crate::errors::HandlerError;
use crate::models::{HandlerExecutionMode, MessageDeleteMode};

verus! {

/// How one handler's run on a message ended.
#[derive(Debug, Clone, Copy, PartialEq, Eq, Structural)]
pub enum HandlerOutcome {
    /// The handler processed the message.
    Handled,
    /// The handler had processed the message before and skipped it.
    AlreadyProcessed,
    /// The handler reported a failure.
    Failed,
    /// The handler's task panicked or was aborted.
    Aborted,
}

impl HandlerOutcome {
    /// Whether the outcome leaves the message handled: a success or a skip
    /// of an already processed message.
    pub open spec fn spec_is_handled(self) -> bool {
        self is Handled || self is AlreadyProcessed
    }

    /// The outcome that a handler's answer stands for.
    pub fn from_result(res: &Result<(), HandlerError>) -> (o: HandlerOutcome)
        ensures
            match res {
                Ok(()) => o == HandlerOutcome::Handled,
                Err(HandlerError::ProcessedAlready { .. }) => o == HandlerOutcome::AlreadyProcessed,
                Err(HandlerError::ProcessingMessage { .. }) => o == HandlerOutcome::Failed,
            },
    {
        match res {
            Ok(()) => HandlerOutcome::Handled,
            Err(HandlerError::ProcessedAlready { .. }) => HandlerOutcome::AlreadyProcessed,
            Err(HandlerError::ProcessingMessage { .. }) => HandlerOutcome::Failed,
        }
    }

    /// Whether the outcome leaves the message handled.
    pub fn is_handled(self) -> (res: bool)
        ensures
            res == self.spec_is_handled(),
    {
        match self {
            HandlerOutcome::Handled => true,
            HandlerOutcome::AlreadyProcessed => true,
            HandlerOutcome::Failed => false,
            HandlerOutcome::Aborted => false,
        }
    }
}

/// Whether a message is deleted after its handlers ran: never under
/// `LeaveIt`, always under `DeleteAllCalled`, and under `DeleteAllHandled`
/// exactly when every handler handled it.
pub open spec fn delete_decision(mode: MessageDeleteMode, all_handled: bool) -> bool {
    match mode {
        MessageDeleteMode::LeaveIt => false,
        MessageDeleteMode::DeleteAllCalled => true,
        MessageDeleteMode::DeleteAllHandled => all_handled,
    }
}

/// Whether every outcome in `outcomes` leaves the message handled.
pub open spec fn all_outcomes_handled(outcomes: Seq<HandlerOutcome>) -> bool {
    forall|i: int| 0 <= i < outcomes.len() ==> (#[trigger] outcomes[i]).spec_is_handled()
}

/// The number of handlers that a dispatch starts at once: all of them in
/// parallel mode, the first (if any) in sequential mode.
pub open spec fn initial_start_count(mode: HandlerExecutionMode, handler_count: nat) -> nat {
    match mode {
        HandlerExecutionMode::Parallel => handler_count,
        HandlerExecutionMode::Sequential => if handler_count == 0 {
            0
        } else {
            1
        },
    }
}

/// The progress of one message through its handlers. Handlers are started
/// in order, by index; `started` of them have been started and `finished`
/// of those have reported an outcome.
pub struct MessageDispatch {
    mode: HandlerExecutionMode,
    handler_count: usize,
    started: usize,
    finished: usize,
    all_handled: bool,
    outcomes: Ghost<Seq<HandlerOutcome>>,
}

impl MessageDispatch {
    pub closed spec fn spec_mode(&self) -> HandlerExecutionMode {
        self.mode
    }

    pub closed spec fn spec_handler_count(&self) -> nat {
        self.handler_count as nat
    }

    /// How many handlers have been started (handlers `0..started`).
    pub closed spec fn spec_started(&self) -> nat {
        self.started as nat
    }

    /// How many started handlers have reported.
    pub closed spec fn spec_finished(&self) -> nat {
        self.finished as nat
    }

    /// The outcomes reported so far, in the order they came.
    pub closed spec fn spec_outcomes(&self) -> Seq<HandlerOutcome> {
        self.outcomes@
    }

    /// Whether every outcome so far left the message handled.
    pub closed spec fn spec_all_handled(&self) -> bool {
        self.all_handled
    }

    /// The dispatch's invariant.
    pub closed spec fn wf(&self) -> bool {
        &&& self.finished <= self.started <= self.handler_count
        &&& self.outcomes@.len() == self.finished
        &&& self.all_handled == all_outcomes_handled(self.outcomes@)
        &&& self.mode == HandlerExecutionMode::Parallel ==> self.started == self.handler_count
        &&& self.mode == HandlerExecutionMode::Sequential ==> self.started <= self.finished + 1
            && (self.started == self.finished ==> self.started == self.handler_count)
    }

    /// Starts dispatching a message to `handler_count` handlers. The caller
    /// starts handlers `0..started()` at once.
    pub fn start(mode: HandlerExecutionMode, handler_count: usize) -> (res: Self)
        ensures
            res.wf(),
            res.spec_mode() == mode,
            res.spec_handler_count() == handler_count,
            res.spec_started() == initial_start_count(mode, handler_count as nat),
            res.spec_finished() == 0,
            res.spec_outcomes() == Seq::<HandlerOutcome>::empty(),
            res.spec_all_handled(),
    {
        let started: usize = match mode {
            HandlerExecutionMode::Parallel => handler_count,
            HandlerExecutionMode::Sequential => if handler_count == 0 {
                0
            } else {
                1
            },
        };
        MessageDispatch {
            mode,
            handler_count,
            started,
            finished: 0,
            all_handled: true,
            outcomes: Ghost(Seq::empty()),
        }
    }

    /// How many handlers have been started.
    pub fn started(&self) -> (res: usize)
        ensures
            res == self.spec_started(),
    {
        self.started
    }

    /// Whether no started handler is still running.
    pub fn is_done(&self) -> (res: bool)
        ensures
            res == (self.spec_started() == self.spec_finished()),
    {
        self.started == self.finished
    }

    /// Whether every outcome so far left the message handled.
    pub fn all_handled(&self) -> (res: bool)
        ensures
            res == self.spec_all_handled(),
    {
        self.all_handled
    }

    /// Records the outcome of a running handler. In sequential mode the next
    /// handler, if any is left, starts now: its index is returned.
    pub fn record(&mut self, outcome: HandlerOutcome) -> (next: Option<usize>)
        requires
            old(self).wf(),
            old(self).spec_finished() < old(self).spec_started(),
        ensures
            final(self).wf(),
            final(self).spec_mode() == old(self).spec_mode(),
            final(self).spec_handler_count() == old(self).spec_handler_count(),
            final(self).spec_finished() == old(self).spec_finished() + 1,
            final(self).spec_outcomes() == old(self).spec_outcomes().push(outcome),
            next is Some <==> old(self).spec_mode() == HandlerExecutionMode::Sequential
                && old(self).spec_started() < old(self).spec_handler_count(),
            match next {
                Some(i) => i == old(self).spec_started() && final(self).spec_started()
                    == old(self).spec_started() + 1,
                None => final(self).spec_started() == old(self).spec_started(),
            },
    {
        let handled = outcome.is_handled();
        proof {
            let o = self.outcomes@.push(outcome);
            assert(all_outcomes_handled(o) == (self.all_handled && handled)) by {
                if all_outcomes_handled(o) {
                    assert forall|i: int| 0 <= i < self.outcomes@.len() implies (
                    #[trigger] self.outcomes@[i]).spec_is_handled() by {
                        assert(o[i] == self.outcomes@[i]);
                    }
                    assert(o[o.len() - 1] == outcome);
                }
            }
        }
        self.finished = self.finished + 1;
        self.all_handled = self.all_handled && handled;
        self.outcomes = Ghost(self.outcomes@.push(outcome));
        match self.mode {
            HandlerExecutionMode::Sequential => {
                if self.started < self.handler_count {
                    let i = self.started;
                    self.started = self.started + 1;
                    Some(i)
                } else {
                    None
                }
            },
            HandlerExecutionMode::Parallel => None,
        }
    }

    /// Whether the message is deleted: never while a started handler has
    /// not reported, and then as `delete_decision` says.
    pub fn should_delete(&self, delete_mode: MessageDeleteMode) -> (res: bool)
        ensures
            res == (self.spec_started() == self.spec_finished() && delete_decision(
                delete_mode,
                self.spec_all_handled(),
            )),
    {
        if self.started != self.finished {
            return false;
        }
        match delete_mode {
            MessageDeleteMode::LeaveIt => false,
            MessageDeleteMode::DeleteAllCalled => true,
            MessageDeleteMode::DeleteAllHandled => self.all_handled,
        }
    }
}

/// What every dispatch keeps: it never starts more handlers than there are
/// nor counts more outcomes than it started; a parallel dispatch has started
/// every handler; a sequential one runs at most one handler at a time and,
/// once none runs, has started every handler, so each handler is called
/// exactly once; and the message counts as handled exactly when every
/// outcome so far was a success or a skip.
pub proof fn lemma_dispatch_invariant(d: MessageDispatch)
    requires
        d.wf(),
    ensures
        d.spec_finished() <= d.spec_started() <= d.spec_handler_count(),
        d.spec_outcomes().len() == d.spec_finished(),
        d.spec_mode() == HandlerExecutionMode::Parallel ==> d.spec_started()
            == d.spec_handler_count(),
        d.spec_mode() == HandlerExecutionMode::Sequential ==> d.spec_started() <= d.spec_finished()
            + 1,
        d.spec_started() == d.spec_finished() ==> d.spec_started() == d.spec_handler_count(),
        d.spec_all_handled() == all_outcomes_handled(d.spec_outcomes()),
{
}

/// A message is deleted only after every handler was called and reported:
/// when a valid dispatch decides to delete, all handlers were started and
/// each reported one outcome.
pub proof fn lemma_delete_after_all_handlers(d: MessageDispatch, delete_mode: MessageDeleteMode)
    requires
        d.wf(),
        d.spec_started() == d.spec_finished() && delete_decision(delete_mode, d.spec_all_handled()),
    ensures
        d.spec_started() == d.spec_handler_count(),
        d.spec_outcomes().len() == d.spec_handler_count(),
{
}

/// Under `DeleteAllHandled` a message that some handler failed on is never
/// deleted, and one that every handler handled always is.
pub proof fn lemma_delete_all_handled(outcomes: Seq<HandlerOutcome>)
    ensures
        delete_decision(MessageDeleteMode::DeleteAllHandled, all_outcomes_handled(outcomes)) <==> (
        forall|i: int| 0 <= i < outcomes.len() ==> (#[trigger] outcomes[i]).spec_is_handled()),
{
}

} // verus!
