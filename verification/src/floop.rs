//! The lock that lets at most one refill callback run at a time.
//!
//! The lock is taken when a callback is scheduled and given back when that
//! callback has finished, on whatever thread it ran. Whoever schedules the
//! work owns the hand-over: a `Scheduled` answer obliges them to report the
//! end of the callback with `finish_callback`.

use vstd::prelude::*;

verus! {

/// Whether a callback is in flight.
#[derive(Clone, Copy, Debug, PartialEq, Eq, Structural)]
pub enum LoopState {
    /// No callback is in flight; one may be scheduled.
    Idle,
    /// A callback has been scheduled and has not finished.
    Busy,
}

/// The answer to a request to run a callback.
#[derive(Clone, Copy, Debug, PartialEq, Eq, Structural)]
pub enum Invoke {
    /// The lock was free and is now held for the caller's callback.
    Scheduled,
    /// Another callback is in flight; nothing was done.
    Busy,
}

/// What can happen to the lock.
#[derive(Clone, Copy, Debug, PartialEq, Eq, Structural)]
pub enum LoopEvent {
    /// A caller asks to run a callback.
    Request,
    /// The callback in flight has finished.
    Complete,
    /// The stream is torn down and the callback in flight is abandoned.
    Cancel,
}

impl LoopState {
    /// The state the lock is in after `event`.
    pub open spec fn after(self, event: LoopEvent) -> LoopState {
        match event {
            LoopEvent::Request => LoopState::Busy,
            LoopEvent::Complete => LoopState::Idle,
            LoopEvent::Cancel => LoopState::Idle,
        }
    }

    /// Whether `event` starts a callback: a request that finds the lock free.
    pub open spec fn starts(self, event: LoopEvent) -> bool {
        self == LoopState::Idle && event == LoopEvent::Request
    }

    /// Whether `event` ends a callback: a completion or a cancellation while
    /// one is in flight.
    pub open spec fn ends(self, event: LoopEvent) -> bool {
        self == LoopState::Busy && event != LoopEvent::Request
    }
}

/// The state of a lock that started idle and saw `events` in order.
pub open spec fn state_after(events: Seq<LoopEvent>) -> LoopState
    decreases events.len(),
{
    if events.len() == 0 {
        LoopState::Idle
    } else {
        state_after(events.drop_last()).after(events.last())
    }
}

/// The number of callbacks started over `events`.
pub open spec fn started(events: Seq<LoopEvent>) -> nat
    decreases events.len(),
{
    if events.len() == 0 {
        0
    } else {
        let before = events.drop_last();
        if state_after(before).starts(events.last()) {
            started(before) + 1
        } else {
            started(before)
        }
    }
}

/// The number of callbacks ended over `events`.
pub open spec fn ended(events: Seq<LoopEvent>) -> nat
    decreases events.len(),
{
    if events.len() == 0 {
        0
    } else {
        let before = events.drop_last();
        if state_after(before).ends(events.last()) {
            ended(before) + 1
        } else {
            ended(before)
        }
    }
}

/// The lock itself. Its view is its state.
pub struct FastLoop {
    state: LoopState,
}

impl View for FastLoop {
    type V = LoopState;

    closed spec fn view(&self) -> LoopState {
        self.state
    }
}

impl FastLoop {
    /// A lock with no callback in flight.
    pub fn new() -> (floop: Self)
        ensures
            floop@ == LoopState::Idle,
    {
        FastLoop { state: LoopState::Idle }
    }

    /// Whether a callback is in flight.
    pub fn is_busy(&self) -> (busy: bool)
        ensures
            busy == (self@ == LoopState::Busy),
    {
        match self.state {
            LoopState::Idle => false,
            LoopState::Busy => true,
        }
    }

    /// Asks to run a callback, without waiting. Where the lock is free it is
    /// taken and the answer is `Scheduled`; where a callback is in flight
    /// nothing changes and the answer is `Busy`.
    pub fn run_callback(&mut self) -> (answer: Invoke)
        ensures
            final(self)@ == old(self)@.after(LoopEvent::Request),
            answer == if old(self)@.starts(LoopEvent::Request) {
                Invoke::Scheduled
            } else {
                Invoke::Busy
            },
    {
        match self.state {
            LoopState::Idle => {
                self.state = LoopState::Busy;
                Invoke::Scheduled
            },
            LoopState::Busy => Invoke::Busy,
        }
    }

    /// Gives the lock back when the callback in flight has finished, however
    /// it ended.
    pub fn finish_callback(&mut self)
        ensures
            final(self)@ == old(self)@.after(LoopEvent::Complete),
    {
        self.state = LoopState::Idle;
    }

    /// Abandons the callback in flight, if any, and frees the lock. For
    /// teardown only: nobody is told that the callback did not complete.
    pub fn cancel(&mut self)
        ensures
            final(self)@ == old(self)@.after(LoopEvent::Cancel),
    {
        self.state = LoopState::Idle;
    }
}

/// However requests, completions and cancellations interleave, the callbacks
/// started and not yet ended number one while the lock is busy and none while
/// it is idle: never more than one callback runs.
pub proof fn lemma_at_most_one_callback_runs(events: Seq<LoopEvent>)
    ensures
        started(events) - ended(events) == if state_after(events) == LoopState::Busy {
            1int
        } else {
            0int
        },
        0 <= started(events) - ended(events) <= 1,
    decreases events.len(),
{
    if events.len() > 0 {
        lemma_at_most_one_callback_runs(events.drop_last());
    }
}

/// Of any number of requests that arrive with no completion between them,
/// exactly one starts a callback; every other one is answered `Busy`. A lock
/// that is already busy starts none.
pub proof fn lemma_one_request_wins(before: Seq<LoopEvent>, requests: Seq<LoopEvent>)
    requires
        forall|i: int| 0 <= i < requests.len() ==> requests[i] == LoopEvent::Request,
    ensures
        started(before + requests) - started(before) == if requests.len() > 0 && state_after(before)
            == LoopState::Idle {
            1int
        } else {
            0int
        },
        requests.len() > 0 ==> state_after(before + requests) == LoopState::Busy,
    decreases requests.len(),
{
    if requests.len() > 0 {
        let earlier = requests.drop_last();
        lemma_one_request_wins(before, earlier);
        assert((before + requests).drop_last() == before + earlier);
    }
}

} // verus!
