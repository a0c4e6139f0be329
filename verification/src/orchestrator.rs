//! The polling schedule of a run, as a state machine.
//!
//! A run polls the seed mailboxes on a fixed schedule: eight polls fifteen
//! seconds apart, then sixteen polls thirty seconds apart.  Before each poll
//! it checks whether the run was cancelled (then it stops at once, without
//! finalizing); after each poll it checks whether every seed has been
//! matched (then it finalizes at once).  When the schedule is used up it
//! finalizes.  The caller performs each action and reports what happened.
use vstd::prelude::*;

verus! {

/// How many polls the schedule holds.
pub const POLL_SLOTS: u32 = 24;

/// How many of the polls come fifteen seconds apart; the rest come thirty
/// seconds apart.
pub const FAST_SLOTS: u32 = 8;

/// The pause after the poll in `slot`, in seconds.
pub open spec fn slot_interval(slot: int) -> u64 {
    if slot < FAST_SLOTS {
        15
    } else {
        30
    }
}

/// What the caller is to do next.
#[derive(Debug, Clone, Copy, PartialEq, Eq, Structural)]
pub enum RunAction {
    /// Ask whether the run was cancelled.
    CheckCancelled,
    /// Poll the seed mailboxes once.
    Poll,
    /// Ask whether every seed has been matched.
    CheckAllMatched,
    /// Wait before the next poll.
    Sleep { secs: u64 },
    /// Record the run's outcome.
    Finalize,
    /// Nothing more to do.
    Stop,
}

/// What happened when the caller performed an action.
#[derive(Debug, Clone, Copy, PartialEq, Eq, Structural)]
pub enum RunEvent {
    /// The run was asked whether it was cancelled.
    CancelChecked { cancelled: bool },
    /// The mailboxes were polled (whether or not the poll succeeded).
    Polled,
    /// The run was asked whether every seed has been matched.
    MatchChecked { all_matched: bool },
    /// The wait is over.
    Slept,
    /// The outcome was recorded.
    Finalized,
}

/// Where a run is in its schedule: the poll slot it is in and the action it
/// waits on.
#[derive(Debug, Clone, Copy, PartialEq, Eq, Structural)]
pub struct RunState {
    pub slot: u32,
    pub awaiting: RunAction,
}

/// A state that the machine can be in: within the schedule, and waiting on
/// an action that a step gives.
pub open spec fn state_ok(s: RunState) -> bool {
    &&& s.slot <= POLL_SLOTS
    &&& s.slot == POLL_SLOTS ==> (s.awaiting == RunAction::Finalize || s.awaiting
        == RunAction::Stop)
    &&& s.awaiting matches RunAction::Sleep { secs } ==> secs == slot_interval(s.slot as int)
}

/// The next state of the machine on an event.  An event that does not
/// answer the awaited action leaves the state as it is.
pub open spec fn next_state(s: RunState, e: RunEvent) -> RunState {
    match (s.awaiting, e) {
        (RunAction::CheckCancelled, RunEvent::CancelChecked { cancelled }) => if cancelled {
            RunState { slot: s.slot, awaiting: RunAction::Stop }
        } else {
            RunState { slot: s.slot, awaiting: RunAction::Poll }
        },
        (RunAction::Poll, RunEvent::Polled) => RunState {
            slot: s.slot,
            awaiting: RunAction::CheckAllMatched,
        },
        (RunAction::CheckAllMatched, RunEvent::MatchChecked { all_matched }) => if all_matched {
            RunState { slot: s.slot, awaiting: RunAction::Finalize }
        } else {
            RunState {
                slot: s.slot,
                awaiting: RunAction::Sleep { secs: slot_interval(s.slot as int) },
            }
        },
        (RunAction::Sleep { .. }, RunEvent::Slept) => if s.slot + 1 < POLL_SLOTS {
            RunState { slot: (s.slot + 1) as u32, awaiting: RunAction::CheckCancelled }
        } else {
            RunState { slot: POLL_SLOTS, awaiting: RunAction::Finalize }
        },
        (RunAction::Finalize, RunEvent::Finalized) => RunState {
            slot: s.slot,
            awaiting: RunAction::Stop,
        },
        _ => s,
    }
}

/// The state a run starts in: first slot, checking for cancellation.
pub open spec fn initial_state() -> RunState {
    RunState { slot: 0, awaiting: RunAction::CheckCancelled }
}

/// How many more polls a state can still ask for.
pub open spec fn polls_left(s: RunState) -> int {
    match s.awaiting {
        RunAction::CheckCancelled => POLL_SLOTS - s.slot,
        RunAction::Poll | RunAction::CheckAllMatched | RunAction::Sleep { .. } => POLL_SLOTS
            - s.slot - 1,
        RunAction::Finalize | RunAction::Stop => 0,
    }
}

/// How many polls a run asks for on a sequence of events: the steps that
/// move it to waiting on a poll.
pub open spec fn polls_asked(s: RunState, events: Seq<RunEvent>) -> nat
    decreases events.len(),
{
    if events.len() == 0 {
        0
    } else {
        let n = next_state(s, events[0]);
        (if n.awaiting == RunAction::Poll && s.awaiting != RunAction::Poll {
            1nat
        } else {
            0nat
        }) + polls_asked(n, events.drop_first())
    }
}

/// A step keeps the machine in a valid state, spends at most one poll, and
/// never gives back a spent one.
pub proof fn lemma_step(s: RunState, e: RunEvent)
    requires
        state_ok(s),
    ensures
        state_ok(next_state(s, e)),
        polls_left(next_state(s, e)) + (if next_state(s, e).awaiting == RunAction::Poll
            && s.awaiting != RunAction::Poll {
            1int
        } else {
            0int
        }) <= polls_left(s),
        polls_left(s) >= 0,
{
}

/// Whatever the events, a run asks for at most as many polls as the
/// schedule holds.
pub proof fn lemma_poll_bound(events: Seq<RunEvent>)
    ensures
        polls_asked(initial_state(), events) <= POLL_SLOTS,
{
    lemma_poll_bound_from(initial_state(), events);
}

/// The poll bound from any valid state.
pub proof fn lemma_poll_bound_from(s: RunState, events: Seq<RunEvent>)
    requires
        state_ok(s),
    ensures
        polls_asked(s, events) <= polls_left(s),
    decreases events.len(),
{
    if events.len() > 0 {
        lemma_step(s, events[0]);
        lemma_poll_bound_from(next_state(s, events[0]), events.drop_first());
    }
}

/// The seconds of pause that the schedule holds from `slot` on.
pub open spec fn wait_budget(slot: int) -> int {
    if slot < FAST_SLOTS {
        (FAST_SLOTS - slot) * 15 + (POLL_SLOTS - FAST_SLOTS) * 30
    } else if slot < POLL_SLOTS {
        (POLL_SLOTS - slot) * 30
    } else {
        0
    }
}

/// How many seconds of pause a state can still ask for.
pub open spec fn wait_left(s: RunState) -> int {
    match s.awaiting {
        RunAction::CheckCancelled | RunAction::Poll | RunAction::CheckAllMatched => wait_budget(
            s.slot as int,
        ),
        RunAction::Sleep { .. } => wait_budget(s.slot + 1),
        RunAction::Finalize | RunAction::Stop => 0,
    }
}

/// The seconds of pause a run asks for on a sequence of events: the pauses
/// of the steps that move it to waiting on a pause.
pub open spec fn wait_asked(s: RunState, events: Seq<RunEvent>) -> int
    decreases events.len(),
{
    if events.len() == 0 {
        0
    } else {
        let n = next_state(s, events[0]);
        (match n.awaiting {
            RunAction::Sleep { secs } => if s.awaiting is Sleep {
                0int
            } else {
                secs as int
            },
            _ => 0int,
        }) + wait_asked(n, events.drop_first())
    }
}

/// The pause bound from any valid state.
pub proof fn lemma_wait_bound_from(s: RunState, events: Seq<RunEvent>)
    requires
        state_ok(s),
    ensures
        wait_asked(s, events) <= wait_left(s),
    decreases events.len(),
{
    if events.len() > 0 {
        let n = next_state(s, events[0]);
        lemma_step(s, events[0]);
        lemma_wait_bound_from(n, events.drop_first());
    }
}

/// The start of a run: first slot, and the first action to perform.
pub fn start_run() -> (r: (RunState, RunAction))
    ensures
        r.0 == initial_state(),
        r.1 == r.0.awaiting,
        state_ok(r.0),
{
    let s = RunState { slot: 0, awaiting: RunAction::CheckCancelled };
    (s, RunAction::CheckCancelled)
}

/// The pause after the poll in `slot`, in seconds.
pub fn interval_after(slot: u32) -> (secs: u64)
    ensures
        secs == slot_interval(slot as int),
{
    if slot < FAST_SLOTS {
        15
    } else {
        30
    }
}

/// The next state of a run on an event, and the action to perform next.
pub fn step(s: RunState, e: RunEvent) -> (r: (RunState, RunAction))
    requires
        state_ok(s),
    ensures
        r.0 == next_state(s, e),
        r.1 == r.0.awaiting,
        state_ok(r.0),
{
    let n = match (s.awaiting, e) {
        (RunAction::CheckCancelled, RunEvent::CancelChecked { cancelled }) => if cancelled {
            RunState { slot: s.slot, awaiting: RunAction::Stop }
        } else {
            RunState { slot: s.slot, awaiting: RunAction::Poll }
        },
        (RunAction::Poll, RunEvent::Polled) => RunState {
            slot: s.slot,
            awaiting: RunAction::CheckAllMatched,
        },
        (RunAction::CheckAllMatched, RunEvent::MatchChecked { all_matched }) => if all_matched {
            RunState { slot: s.slot, awaiting: RunAction::Finalize }
        } else {
            RunState { slot: s.slot, awaiting: RunAction::Sleep { secs: interval_after(s.slot) } }
        },
        (RunAction::Sleep { .. }, RunEvent::Slept) => if s.slot + 1 < POLL_SLOTS {
            RunState { slot: s.slot + 1, awaiting: RunAction::CheckCancelled }
        } else {
            RunState { slot: POLL_SLOTS, awaiting: RunAction::Finalize }
        },
        (RunAction::Finalize, RunEvent::Finalized) => RunState {
            slot: s.slot,
            awaiting: RunAction::Stop,
        },
        _ => s,
    };
    (n, n.awaiting)
}

/// Runs a run's schedule against a backend that does the outside work.
pub struct RunOrchestrator<B> {
    backend: B,
}

impl<B> RunOrchestrator<B> {
    /// An orchestrator that works through `backend`.
    pub fn new(backend: B) -> (r: Self)
        ensures
            r.backend() == backend,
    {
        RunOrchestrator { backend }
    }

    /// The backend this orchestrator works through.
    pub closed spec fn backend(&self) -> B {
        self.backend
    }

    /// The backend this orchestrator works through.
    pub fn backend_ref(&self) -> (r: &B)
        ensures
            *r == self.backend(),
    {
        &self.backend
    }
}

} // verus!
