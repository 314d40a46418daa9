//! The unit of schedulability: a thread with its execution state and timing
//! bookkeeping, and a process as a fixed, ordered collection of threads.

use vstd::prelude::*;

verus! {

/// Execution state of a thread.
///
/// `Sleeping(d)` means the thread is blocked until `d` ticks have elapsed
/// since its reference tick (see [`ref_tick`]).
#[derive(Clone, Copy, Debug, PartialEq, Eq, Structural)]
pub enum State {
    /// Ready to execute now.
    Running,
    /// Created but never dispatched.
    NotStarted,
    /// Blocked until the given number of ticks has elapsed.
    Sleeping(u64),
}

/// A schedulable thread. The `id` is an opaque handle, stable for the
/// thread's lifetime; the execution context (registers, stack) is owned by
/// the dispatcher and is not part of this core.
#[derive(Clone, Copy, Debug, PartialEq, Eq, Structural)]
pub struct Thread {
    /// Stable opaque handle.
    pub id: u64,
    /// Current execution state.
    pub state: State,
    /// Tick value at creation; immutable after creation.
    pub start_tick: u64,
    /// Tick value at which the thread last transitioned into `Sleeping` or
    /// last became runnable; `0` is a sentinel for "never updated".
    pub last_tick: u64,
}

/// A named, fixed collection of threads, registered with the scheduler in
/// one step.
#[derive(Clone, Debug)]
pub struct Process {
    /// Stable opaque handle.
    pub id: u64,
    /// The threads owned by this process, in registration order.
    pub threads: Vec<Thread>,
}

/// Mathematical model of a process: its handle and its thread list.
pub ghost struct ProcessModel {
    pub id: u64,
    pub threads: Seq<Thread>,
}

impl View for Process {
    type V = ProcessModel;

    open spec fn view(&self) -> ProcessModel {
        ProcessModel { id: self.id, threads: self.threads@ }
    }
}

/// The reference point for wake evaluation: `last_tick` if it was ever set,
/// else `start_tick` ("first sleep measured from creation, subsequent sleeps
/// measured from when sleeping began").
pub open spec fn ref_tick(t: Thread) -> u64 {
    if t.last_tick == 0 {
        t.start_tick
    } else {
        t.last_tick
    }
}

/// The wake condition: a sleeping thread is due once the elapsed ticks since
/// its reference point reach or exceed its sleep duration.
pub open spec fn is_due(t: Thread, now: u64) -> bool {
    t.state matches State::Sleeping(d) && now >= ref_tick(t) + d
}

/// Whether a submitted thread is classified as eligible to run now:
/// either it is `Running`, or it is `Sleeping` and due to wake.
pub open spec fn goes_ready(t: Thread, now: u64) -> bool {
    t.state is Running || is_due(t, now)
}

/// The thread as stored after classification: a due sleeper is promoted to
/// `Running` (the stored state is mutated, not a local copy) and its
/// `last_tick` records when it became runnable; any other thread is stored
/// unchanged.
pub open spec fn after_submit(t: Thread, now: u64) -> Thread {
    if is_due(t, now) {
        Thread { state: State::Running, last_tick: now, ..t }
    } else {
        t
    }
}

impl Thread {
    /// Creates a thread in state `NotStarted` at the given creation tick.
    pub fn new(id: u64, start_tick: u64) -> (t: Thread)
        ensures
            t == (Thread { id, state: State::NotStarted, start_tick, last_tick: 0 }),
    {
        Thread { id, state: State::NotStarted, start_tick, last_tick: 0 }
    }

    /// Evaluates the wake condition against the given tick, without
    /// overflowing: `now >= ref + d` rather than `now - ref >= d`.
    pub fn due(&self, now: u64) -> (r: bool)
        ensures
            r == is_due(*self, now),
    {
        match self.state {
            State::Sleeping(d) => {
                let rt: u64 = if self.last_tick == 0 { self.start_tick } else { self.last_tick };
                now >= rt && now - rt >= d
            },
            _ => false,
        }
    }
}

} // verus!
