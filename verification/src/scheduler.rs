//! The scheduler: three queues (ready, blocked, registered processes),
//! FIFO selection of the next thread to run, and classification of submitted
//! threads by their state, with tick-based wake evaluation for sleepers.
//!
//! The scheduler is an explicitly constructed instance owned by the kernel's
//! boot sequence; it never blocks, and all mutation happens synchronously
//! from whichever execution context calls into it. If an interrupt handler
//! is ever allowed to call in, the caller must hold the same
//! interrupts-disabled or spin-lock discipline as for any state shared with
//! an interrupt handler.

use vstd::prelude::*;

use crate::thread::{after_submit, goes_ready, Process, ProcessModel, State, Thread};

verus! {

/// Mathematical model of the scheduler: the two thread queues in order and
/// the registered processes in registration order.
#[verifier::ext_equal]
pub ghost struct SchedulerModel {
    pub ready: Seq<Thread>,
    pub blocked: Seq<Thread>,
    pub registry: Seq<ProcessModel>,
}

/// Whether a queue holds a thread with the given handle.
pub open spec fn contains_id(q: Seq<Thread>, id: u64) -> bool {
    exists|i: int| 0 <= i < q.len() && q[i].id == id
}

impl SchedulerModel {
    /// Whether the scheduler holds a thread with this handle in either queue.
    pub open spec fn knows(self, id: u64) -> bool {
        contains_id(self.ready, id) || contains_id(self.blocked, id)
    }

    /// Well-formedness. The first three clauses are the ownership invariant:
    /// no thread handle appears twice within a queue or in both queues at
    /// once (the thread currently on-core is in neither). The last two tie
    /// the queues to the states: every ready thread is `Running`, and no
    /// blocked thread is.
    pub open spec fn wf(self) -> bool {
        &&& forall|i: int, j: int|
            0 <= i < j < self.ready.len() ==> #[trigger] self.ready[i].id != #[trigger] self.ready[j].id
        &&& forall|i: int, j: int|
            0 <= i < j < self.blocked.len() ==> #[trigger] self.blocked[i].id != #[trigger] self.blocked[j].id
        &&& forall|i: int, j: int|
            0 <= i < self.ready.len() && 0 <= j < self.blocked.len()
                ==> #[trigger] self.ready[i].id != #[trigger] self.blocked[j].id
        &&& forall|i: int| 0 <= i < self.ready.len() ==> (#[trigger] self.ready[i].state) is Running
        &&& forall|i: int| 0 <= i < self.blocked.len() ==> !((#[trigger] self.blocked[i].state) is Running)
    }
}

/// Where one classified thread ended up: in the ready queue and not the
/// blocked queue if it was eligible to run, the other way around if not.
pub open spec fn placed(m: SchedulerModel, t: Thread, now: u64) -> bool {
    if goes_ready(t, now) {
        contains_id(m.ready, t.id) && !contains_id(m.blocked, t.id)
    } else {
        contains_id(m.blocked, t.id) && !contains_id(m.ready, t.id)
    }
}

/// One classification step: a thread eligible to run now (submitted
/// `Running`, or `Sleeping` and due to wake, in which case its stored state
/// is promoted) is appended to the ready queue; any other thread is appended
/// to the blocked queue.
pub open spec fn submit_model(m: SchedulerModel, t: Thread, now: u64) -> SchedulerModel {
    if goes_ready(t, now) {
        SchedulerModel { ready: m.ready.push(after_submit(t, now)), ..m }
    } else {
        SchedulerModel { blocked: m.blocked.push(t), ..m }
    }
}

/// Classification of a whole thread list, in order.
pub open spec fn submit_all(m: SchedulerModel, ts: Seq<Thread>, now: u64) -> SchedulerModel
    decreases ts.len(),
{
    if ts.len() == 0 {
        m
    } else {
        submit_model(submit_all(m, ts.drop_last(), now), ts.last(), now)
    }
}

/// Registration of a process: every thread it owns is classified in order,
/// then the process handle is recorded in the registry.
pub open spec fn register_model(m: SchedulerModel, p: ProcessModel, now: u64) -> SchedulerModel {
    let m1 = submit_all(m, p.threads, now);
    SchedulerModel { registry: m1.registry.push(p), ..m1 }
}

/// FIFO selection: the front of the ready queue leaves the scheduler
/// entirely; an empty ready queue selects nothing and changes nothing.
pub open spec fn schedule_model(m: SchedulerModel) -> (Option<Thread>, SchedulerModel) {
    if m.ready.len() == 0 {
        (None::<Thread>, m)
    } else {
        (
            Some(m.ready[0]),
            SchedulerModel { ready: m.ready.subrange(1, m.ready.len() as int), ..m },
        )
    }
}

/// The scheduler instance. Owned by the kernel's boot sequence for the life
/// of the kernel and handed by reference to the run loop.
pub struct Scheduler {
    /// Threads eligible to run now, in FIFO order.
    ready_queue: Vec<Thread>,
    /// Threads not currently eligible (`NotStarted`, or `Sleeping` and not
    /// yet due at their last classification).
    blocked_queue: Vec<Thread>,
    /// Registered processes, for administrative bookkeeping only; never
    /// consulted by scheduling decisions.
    registry: Vec<Process>,
}

impl View for Scheduler {
    type V = SchedulerModel;

    closed spec fn view(&self) -> SchedulerModel {
        SchedulerModel {
            ready: self.ready_queue@,
            blocked: self.blocked_queue@,
            registry: self.registry@.map_values(|p: Process| p@),
        }
    }
}

impl Scheduler {
    /// An empty scheduler: no thread in either queue, no process registered.
    pub fn new() -> (s: Scheduler)
        ensures
            s@.ready.len() == 0,
            s@.blocked.len() == 0,
            s@.registry.len() == 0,
            s@.wf(),
    {
        Scheduler { ready_queue: Vec::new(), blocked_queue: Vec::new(), registry: Vec::new() }
    }

    /// Submits a thread for scheduling, classifying it by its current state:
    /// `Running` threads join the ready queue, `NotStarted` threads the
    /// blocked queue, and `Sleeping` threads have their wake condition
    /// evaluated against `now` — a due sleeper is promoted to `Running` (the
    /// stored state, not a local copy) and joins the ready queue, any other
    /// stays blocked. Every thread returned by [`Scheduler::schedule`] must
    /// be resubmitted here once it stops running, with its state already
    /// updated, or it permanently disappears from scheduling. `now` is the
    /// current tick, queried from the tick source once per classification
    /// call, never cached across calls.
    pub fn add_thread(&mut self, thread: Thread, now: u64)
        requires
            old(self)@.wf(),
            !old(self)@.knows(thread.id),
        ensures
            final(self)@ == submit_model(old(self)@, thread, now),
            final(self)@.wf(),
            goes_ready(thread, now) ==> contains_id(final(self)@.ready, thread.id)
                && !contains_id(final(self)@.blocked, thread.id),
            !goes_ready(thread, now) ==> contains_id(final(self)@.blocked, thread.id)
                && !contains_id(final(self)@.ready, thread.id),
            final(self)@.registry == old(self)@.registry,
    {
        let due = thread.due(now);
        match thread.state {
            State::Running => self.ready_queue.push(thread),
            State::NotStarted => self.blocked_queue.push(thread),
            State::Sleeping(_) => {
                if due {
                    let woken = Thread { state: State::Running, last_tick: now, ..thread };
                    self.ready_queue.push(woken);
                } else {
                    self.blocked_queue.push(thread);
                }
            },
        }
        proof {
            assert(self@ =~= submit_model(old(self)@, thread, now));
            lemma_submit_preserves_wf(old(self)@, thread, now);
            if goes_ready(thread, now) {
                assert(self@.ready[self@.ready.len() - 1].id == thread.id);
            } else {
                assert(self@.blocked[self@.blocked.len() - 1].id == thread.id);
            }
        }
    }

    /// Selects the next thread to run: the front of the FIFO ready queue,
    /// removed from scheduler ownership entirely, or `None` when nothing is
    /// runnable — not an error; the caller must idle or halt rather than
    /// spin, since nothing changes until an interrupt does.
    pub fn schedule(&mut self) -> (r: Option<Thread>)
        requires
            old(self)@.wf(),
        ensures
            r == schedule_model(old(self)@).0,
            final(self)@ == schedule_model(old(self)@).1,
            final(self)@.wf(),
            old(self)@.ready.len() == 0 ==> r is None && final(self)@ == old(self)@,
            old(self)@.ready.len() > 0 ==> r == Some(old(self)@.ready[0]),
            r matches Some(t) ==> t.state is Running && !final(self)@.knows(t.id),
            final(self)@.blocked == old(self)@.blocked,
            final(self)@.registry == old(self)@.registry,
    {
        if self.ready_queue.len() == 0 {
            None
        } else {
            let t = self.ready_queue.remove(0);
            proof {
                assert(self@.ready =~= old(self)@.ready.subrange(1, old(self)@.ready.len() as int));
                assert(self@ =~= schedule_model(old(self)@).1);
                assert forall|j: int| 0 <= j < self@.ready.len() implies self@.ready[j].id != t.id by {
                    assert(self@.ready[j] == old(self)@.ready[j + 1]);
                }
                assert forall|j: int| 0 <= j < self@.blocked.len() implies self@.blocked[j].id
                    != t.id by {
                    assert(old(self)@.ready[0].id != old(self)@.blocked[j].id);
                }
            }
            Some(t)
        }
    }

    /// Registers a process: submits every thread it owns via the same
    /// classification as [`Scheduler::add_thread`], in list order, then
    /// records the process in the registry. Returns the process handle, so
    /// the caller can inspect the registration later.
    pub fn add_process(&mut self, process: Process, now: u64) -> (pid: u64)
        requires
            old(self)@.wf(),
            forall|i: int, j: int|
                0 <= i < j < process@.threads.len()
                    ==> #[trigger] process@.threads[i].id != #[trigger] process@.threads[j].id,
            forall|i: int|
                0 <= i < process@.threads.len() ==> !old(self)@.knows(#[trigger] process@.threads[i].id),
        ensures
            final(self)@ == register_model(old(self)@, process@, now),
            final(self)@.wf(),
            pid == process.id,
            final(self)@.registry == old(self)@.registry.push(process@),
            forall|i: int|
                0 <= i < process@.threads.len() ==> placed(final(self)@, #[trigger] process@.threads[i], now),
    {
        let pid: u64 = process.id;
        let ghost threads = process@.threads;
        let mut i: usize = 0;
        while i < process.threads.len()
            invariant
                i <= process.threads.len(),
                process@.threads == threads,
                self@ == submit_all(old(self)@, threads.subrange(0, i as int), now),
                self@.wf(),
                self@.registry == old(self)@.registry,
                forall|j: int, k: int|
                    0 <= j < k < threads.len() ==> #[trigger] threads[j].id != #[trigger] threads[k].id,
                forall|j: int| i <= j < threads.len() ==> !self@.knows(#[trigger] threads[j].id),
                forall|j: int| 0 <= j < i ==> placed(self@, #[trigger] threads[j], now),
            decreases process.threads.len() - i,
        {
            let ghost pre = self@;
            let t = process.threads[i];
            self.add_thread(t, now);
            proof {
                assert(threads.subrange(0, i as int).push(t) =~= threads.subrange(0, i + 1));
                assert(threads.subrange(0, i + 1).drop_last() =~= threads.subrange(0, i as int));
                assert forall|j: int| i + 1 <= j < threads.len() implies !self@.knows(
                    #[trigger] threads[j].id,
                ) by {
                    lemma_submit_knows(pre, t, now, threads[j].id);
                }
                assert forall|j: int| 0 <= j < i + 1 implies placed(self@, #[trigger] threads[j], now) by {
                    if j < i {
                        if goes_ready(t, now) {
                            lemma_contains_push(pre.ready, after_submit(t, now), threads[j].id);
                        } else {
                            lemma_contains_push(pre.blocked, t, threads[j].id);
                        }
                    }
                }
            }
            i = i + 1;
        }
        proof {
            assert(threads.subrange(0, threads.len() as int) =~= threads);
        }
        self.registry.push(process);
        proof {
            assert(self@ =~= register_model(old(self)@, process@, now));
        }
        pid
    }

    /// Number of threads in the ready queue.
    pub fn ready_len(&self) -> (n: usize)
        ensures
            n == self@.ready.len(),
    {
        self.ready_queue.len()
    }

    /// Number of threads in the blocked queue.
    pub fn blocked_len(&self) -> (n: usize)
        ensures
            n == self@.blocked.len(),
    {
        self.blocked_queue.len()
    }

    /// Whether the ready queue holds a thread with this handle.
    pub fn ready_contains(&self, id: u64) -> (r: bool)
        ensures
            r == contains_id(self@.ready, id),
    {
        let mut i: usize = 0;
        while i < self.ready_queue.len()
            invariant
                i <= self@.ready.len(),
                forall|j: int| 0 <= j < i ==> (#[trigger] self@.ready[j]).id != id,
            decreases self@.ready.len() - i,
        {
            if self.ready_queue[i].id == id {
                return true;
            }
            i = i + 1;
        }
        false
    }

    /// Whether the blocked queue holds a thread with this handle.
    pub fn blocked_contains(&self, id: u64) -> (r: bool)
        ensures
            r == contains_id(self@.blocked, id),
    {
        let mut i: usize = 0;
        while i < self.blocked_queue.len()
            invariant
                i <= self@.blocked.len(),
                forall|j: int| 0 <= j < i ==> (#[trigger] self@.blocked[j]).id != id,
            decreases self@.blocked.len() - i,
        {
            if self.blocked_queue[i].id == id {
                return true;
            }
            i = i + 1;
        }
        false
    }

    /// Whether a process with this handle is in the registry.
    pub fn has_process(&self, pid: u64) -> (r: bool)
        ensures
            r == exists|i: int| 0 <= i < self@.registry.len() && (#[trigger] self@.registry[i]).id == pid,
    {
        let mut i: usize = 0;
        while i < self.registry.len()
            invariant
                i <= self@.registry.len(),
                forall|j: int| 0 <= j < i ==> (#[trigger] self@.registry[j]).id != pid,
            decreases self@.registry.len() - i,
        {
            if self.registry[i].id == pid {
                proof {
                    assert(self@.registry[i as int].id == pid);
                }
                return true;
            }
            i = i + 1;
        }
        false
    }
}

/// Registers a process with the scheduler the kernel owns; every contained
/// thread is submitted in the same step — a process cannot exist registered
/// and be enqueued piecemeal later.
pub fn add_process(scheduler: &mut Scheduler, process: Process, now: u64) -> (pid: u64)
    requires
        old(scheduler)@.wf(),
        forall|i: int, j: int|
            0 <= i < j < process@.threads.len()
                ==> #[trigger] process@.threads[i].id != #[trigger] process@.threads[j].id,
        forall|i: int|
            0 <= i < process@.threads.len() ==> !old(scheduler)@.knows(#[trigger] process@.threads[i].id),
    ensures
        final(scheduler)@ == register_model(old(scheduler)@, process@, now),
        final(scheduler)@.wf(),
        pid == process.id,
{
    scheduler.add_process(process, now)
}

/// One step of the kernel's run loop: removes and returns the thread the
/// dispatcher must context-switch into next, or `None` when no thread at all
/// is runnable and the caller must fall back to idle/halt. The caller
/// resubmits the thread via [`Scheduler::add_thread`] when it stops running.
pub fn run_processes(scheduler: &mut Scheduler) -> (r: Option<Thread>)
    requires
        old(scheduler)@.wf(),
    ensures
        r == schedule_model(old(scheduler)@).0,
        final(scheduler)@ == schedule_model(old(scheduler)@).1,
        final(scheduler)@.wf(),
{
    scheduler.schedule()
}

/// Ownership invariant, preserved by one classification step: starting from
/// a well-formed scheduler that does not already hold the submitted thread's
/// handle, no handle ends up in both the ready and the blocked queue, nor
/// twice in either, and the queues still match the thread states.
pub proof fn lemma_submit_preserves_wf(m: SchedulerModel, t: Thread, now: u64)
    requires
        m.wf(),
        !m.knows(t.id),
    ensures
        submit_model(m, t, now).wf(),
{
    assert forall|i: int| 0 <= i < m.ready.len() implies m.ready[i].id != t.id by {
        assert(contains_id(m.ready, t.id) ==> m.knows(t.id));
    }
    assert forall|i: int| 0 <= i < m.blocked.len() implies m.blocked[i].id != t.id by {
        assert(contains_id(m.blocked, t.id) ==> m.knows(t.id));
    }
}

/// Ownership invariant under any sequence of submissions: classifying any
/// list of mutually distinct, previously unknown threads, at any tick,
/// preserves well-formedness — no thread handle ever appears in both the
/// ready and the blocked queue, nor twice in either.
pub proof fn lemma_submit_all_preserves_wf(m: SchedulerModel, ts: Seq<Thread>, now: u64)
    requires
        m.wf(),
        forall|i: int, j: int| 0 <= i < j < ts.len() ==> #[trigger] ts[i].id != #[trigger] ts[j].id,
        forall|i: int| 0 <= i < ts.len() ==> !m.knows(#[trigger] ts[i].id),
    ensures
        submit_all(m, ts, now).wf(),
    decreases ts.len(),
{
    if ts.len() > 0 {
        let prefix = ts.drop_last();
        lemma_submit_all_preserves_wf(m, prefix, now);
        lemma_submit_all_knows(m, prefix, now, ts.last().id);
        lemma_submit_preserves_wf(submit_all(m, prefix, now), ts.last(), now);
    }
}

/// Appending a thread to a queue makes the queue hold exactly the handles it
/// held before, plus the appended thread's.
pub proof fn lemma_contains_push(q: Seq<Thread>, t: Thread, id: u64)
    ensures
        contains_id(q.push(t), id) <==> (contains_id(q, id) || t.id == id),
{
    let q1 = q.push(t);
    assert(q1[q1.len() - 1].id == t.id);
    if contains_id(q, id) {
        let i = choose|i: int| 0 <= i < q.len() && q[i].id == id;
        assert(q1[i].id == id);
    }
    if contains_id(q1, id) && !(contains_id(q, id) || t.id == id) {
        let i = choose|i: int| 0 <= i < q1.len() && q1[i].id == id;
        assert(q[i].id == id);
    }
}

/// A classification step adds exactly one handle to the scheduler's
/// knowledge: the submitted thread's.
pub proof fn lemma_submit_knows(m: SchedulerModel, t: Thread, now: u64, id: u64)
    ensures
        submit_model(m, t, now).knows(id) <==> (m.knows(id) || id == t.id),
{
    if goes_ready(t, now) {
        lemma_contains_push(m.ready, after_submit(t, now), id);
    } else {
        lemma_contains_push(m.blocked, t, id);
    }
}

/// How many handles a list of submissions adds: exactly those of the list.
pub proof fn lemma_submit_all_knows(m: SchedulerModel, ts: Seq<Thread>, now: u64, id: u64)
    ensures
        submit_all(m, ts, now).knows(id) <==> (m.knows(id) || contains_id(ts, id)),
    decreases ts.len(),
{
    if ts.len() == 0 {
        assert(!contains_id(ts, id));
    } else {
        let prefix = ts.drop_last();
        lemma_submit_all_knows(m, prefix, now, id);
        lemma_submit_knows(submit_all(m, prefix, now), ts.last(), now, id);
        if contains_id(ts, id) {
            let i = choose|i: int| 0 <= i < ts.len() && ts[i].id == id;
            if i < ts.len() - 1 {
                assert(prefix[i].id == id);
            }
        }
        if contains_id(prefix, id) {
            let i = choose|i: int| 0 <= i < prefix.len() && prefix[i].id == id;
            assert(ts[i].id == id);
        }
        assert(ts[ts.len() - 1] == ts.last());
    }
}

/// A thread submitted as `Running` is appended, unchanged, at the back of
/// the ready queue, and the blocked queue does not change.
pub proof fn lemma_submit_running_appends(m: SchedulerModel, t: Thread, now: u64)
    requires
        t.state is Running,
    ensures
        submit_model(m, t, now).ready == m.ready.push(t),
        submit_model(m, t, now).blocked == m.blocked,
{
}

/// The scheduler after `n` selections in a row.
pub open spec fn schedule_n(m: SchedulerModel, n: nat) -> SchedulerModel
    decreases n,
{
    if n == 0 {
        m
    } else {
        schedule_model(schedule_n(m, (n - 1) as nat)).1
    }
}

/// After `n` selections, the ready queue holds exactly the threads that sat
/// behind the first `n`, still in order, and nothing else has changed.
pub proof fn lemma_schedule_n_ready(m: SchedulerModel, n: nat)
    requires
        n <= m.ready.len(),
    ensures
        schedule_n(m, n).ready == m.ready.subrange(n as int, m.ready.len() as int),
        schedule_n(m, n).blocked == m.blocked,
        schedule_n(m, n).registry == m.registry,
    decreases n,
{
    if n == 0 {
        assert(m.ready.subrange(0, m.ready.len() as int) =~= m.ready);
    } else {
        lemma_schedule_n_ready(m, (n - 1) as nat);
        let prev = schedule_n(m, (n - 1) as nat);
        assert(prev.ready.subrange(1, prev.ready.len() as int) =~= m.ready.subrange(
            n as int,
            m.ready.len() as int,
        ));
    }
}

/// FIFO selection order in general: the selection made after `i` earlier
/// selections returns the thread at position `i` of the ready queue, so of
/// two queued threads the one nearer the front — the one submitted earlier —
/// is always selected first.
pub proof fn lemma_fifo_order(m: SchedulerModel, i: int, j: int)
    requires
        0 <= i < j < m.ready.len(),
    ensures
        schedule_model(schedule_n(m, i as nat)).0 == Some(m.ready[i]),
        schedule_model(schedule_n(m, j as nat)).0 == Some(m.ready[j]),
{
    lemma_schedule_n_ready(m, i as nat);
    lemma_schedule_n_ready(m, j as nat);
}

/// FIFO scheduling order: two threads submitted ready-to-run, in order, sit
/// in the ready queue in submission order; in particular, starting from an
/// empty ready queue, the first selection returns the first of them and the
/// next selection the second — the earliest submitted eligible thread runs
/// first.
pub proof fn lemma_fifo(m: SchedulerModel, a: Thread, b: Thread, now_a: u64, now_b: u64)
    requires
        a.state is Running,
        b.state is Running,
    ensures
        submit_model(submit_model(m, a, now_a), b, now_b).ready == m.ready.push(a).push(b),
        m.ready.len() == 0 ==> schedule_model(submit_model(submit_model(m, a, now_a), b, now_b)).0
            == Some(a),
        m.ready.len() == 0 ==> schedule_model(
            schedule_model(submit_model(submit_model(m, a, now_a), b, now_b)).1,
        ).0 == Some(b),
{
    let m2 = submit_model(submit_model(m, a, now_a), b, now_b);
    lemma_submit_running_appends(m, a, now_a);
    lemma_submit_running_appends(submit_model(m, a, now_a), b, now_b);
    if m.ready.len() == 0 {
        assert(m2.ready =~= seq![a, b]);
        assert(schedule_model(m2).1.ready =~= seq![b]);
    }
}

} // verus!
