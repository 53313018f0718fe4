//! Cooperative task scheduler: task slots, a FIFO ready queue, sleeping tasks
//! and counting semaphores with direct hand-off.
//!
//! Only the decisions live here. The register save/restore and the idle spin
//! are the caller's: after [`Scheduler::pick_next`] says which task runs, the
//! caller switches stacks.
use vstd::prelude::*;

verus! {

/// Maximum number of concurrent tasks.
pub const MAX_TASKS: usize = 16;
/// Minimum task stack, in bytes.
pub const MIN_STACK: usize = 4096;
/// Cycles per millisecond of the cycle counter used for sleep deadlines.
pub const CYCLES_PER_MS: u64 = 240_000;

/// Callee-saved register context of a suspended task.
#[derive(Clone, Copy, Debug)]
pub struct Ctx {
    pub ra: usize,
    pub sp: usize,
    pub s: [usize; 12],
    pub fs: [u32; 12],
}

impl Ctx {
    /// The all-zero context.
    pub fn zero() -> (c: Ctx)
        ensures
            c.ra == 0,
            c.sp == 0,
            forall|i: int| 0 <= i < 12 ==> c.s@[i] == 0usize && c.fs@[i] == 0u32,
    {
        let c = Ctx { ra: 0, sp: 0, s: [0usize; 12], fs: [0u32; 12] };
        assert(c.s@ =~= Seq::new(12, |i: int| 0usize));
        assert(c.fs@ =~= Seq::new(12, |i: int| 0u32));
        c
    }

    /// The context a fresh task starts from: it returns into `ra` on stack `sp`.
    pub fn first_run(ra: usize, sp: usize) -> (c: Ctx)
        ensures
            c.ra == ra,
            c.sp == sp,
            forall|i: int| 0 <= i < 12 ==> c.s@[i] == 0usize && c.fs@[i] == 0u32,
    {
        let mut c = Ctx::zero();
        c.ra = ra;
        c.sp = sp;
        c
    }
}

/// Scheduling state of a task slot.
#[derive(Clone, Copy, Debug, PartialEq, Eq, Structural)]
pub enum TaskState {
    Free,
    Ready,
    Running,
    Blocked,
    Sleeping,
}

/// A task control block.
#[derive(Clone, Copy, Debug, PartialEq, Eq, Structural)]
pub struct Tcb {
    pub state: TaskState,
    /// Address of the heap stack to free on exit (0 for the adopted main task).
    pub stack: usize,
    /// Address of the entry function (0 for none).
    pub entry: usize,
    /// The entry's argument.
    pub arg: usize,
    /// Cycle-counter deadline while sleeping.
    pub wake_at: u64,
}

/// A free slot.
pub open spec fn empty_tcb() -> Tcb {
    Tcb { state: TaskState::Free, stack: 0, entry: 0, arg: 0, wake_at: 0 }
}

/// Abstract scheduler state.
#[verifier::ext_equal]
pub struct SchedView {
    pub tasks: Seq<Tcb>,
    /// Ready queue, oldest first.
    pub ready: Seq<usize>,
    pub current: usize,
    pub started: bool,
}

/// The scheduler's invariant: the ready queue holds exactly the ready tasks,
/// each once; nothing exists before the scheduler starts.
pub open spec fn sched_inv(v: SchedView) -> bool {
    &&& v.tasks.len() == MAX_TASKS
    &&& v.current < MAX_TASKS
    &&& v.ready.no_duplicates()
    &&& forall|k: int|
        0 <= k < v.ready.len() ==> (#[trigger] v.ready[k]) < MAX_TASKS && v.tasks[v.ready[k] as int].state
            == TaskState::Ready
    &&& forall|i: int|
        0 <= i < MAX_TASKS && (#[trigger] v.tasks[i]).state == TaskState::Ready ==> v.ready.contains(
            i as usize,
        )
    &&& !v.started ==> v.ready.len() == 0 && forall|i: int|
        0 <= i < MAX_TASKS ==> (#[trigger] v.tasks[i]).state == TaskState::Free
}

/// Whether a task's sleep is over at `now`.
pub open spec fn wakes(t: Tcb, now: u64) -> bool {
    t.state == TaskState::Sleeping && now >= t.wake_at
}

/// The task after a wake-up pass at `now`.
pub open spec fn after_wake(t: Tcb, now: u64) -> Tcb {
    if wakes(t, now) {
        Tcb { state: TaskState::Ready, ..t }
    } else {
        t
    }
}

/// Indices among the first `n` tasks whose sleep is over, in slot order.
pub open spec fn woken(tasks: Seq<Tcb>, now: u64, n: int) -> Seq<usize>
    decreases n,
{
    if n <= 0 {
        Seq::empty()
    } else if wakes(tasks[n - 1], now) {
        woken(tasks, now, n - 1).push((n - 1) as usize)
    } else {
        woken(tasks, now, n - 1)
    }
}

/// The state after waking every task whose sleep is over: woken tasks join
/// the ready queue in slot order.
pub open spec fn woken_view(v: SchedView, now: u64) -> SchedView {
    SchedView {
        tasks: Seq::new(MAX_TASKS as nat, |i: int| after_wake(v.tasks[i], now)),
        ready: v.ready + woken(v.tasks, now, MAX_TASKS as int),
        ..v
    }
}

/// The state once the scheduler has started: unchanged if it already had,
/// else slot 0 runs and is current.
pub open spec fn started_view(v: SchedView) -> SchedView {
    if v.started {
        v
    } else {
        SchedView {
            tasks: v.tasks.update(0, Tcb { state: TaskState::Running, ..v.tasks[0] }),
            current: 0,
            started: true,
            ..v
        }
    }
}

/// What the caller does after [`Scheduler::pick_next`].
#[derive(Clone, Copy, Debug, PartialEq, Eq, Structural)]
pub enum Dispatch {
    /// No task is ready: spin and ask again.
    Idle,
    /// The task that gave up the processor is the next one: keep running it.
    Resume,
    /// Save `from`'s registers and restore `to`'s.
    Switch { from: usize, to: usize },
}

/// Stack size actually allocated for a requested size.
pub open spec fn spec_stack_size(requested: usize) -> usize {
    if requested < MIN_STACK {
        MIN_STACK
    } else {
        requested
    }
}

/// Stack size for a new task: at least [`MIN_STACK`].
pub fn stack_size(requested: usize) -> (size: usize)
    ensures
        size == spec_stack_size(requested),
{
    if requested < MIN_STACK {
        MIN_STACK
    } else {
        requested
    }
}

/// Initial stack pointer of a stack at `base` of `size` bytes: its end,
/// rounded down to 16 bytes.
pub fn stack_top(base: usize, size: usize) -> (top: usize)
    requires
        base + size <= usize::MAX,
    ensures
        top % 16 == 0,
        top <= base + size,
        base + size - top < 16,
{
    let end = base + size;
    let top = end & !0xfusize;
    assert(top % 16 == 0 && top <= end && end - top < 16) by (bit_vector)
        requires
            top == end & !0xfusize,
    ;
    top
}

/// Deadline `ms` milliseconds after `now` on the cycle counter.
pub open spec fn deadline_after(now: u64, ms: u32) -> int {
    now + ms * CYCLES_PER_MS
}

/// Making a task that is not ready ready, at the back of the queue, keeps the
/// scheduler invariant.
proof fn lemma_push_ready(pre: SchedView, post: SchedView, i: usize)
    requires
        sched_inv(pre),
        i < MAX_TASKS,
        pre.tasks[i as int].state != TaskState::Ready,
        pre.started,
        post.tasks.len() == MAX_TASKS,
        post.tasks[i as int].state == TaskState::Ready,
        forall|j: int| 0 <= j < MAX_TASKS && j != i ==> post.tasks[j] == pre.tasks[j],
        post.ready == pre.ready.push(i),
        post.current == pre.current,
        post.started == pre.started,
    ensures
        sched_inv(post),
{
    assert(!pre.ready.contains(i)) by {
        if pre.ready.contains(i) {
            let k = choose|k: int| 0 <= k < pre.ready.len() && pre.ready[k] == i;
            assert(pre.tasks[pre.ready[k] as int].state == TaskState::Ready);
        }
    }
    assert forall|k: int| 0 <= k < post.ready.len() implies (#[trigger] post.ready[k]) < MAX_TASKS
        && post.tasks[post.ready[k] as int].state == TaskState::Ready by {
        if k < pre.ready.len() {
            assert(post.ready[k] == pre.ready[k]);
            assert(pre.ready[k] != i);
        }
    }
    assert forall|j: int|
        0 <= j < MAX_TASKS && (#[trigger] post.tasks[j]).state == TaskState::Ready implies post.ready.contains(
        j as usize,
    ) by {
        if j != i {
            assert(pre.tasks[j].state == TaskState::Ready);
            assert(pre.ready.contains(j as usize));
            let k = choose|k: int| 0 <= k < pre.ready.len() && pre.ready[k] == j as usize;
            assert(post.ready[k] == j as usize);
        } else {
            assert(post.ready[post.ready.len() - 1] == i);
        }
    }
}

/// The task scheduler.
pub struct Scheduler {
    tasks: Vec<Tcb>,
    current: usize,
    ready: Vec<usize>,
    started: bool,
}

impl Scheduler {
    /// Abstract state.
    pub closed spec fn view(&self) -> SchedView {
        SchedView { tasks: self.tasks@, ready: self.ready@, current: self.current, started: self.started }
    }

    /// The invariant holds.
    pub open spec fn wf(&self) -> bool {
        sched_inv(self@)
    }

    /// Whether the current task is the one running.
    pub open spec fn current_running(&self) -> bool {
        self@.tasks[self@.current as int].state == TaskState::Running
    }

    /// Every slot free, nothing ready, not started.
    pub fn new() -> (s: Self)
        ensures
            s.wf(),
            s@.tasks == Seq::new(MAX_TASKS as nat, |i: int| empty_tcb()),
            s@.ready.len() == 0,
            s@.current == 0,
            !s@.started,
    {
        let mut tasks: Vec<Tcb> = Vec::new();
        let mut i: usize = 0;
        while i < MAX_TASKS
            invariant
                i <= MAX_TASKS,
                tasks@ == Seq::new(i as nat, |k: int| empty_tcb()),
            decreases MAX_TASKS - i,
        {
            tasks.push(Tcb { state: TaskState::Free, stack: 0, entry: 0, arg: 0, wake_at: 0 });
            i += 1;
            assert(tasks@ =~= Seq::new(i as nat, |k: int| empty_tcb()));
        }
        Scheduler { tasks, current: 0, ready: Vec::new(), started: false }
    }

    /// Index of the current task.
    pub fn current_id(&self) -> (id: usize)
        ensures
            id == self@.current,
    {
        self.current
    }

    /// Scheduling state of a slot.
    pub fn state_of(&self, i: usize) -> (s: TaskState)
        requires
            self.wf(),
            i < MAX_TASKS,
        ensures
            s == self@.tasks[i as int].state,
    {
        self.tasks[i].state
    }

    /// The control block of a slot.
    pub fn task(&self, i: usize) -> (t: Tcb)
        requires
            self.wf(),
            i < MAX_TASKS,
        ensures
            t == self@.tasks[i as int],
    {
        self.tasks[i]
    }

    /// Start the scheduler, adopting the running code as the main task in
    /// slot 0. Does nothing once started.
    pub fn init(&mut self)
        requires
            old(self).wf(),
        ensures
            final(self).wf(),
            final(self)@.started,
            final(self)@ == started_view(old(self)@),
    {
        if self.started {
            return;
        }
        let mut t = self.tasks[0];
        t.state = TaskState::Running;
        self.tasks.set(0, t);
        self.current = 0;
        self.started = true;
    }

    /// Index of the first free slot.
    pub fn alloc_slot(&self) -> (r: Option<usize>)
        requires
            self.wf(),
        ensures
            r is None <==> forall|i: int| 0 <= i < MAX_TASKS ==> self@.tasks[i].state != TaskState::Free,
            r matches Some(k) ==> k < MAX_TASKS && self@.tasks[k as int].state == TaskState::Free && forall|
                j: int,
            |
                0 <= j < k ==> self@.tasks[j].state != TaskState::Free,
    {
        let mut i: usize = 0;
        while i < MAX_TASKS
            invariant
                i <= MAX_TASKS,
                self.wf(),
                forall|j: int| 0 <= j < i ==> self@.tasks[j].state != TaskState::Free,
            decreases MAX_TASKS - i,
        {
            if self.tasks[i].state == TaskState::Free {
                return Some(i);
            }
            i += 1;
        }
        None
    }

    /// Put a task that is not ready at the back of the ready queue.
    fn ready_push(&mut self, i: usize)
        ensures
            final(self)@ == (SchedView { ready: old(self)@.ready.push(i), ..old(self)@ }),
    {
        self.ready.push(i);
    }

    /// Start the scheduler if needed and create a ready task in the first free
    /// slot, with the given stack, entry and argument; `None` when every slot
    /// is taken (the caller then frees the stack).
    pub fn spawn(&mut self, entry: usize, arg: usize, stack: usize) -> (r: Option<usize>)
        requires
            old(self).wf(),
        ensures
            final(self).wf(),
            final(self)@.started,
            ({
                let s = started_view(old(self)@);
                &&& r is None <==> forall|i: int| 0 <= i < MAX_TASKS ==> s.tasks[i].state != TaskState::Free
                &&& r is None ==> final(self)@ == s
                &&& r matches Some(k) ==> {
                    &&& k < MAX_TASKS
                    &&& s.tasks[k as int].state == TaskState::Free
                    &&& forall|j: int| 0 <= j < k ==> s.tasks[j].state != TaskState::Free
                    &&& final(self)@ == (SchedView {
                        tasks: s.tasks.update(k as int, Tcb { state: TaskState::Ready, stack, entry, arg, wake_at: 0 }),
                        ready: s.ready.push(k),
                        ..s
                    })
                }
            }),
    {
        self.init();
        let ghost pre = self@;
        match self.alloc_slot() {
            None => None,
            Some(i) => {
                self.tasks.set(i, Tcb { state: TaskState::Ready, stack, entry, arg, wake_at: 0 });
                self.ready_push(i);
                proof {
                    lemma_push_ready(pre, self@, i);
                    assert(self@ =~= SchedView {
                        tasks: pre.tasks.update(i as int, Tcb { state: TaskState::Ready, stack, entry, arg, wake_at: 0 }),
                        ready: pre.ready.push(i),
                        ..pre
                    });
                }
                Some(i)
            },
        }
    }

    /// Move every task whose sleep is over (at cycle count `now`) to the back
    /// of the ready queue, in slot order.
    pub fn wake_sleepers(&mut self, now: u64)
        requires
            old(self).wf(),
        ensures
            final(self).wf(),
            final(self)@ == woken_view(old(self)@, now),
    {
        let ghost old_v = self@;
        let mut i: usize = 0;
        while i < MAX_TASKS
            invariant
                i <= MAX_TASKS,
                self.wf(),
                old_v == old(self)@,
                sched_inv(old_v),
                self@.current == old_v.current,
                self@.started == old_v.started,
                self@.ready == old_v.ready + woken(old_v.tasks, now, i as int),
                forall|k: int| 0 <= k < i ==> self@.tasks[k] == after_wake(old_v.tasks[k], now),
                forall|k: int| i <= k < MAX_TASKS ==> self@.tasks[k] == old_v.tasks[k],
            decreases MAX_TASKS - i,
        {
            let t = self.tasks[i];
            if t.state == TaskState::Sleeping && now >= t.wake_at {
                let ghost pre = self@;
                self.tasks.set(i, Tcb { state: TaskState::Ready, ..t });
                self.ready_push(i);
                proof {
                    lemma_push_ready(pre, self@, i);
                    assert(self@.ready =~= old_v.ready + woken(old_v.tasks, now, i as int + 1));
                }
            } else {
                assert(woken(old_v.tasks, now, i as int + 1) == woken(old_v.tasks, now, i as int));
            }
            i += 1;
        }
        proof {
            assert(self@.tasks =~= woken_view(old_v, now).tasks);
        }
    }

    /// Choose the next task after `prev` gave up the processor (its state
    /// already set: queued as ready, blocked, sleeping or freed): wake the
    /// sleepers due at `now`, then take the oldest ready task and mark it
    /// running.
    pub fn pick_next(&mut self, prev: usize, now: u64) -> (d: Dispatch)
        requires
            old(self).wf(),
        ensures
            final(self).wf(),
            ({
                let w = woken_view(old(self)@, now);
                &&& w.ready.len() == 0 ==> d == Dispatch::Idle && final(self)@ == w
                &&& w.ready.len() > 0 ==> {
                    let next = w.ready[0];
                    &&& final(self)@.tasks == w.tasks.update(next as int, Tcb { state: TaskState::Running, ..w.tasks[next as int] })
                    &&& final(self)@.ready == w.ready.drop_first()
                    &&& final(self)@.started == w.started
                    &&& next == prev ==> d == Dispatch::Resume && final(self)@.current == w.current
                    &&& next != prev ==> d == (Dispatch::Switch { from: prev, to: next }) && final(self)@.current == next
                }
            }),
    {
        self.wake_sleepers(now);
        if self.ready.len() == 0 {
            return Dispatch::Idle;
        }
        let ghost w = self@;
        let next = self.ready.remove(0);
        let mut t = self.tasks[next];
        t.state = TaskState::Running;
        self.tasks.set(next, t);
        proof {
            let v = self@;
            assert(v.ready =~= w.ready.drop_first());
            assert forall|k: int| 0 <= k < v.ready.len() implies (#[trigger] v.ready[k]) < MAX_TASKS
                && v.tasks[v.ready[k] as int].state == TaskState::Ready by {
                assert(v.ready[k] == w.ready[k + 1]);
                assert(w.ready[k + 1] != w.ready[0]);
            }
            assert forall|j: int|
                0 <= j < MAX_TASKS && (#[trigger] v.tasks[j]).state == TaskState::Ready implies v.ready.contains(
                j as usize,
            ) by {
                assert(j != next);
                assert(w.ready.contains(j as usize));
                let k = choose|k: int| 0 <= k < w.ready.len() && w.ready[k] == j as usize;
                assert(k != 0);
                assert(v.ready[k - 1] == j as usize);
            }
        }
        if next == prev {
            Dispatch::Resume
        } else {
            self.current = next;
            Dispatch::Switch { from: prev, to: next }
        }
    }

    /// The running task gives up the processor: it becomes ready at the back
    /// of the queue. Returns its index.
    pub fn yield_current(&mut self) -> (prev: usize)
        requires
            old(self).wf(),
            old(self).current_running(),
        ensures
            final(self).wf(),
            prev == old(self)@.current,
            final(self)@ == (SchedView {
                tasks: old(self)@.tasks.update(prev as int, Tcb { state: TaskState::Ready, ..old(self)@.tasks[prev as int] }),
                ready: old(self)@.ready.push(prev),
                ..old(self)@
            }),
    {
        let cur = self.current;
        let ghost pre = self@;
        let mut t = self.tasks[cur];
        t.state = TaskState::Ready;
        self.tasks.set(cur, t);
        self.ready_push(cur);
        proof {
            lemma_push_ready(pre, self@, cur);
        }
        cur
    }

    /// The running task sleeps `ms` milliseconds from cycle count `now`; zero
    /// milliseconds is a yield. Returns its index.
    pub fn sleep_current(&mut self, now: u64, ms: u32) -> (prev: usize)
        requires
            old(self).wf(),
            old(self).current_running(),
            deadline_after(now, ms) <= u64::MAX,
        ensures
            final(self).wf(),
            prev == old(self)@.current,
            ms == 0 ==> final(self)@ == (SchedView {
                tasks: old(self)@.tasks.update(prev as int, Tcb { state: TaskState::Ready, ..old(self)@.tasks[prev as int] }),
                ready: old(self)@.ready.push(prev),
                ..old(self)@
            }),
            ms != 0 ==> final(self)@ == (SchedView {
                tasks: old(self)@.tasks.update(
                    prev as int,
                    Tcb { state: TaskState::Sleeping, wake_at: deadline_after(now, ms) as u64, ..old(self)@.tasks[prev as int] },
                ),
                ..old(self)@
            }),
    {
        if ms == 0 {
            return self.yield_current();
        }
        let cur = self.current;
        let mut t = self.tasks[cur];
        t.state = TaskState::Sleeping;
        assert(ms * CYCLES_PER_MS <= u32::MAX * CYCLES_PER_MS) by (nonlinear_arith)
            requires
                ms <= u32::MAX,
        ;
        t.wake_at = now + ms as u64 * CYCLES_PER_MS;
        self.tasks.set(cur, t);
        cur
    }

    /// The running task ends: its slot becomes free. Returns its index.
    pub fn exit_current(&mut self) -> (prev: usize)
        requires
            old(self).wf(),
            old(self).current_running(),
        ensures
            final(self).wf(),
            prev == old(self)@.current,
            final(self)@ == (SchedView { tasks: old(self)@.tasks.update(prev as int, empty_tcb()), ..old(self)@ }),
    {
        let cur = self.current;
        self.tasks.set(cur, Tcb { state: TaskState::Free, stack: 0, entry: 0, arg: 0, wake_at: 0 });
        cur
    }
}

/// Abstract semaphore state.
#[verifier::ext_equal]
pub struct SemView {
    pub count: i32,
    /// Blocked tasks, oldest first.
    pub waiters: Seq<usize>,
}

/// A semaphore is consistent with the scheduler: its waiters are distinct
/// blocked tasks. (A count at or below zero means no count is available;
/// one created negative needs that many more `up`s before a `down` succeeds.)
pub open spec fn sem_inv(s: SemView, v: SchedView) -> bool {
    &&& s.waiters.no_duplicates()
    &&& forall|k: int|
        0 <= k < s.waiters.len() ==> (#[trigger] s.waiters[k]) < MAX_TASKS && v.tasks[s.waiters[k] as int].state
            == TaskState::Blocked
}

/// Effect of a `down` by the current task: take a count, or block at the back
/// of the wait queue. The flag says whether the task blocked.
pub open spec fn spec_down(s: SemView, v: SchedView) -> (SemView, SchedView, bool) {
    if s.count > 0 {
        (SemView { count: (s.count - 1) as i32, ..s }, v, false)
    } else {
        (
            SemView { waiters: s.waiters.push(v.current), ..s },
            SchedView {
                tasks: v.tasks.update(v.current as int, Tcb { state: TaskState::Blocked, ..v.tasks[v.current as int] }),
                ..v
            },
            true,
        )
    }
}

/// Effect of an `up`: hand the count to the oldest waiter, which becomes
/// ready, or increment the count.
pub open spec fn spec_up(s: SemView, v: SchedView) -> (SemView, SchedView) {
    if s.waiters.len() > 0 {
        let w = s.waiters[0];
        (
            SemView { waiters: s.waiters.drop_first(), ..s },
            SchedView {
                tasks: v.tasks.update(w as int, Tcb { state: TaskState::Ready, ..v.tasks[w as int] }),
                ready: v.ready.push(w),
                ..v
            },
        )
    } else {
        (SemView { count: (s.count + 1) as i32, ..s }, v)
    }
}

/// Outcome of a bounded wait on a semaphore.
#[derive(Clone, Copy, Debug, PartialEq, Eq, Structural)]
pub enum TimedDown {
    /// A count was taken.
    Acquired,
    /// An unbounded wait blocked the task; when it runs again it holds the count.
    Parked,
    /// The deadline passed first.
    Expired,
    /// Not yet: sleep a millisecond, then poll again with this deadline.
    Retry { deadline: u64 },
}

/// A counting semaphore whose waiters block in the scheduler.
pub struct Semaphore {
    count: i32,
    waiters: Vec<usize>,
}

impl Semaphore {
    /// Abstract state.
    pub closed spec fn view(&self) -> SemView {
        SemView { count: self.count, waiters: self.waiters@ }
    }

    /// A semaphore with initial `count` and no waiters.
    pub fn new(count: i32) -> (s: Self)
        ensures
            s@.count == count,
            s@.waiters.len() == 0,
    {
        Semaphore { count, waiters: Vec::new() }
    }

    /// Current count.
    pub fn count(&self) -> (c: i32)
        ensures
            c == self@.count,
    {
        self.count
    }

    /// Take a count if one is available, without blocking.
    pub fn try_down(&mut self) -> (taken: bool)
        ensures
            taken == (old(self)@.count > 0),
            taken ==> final(self)@ == (SemView { count: (old(self)@.count - 1) as i32, ..old(self)@ }),
            !taken ==> final(self)@ == old(self)@,
    {
        if self.count > 0 {
            self.count -= 1;
            true
        } else {
            false
        }
    }

    /// Acquire for the running task: take a count, or block it on this
    /// semaphore. Returns whether it blocked (the caller then switches away;
    /// being woken is being granted).
    pub fn down(&mut self, sched: &mut Scheduler) -> (blocked: bool)
        requires
            old(sched).wf(),
            old(sched).current_running(),
            sem_inv(old(self)@, old(sched)@),
        ensures
            final(sched).wf(),
            sem_inv(final(self)@, final(sched)@),
            (final(self)@, final(sched)@, blocked) == spec_down(old(self)@, old(sched)@),
    {
        if self.count > 0 {
            self.count -= 1;
            return false;
        }
        let cur = sched.current;
        proof {
            assert(!self@.waiters.contains(cur)) by {
                if self@.waiters.contains(cur) {
                    let k = choose|k: int| 0 <= k < self@.waiters.len() && self@.waiters[k] == cur;
                    assert(sched@.tasks[self@.waiters[k] as int].state == TaskState::Blocked);
                }
            }
            assert(!sched@.ready.contains(cur)) by {
                if sched@.ready.contains(cur) {
                    let k = choose|k: int| 0 <= k < sched@.ready.len() && sched@.ready[k] == cur;
                    assert(sched@.tasks[sched@.ready[k] as int].state == TaskState::Ready);
                }
            }
        }
        let mut t = sched.tasks[cur];
        t.state = TaskState::Blocked;
        sched.tasks.set(cur, t);
        self.waiters.push(cur);
        proof {
            let v = sched@;
            assert forall|k: int| 0 <= k < v.ready.len() implies (#[trigger] v.ready[k]) < MAX_TASKS
                && v.tasks[v.ready[k] as int].state == TaskState::Ready by {
                assert(v.ready[k] != cur);
            }
        }
        true
    }

    /// Release: hand the count to the oldest waiter, which becomes ready, or
    /// increment the count when nobody waits.
    pub fn up(&mut self, sched: &mut Scheduler)
        requires
            old(sched).wf(),
            sem_inv(old(self)@, old(sched)@),
            old(self)@.waiters.len() == 0 ==> old(self)@.count < i32::MAX,
        ensures
            final(sched).wf(),
            sem_inv(final(self)@, final(sched)@),
            (final(self)@, final(sched)@) == spec_up(old(self)@, old(sched)@),
    {
        if self.waiters.len() == 0 {
            self.count += 1;
            return;
        }
        let ghost s0 = self@;
        let w = self.waiters.remove(0);
        let ghost pre = sched@;
        let mut t = sched.tasks[w];
        t.state = TaskState::Ready;
        sched.tasks.set(w, t);
        sched.ready_push(w);
        proof {
            lemma_push_ready(pre, sched@, w);
            let v = sched@;
            assert(self@.waiters =~= s0.waiters.drop_first());
            assert forall|k: int| 0 <= k < self@.waiters.len() implies (#[trigger] self@.waiters[k]) < MAX_TASKS
                && v.tasks[self@.waiters[k] as int].state == TaskState::Blocked by {
                assert(self@.waiters[k] == s0.waiters[k + 1]);
                assert(s0.waiters[k + 1] != s0.waiters[0]);
            }
        }
    }

    /// One poll of a bounded wait: take a count, or report the deadline
    /// passed, or ask to retry.
    pub fn poll_timeout(&mut self, deadline: u64, now: u64) -> (r: TimedDown)
        ensures
            old(self)@.count > 0 ==> r == TimedDown::Acquired && final(self)@ == (SemView {
                count: (old(self)@.count - 1) as i32,
                ..old(self)@
            }),
            old(self)@.count <= 0 ==> final(self)@ == old(self)@ && r == (if now >= deadline {
                TimedDown::Expired
            } else {
                TimedDown::Retry { deadline }
            }),
    {
        if self.try_down() {
            TimedDown::Acquired
        } else if now >= deadline {
            TimedDown::Expired
        } else {
            TimedDown::Retry { deadline }
        }
    }

    /// Acquire with a timeout in milliseconds from cycle count `now`:
    /// `u32::MAX` waits forever (a plain [`Semaphore::down`]); otherwise the
    /// first poll of a wait that ends [`deadline_after`] `now`.
    pub fn down_timeout(&mut self, sched: &mut Scheduler, timeout_ms: u32, now: u64) -> (r: TimedDown)
        requires
            old(sched).wf(),
            old(sched).current_running(),
            sem_inv(old(self)@, old(sched)@),
            timeout_ms != u32::MAX ==> deadline_after(now, timeout_ms) <= u64::MAX,
        ensures
            final(sched).wf(),
            sem_inv(final(self)@, final(sched)@),
            timeout_ms == u32::MAX ==> {
                let (s, v, blocked) = spec_down(old(self)@, old(sched)@);
                &&& final(self)@ == s
                &&& final(sched)@ == v
                &&& r == (if blocked { TimedDown::Parked } else { TimedDown::Acquired })
            },
            timeout_ms != u32::MAX ==> final(sched)@ == old(sched)@ && {
                let deadline = deadline_after(now, timeout_ms) as u64;
                &&& old(self)@.count > 0 ==> r == TimedDown::Acquired && final(self)@ == (SemView {
                    count: (old(self)@.count - 1) as i32,
                    ..old(self)@
                })
                &&& old(self)@.count <= 0 ==> final(self)@ == old(self)@ && r == (if now >= deadline {
                    TimedDown::Expired
                } else {
                    TimedDown::Retry { deadline }
                })
            },
    {
        if timeout_ms == u32::MAX {
            if self.down(sched) {
                return TimedDown::Parked;
            } else {
                return TimedDown::Acquired;
            }
        }
        assert(timeout_ms * CYCLES_PER_MS <= u32::MAX * CYCLES_PER_MS) by (nonlinear_arith)
            requires
                timeout_ms <= u32::MAX,
        ;
        let deadline = now + timeout_ms as u64 * CYCLES_PER_MS;
        self.poll_timeout(deadline, now)
    }
}

/// An `up` on a semaphore nobody waits on, followed by a `down` of the running
/// task, takes the count straight back: the task does not block and the
/// semaphore and scheduler end as they were.
pub proof fn lemma_up_then_down_restores(s: SemView, v: SchedView)
    requires
        s.count >= 0,
        s.count < i32::MAX,
        s.waiters.len() == 0,
    ensures
        ({
            let (s1, v1) = spec_up(s, v);
            let (s2, v2, blocked) = spec_down(s1, v1);
            &&& !blocked
            &&& s2 == s
            &&& v2 == v
        }),
{
}

/// An `up` while tasks wait hands the count over: the oldest waiter becomes
/// ready at the back of the ready queue and the count does not change.
pub proof fn lemma_up_hands_off_to_oldest(s: SemView, v: SchedView)
    requires
        sched_inv(v),
        sem_inv(s, v),
        s.waiters.len() > 0,
    ensures
        ({
            let (s1, v1) = spec_up(s, v);
            &&& s1.count == s.count
            &&& s1.waiters == s.waiters.drop_first()
            &&& v1.tasks[s.waiters[0] as int].state == TaskState::Ready
            &&& v1.ready.last() == s.waiters[0]
        }),
{
}

/// Tasks are dispatched in the order they became ready: a task yielding
/// behind a non-empty ready queue is not picked before the tasks already in it.
pub proof fn lemma_ready_queue_is_fifo(v: SchedView, t: usize)
    requires
        v.ready.len() > 0,
    ensures
        v.ready.push(t)[0] == v.ready[0],
        v.ready.push(t).drop_first() == v.ready.drop_first().push(t),
{
    assert(v.ready.push(t).drop_first() =~= v.ready.drop_first().push(t));
}

} // verus!
