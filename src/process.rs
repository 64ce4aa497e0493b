use vstd::prelude::*;
use crate::callback::CallbackId;

verus! {

/// Who asked for a function call into a process.
#[derive(Clone, Copy, Debug, PartialEq, Eq, Structural)]
pub enum FunctionCallSource {
    Kernel,
    Driver(CallbackId),
}

/// An upcall: four register-sized arguments and the address to jump to.
#[derive(Clone, Copy, Debug, PartialEq, Eq, Structural)]
pub struct FunctionCall {
    pub source: FunctionCallSource,
    pub argument0: usize,
    pub argument1: usize,
    pub argument2: usize,
    pub argument3: usize,
    pub pc: usize,
}

/// Work pending for a process, delivered in the order it was queued.
#[derive(Clone, Copy, Debug, PartialEq, Eq, Structural)]
pub enum Task {
    FunctionCall(FunctionCall),
    /// Notification that another process (by slot) has sent a message.
    Ipc(usize),
}

/// Lifecycle of a loaded process.
#[derive(Clone, Copy, Debug, PartialEq, Eq, Structural)]
pub enum State {
    /// Loaded or restarted, not yet dispatched.
    Unstarted,
    /// Executing, or ready to execute.
    Running,
    /// Gave up its timeslice; resumed at the next opportunity.
    Yielded,
    /// Its last system call is being served elsewhere.
    WaitingOnRemote,
    /// Faulted beyond what its policy allows: never scheduled again.
    Panicked,
}

impl State {
    /// States from which the scheduler may dispatch the process.
    pub open spec fn spec_runnable(self) -> bool {
        match self {
            State::Unstarted | State::Running | State::Yielded => true,
            _ => false,
        }
    }

    pub fn is_runnable(self) -> (r: bool)
        ensures
            r == self.spec_runnable(),
    {
        match self {
            State::Unstarted | State::Running | State::Yielded => true,
            _ => false,
        }
    }
}

/// Contents of a queue of capacity `cap` holding `q` after `t` is offered,
/// and whether it was taken.
pub open spec fn enqueue_step(q: Seq<Task>, cap: nat, t: Task) -> (Seq<Task>, bool) {
    if q.len() < cap {
        (q.push(t), true)
    } else {
        (q, false)
    }
}

/// Contents after offering each of `ts` in turn, and the outcome of each offer.
pub open spec fn enqueue_all(q: Seq<Task>, cap: nat, ts: Seq<Task>) -> (Seq<Task>, Seq<bool>)
    decreases ts.len(),
{
    if ts.len() == 0 {
        (q, Seq::empty())
    } else {
        let first = enqueue_step(q, cap, ts[0]);
        let rest = enqueue_all(first.0, cap, ts.drop_first());
        (rest.0, seq![first.1].add(rest.1))
    }
}

/// Offering one task more than a queue has room for: every offer but the
/// last is taken, in order, and the last is refused.
pub proof fn lemma_queue_overflow(q: Seq<Task>, cap: nat, ts: Seq<Task>)
    requires
        ts.len() >= 1,
        q.len() + ts.len() == cap + 1,
    ensures
        enqueue_all(q, cap, ts).0 == q.add(ts.take(ts.len() - 1)),
        enqueue_all(q, cap, ts).1 == Seq::new((ts.len() - 1) as nat, |i: int| true).push(false),
    decreases ts.len(),
{
    if ts.len() == 1 {
        assert(ts.drop_first().len() == 0);
        assert(enqueue_all(q, cap, ts.drop_first()) == (q, Seq::<bool>::empty()));
        assert(q.add(ts.take(0)) =~= q);
        assert(Seq::new(0, |i: int| true).push(false) =~= seq![false].add(Seq::<bool>::empty()));
    } else {
        let q1 = q.push(ts[0]);
        assert(enqueue_step(q, cap, ts[0]) == (q1, true));
        lemma_queue_overflow(q1, cap, ts.drop_first());
        assert(q1.add(ts.drop_first().take(ts.len() - 2)) =~= q.add(ts.take(ts.len() - 1)));
        assert(seq![true].add(Seq::new((ts.len() - 2) as nat, |i: int| true).push(false)) =~= Seq::new(
            (ts.len() - 1) as nat,
            |i: int| true,
        ).push(false));
    }
}

/// Fixed-capacity first-in first-out queue of tasks, with a count of the
/// tasks it had to drop because it was full.
pub struct TaskQueue {
    tasks: Vec<Task>,
    capacity: usize,
    dropped: usize,
}

impl View for TaskQueue {
    type V = Seq<Task>;

    closed spec fn view(&self) -> Seq<Task> {
        self.tasks@
    }
}

impl TaskQueue {
    pub closed spec fn spec_capacity(&self) -> nat {
        self.capacity as nat
    }

    pub closed spec fn spec_dropped(&self) -> nat {
        self.dropped as nat
    }

    pub closed spec fn wf(&self) -> bool {
        self.tasks@.len() <= self.capacity
    }

    /// An empty queue that holds at most `capacity` tasks.
    pub fn new(capacity: usize) -> (q: TaskQueue)
        ensures
            q.wf(),
            q@ == Seq::<Task>::empty(),
            q.spec_capacity() == capacity,
            q.spec_dropped() == 0,
    {
        TaskQueue { tasks: Vec::new(), capacity, dropped: 0 }
    }

    pub fn len(&self) -> (r: usize)
        requires
            self.wf(),
        ensures
            r == self@.len(),
    {
        self.tasks.len()
    }

    pub fn capacity(&self) -> (r: usize)
        ensures
            r == self.spec_capacity(),
    {
        self.capacity
    }

    /// Number of tasks refused because the queue was full (saturating).
    pub fn dropped(&self) -> (r: usize)
        ensures
            r == self.spec_dropped(),
    {
        self.dropped
    }

    /// Appends `task` when there is room. Otherwise the task is dropped, the
    /// drop count grows by one (saturating at its maximum) and the result is
    /// `false`.
    pub fn enqueue(&mut self, task: Task) -> (r: bool)
        requires
            old(self).wf(),
        ensures
            final(self).wf(),
            final(self).spec_capacity() == old(self).spec_capacity(),
            (final(self)@, r) == enqueue_step(old(self)@, old(self).spec_capacity(), task),
            r ==> final(self).spec_dropped() == old(self).spec_dropped(),
            !r ==> final(self).spec_dropped() == if old(self).spec_dropped() < usize::MAX {
                old(self).spec_dropped() + 1
            } else {
                old(self).spec_dropped()
            },
    {
        if self.tasks.len() < self.capacity {
            self.tasks.push(task);
            true
        } else {
            if self.dropped < usize::MAX {
                self.dropped = self.dropped + 1;
            }
            false
        }
    }

    /// Removes and returns the oldest task, if any.
    pub fn dequeue(&mut self) -> (r: Option<Task>)
        requires
            old(self).wf(),
        ensures
            final(self).wf(),
            final(self).spec_capacity() == old(self).spec_capacity(),
            final(self).spec_dropped() == old(self).spec_dropped(),
            old(self)@.len() == 0 ==> r.is_none() && final(self)@ == old(self)@,
            old(self)@.len() > 0 ==> r == Some(old(self)@[0]) && final(self)@
                == old(self)@.drop_first(),
    {
        if self.tasks.len() == 0 {
            None
        } else {
            let t = self.tasks.remove(0);
            Some(t)
        }
    }

    /// Discards every pending task.
    pub fn clear(&mut self)
        requires
            old(self).wf(),
        ensures
            final(self).wf(),
            final(self)@ == Seq::<Task>::empty(),
            final(self).spec_capacity() == old(self).spec_capacity(),
            final(self).spec_dropped() == old(self).spec_dropped(),
    {
        self.tasks.clear();
    }
}


/// Stable identity of a loaded process: its slot in the process table and a
/// number that no other process loaded by the same kernel carries.
#[derive(Clone, Copy, Debug, PartialEq, Eq, Structural)]
pub struct AppId {
    pub index: usize,
    pub identifier: usize,
}

/// Registers saved while the process is not executing.
#[derive(Clone, Copy, Debug, PartialEq, Eq, Structural)]
pub struct Context {
    pub pc: usize,
    pub r0: usize,
    pub r1: usize,
    pub r2: usize,
    pub r3: usize,
}

/// Process control block.
///
/// The process owns the memory `[mem_start, mem_start + mem_size)`. It may
/// itself touch `[mem_start, app_break)`; grants are carved downwards from the
/// end of the region, and `[kernel_break, mem_start + mem_size)` is already
/// handed out to them.
pub struct Process {
    pub app_id: AppId,
    pub state: State,
    pub tasks: TaskQueue,
    pub flash_start: usize,
    pub flash_len: usize,
    pub entry_point: usize,
    pub mem_start: usize,
    pub mem_size: usize,
    pub app_break: usize,
    pub kernel_break: usize,
    pub restart_count: usize,
    pub context: Context,
}

impl Process {
    pub open spec fn mem_end(&self) -> int {
        self.mem_start + self.mem_size
    }

    pub open spec fn wf(&self) -> bool {
        &&& self.mem_start + self.mem_size <= usize::MAX
        &&& self.mem_start <= self.app_break
        &&& self.app_break <= self.kernel_break
        &&& self.kernel_break <= self.mem_end()
        &&& self.tasks.wf()
    }

    /// Whether `[addr, addr + len)` lies inside the memory the process may touch.
    pub open spec fn spec_accessible(&self, addr: int, len: int) -> bool {
        self.mem_start <= addr && addr + len <= self.app_break && 0 <= len
    }

    /// Whether the address lies anywhere in the process's memory region.
    pub open spec fn in_region(&self, addr: int) -> bool {
        self.mem_start <= addr < self.mem_end()
    }

    pub fn accessible(&self, addr: usize, len: usize) -> (r: bool)
        requires
            self.wf(),
        ensures
            r == self.spec_accessible(addr as int, len as int),
    {
        addr >= self.mem_start && len <= self.app_break && addr <= self.app_break - len
    }
}

} // verus!
