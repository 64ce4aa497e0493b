use vstd::prelude::*;
use crate::capabilities::{Capabilities, ProcessManagementCapability};
use crate::fault::{fault_transition, FaultAction, ThresholdRestartThenPanic};
use crate::process::{AppId, Context, Process, State, Task, TaskQueue};

verus! {

/// Bytes at the end of every process region set aside for grants.
pub const KERNEL_MEMORY: usize = 1024;

/// Number of processes among the first `n` slots of `k` that wait on a
/// remotely served system call.
pub open spec fn waiting_count(k: Kernel, n: int) -> nat
    decreases n,
{
    if n <= 0 {
        0
    } else {
        waiting_count(k, n - 1) + if k.occupied(n - 1) && k.proc(n - 1).state == State::WaitingOnRemote {
            1nat
        } else {
            0nat
        }
    }
}

/// Two processes' memory regions do not overlap.
pub open spec fn disjoint(p: Process, q: Process) -> bool {
    p.mem_end() <= q.mem_start || q.mem_end() <= p.mem_start
}

/// The one context object of the kernel: a fixed-size table of process slots.
pub struct Kernel {
    processes: Vec<Option<Process>>,
    next_identifier: usize,
    task_capacity: usize,
    capabilities_issued: bool,
}

impl Kernel {
    pub closed spec fn slots(&self) -> Seq<Option<Process>> {
        self.processes@
    }

    pub closed spec fn spec_next_identifier(&self) -> nat {
        self.next_identifier as nat
    }

    pub closed spec fn spec_task_capacity(&self) -> nat {
        self.task_capacity as nat
    }

    pub closed spec fn spec_capabilities_issued(&self) -> bool {
        self.capabilities_issued
    }

    pub open spec fn occupied(&self, i: int) -> bool {
        0 <= i < self.slots().len() && self.slots()[i].is_some()
    }

    pub open spec fn proc(&self, i: int) -> Process {
        self.slots()[i].unwrap()
    }

    pub open spec fn wf(&self) -> bool {
        &&& forall|i: int|
            #![trigger self.slots()[i]]
            self.occupied(i) ==> {
                &&& self.proc(i).wf()
                &&& self.proc(i).app_id.index == i
                &&& self.proc(i).app_id.identifier < self.spec_next_identifier()
            }
        &&& forall|i: int, j: int|
            #![trigger self.slots()[i], self.slots()[j]]
            self.occupied(i) && self.occupied(j) && i != j ==> disjoint(self.proc(i), self.proc(j))
    }

    /// The process `a` names is still loaded, in the incarnation `a` was made for.
    pub open spec fn spec_is_live(&self, a: AppId) -> bool {
        self.occupied(a.index as int) && self.proc(a.index as int).app_id == a
    }

    /// `k` holds the same processes as `self`, in the same slots and
    /// incarnations; their queues, states and registers may differ.
    pub open spec fn same_processes(&self, k: Kernel) -> bool {
        &&& k.slots().len() == self.slots().len()
        &&& forall|j: int| 0 <= j < self.slots().len() ==> #[trigger] k.occupied(j) == self.occupied(j)
        &&& forall|j: int|
            #[trigger] self.occupied(j) ==> k.proc(j).app_id == self.proc(j).app_id && k.proc(j).restart_count
                == self.proc(j).restart_count
    }

    /// `self` and `k` hold the same processes but for slot `i`.
    pub open spec fn same_except(&self, k: Kernel, i: int) -> bool {
        &&& self.slots().len() == k.slots().len()
        &&& forall|j: int| 0 <= j < self.slots().len() && j != i ==> #[trigger] self.slots()[j] == k.slots()[j]
        &&& self.spec_next_identifier() == k.spec_next_identifier()
        &&& self.spec_task_capacity() == k.spec_task_capacity()
        &&& self.spec_capabilities_issued() == k.spec_capabilities_issued()
    }

    /// Slot `i` of `k` holds the process of slot `i` of `self` with the same
    /// identity and memory layout.
    pub open spec fn same_layout(&self, k: Kernel, i: int) -> bool {
        &&& k.occupied(i)
        &&& self.occupied(i)
        &&& k.proc(i).app_id == self.proc(i).app_id
        &&& k.proc(i).mem_start == self.proc(i).mem_start
        &&& k.proc(i).mem_size == self.proc(i).mem_size
        &&& k.proc(i).app_break == self.proc(i).app_break
        &&& k.proc(i).flash_start == self.proc(i).flash_start
        &&& k.proc(i).flash_len == self.proc(i).flash_len
        &&& k.proc(i).entry_point == self.proc(i).entry_point
    }

    /// A kernel with `num_procs` empty slots, whose processes each queue at
    /// most `task_capacity` tasks.
    pub fn new(num_procs: usize, task_capacity: usize) -> (k: Kernel)
        ensures
            k.wf(),
            k.slots().len() == num_procs,
            forall|i: int| 0 <= i < num_procs ==> #[trigger] k.slots()[i].is_none(),
            k.spec_next_identifier() == 0,
            k.spec_task_capacity() == task_capacity,
            !k.spec_capabilities_issued(),
    {
        let mut processes: Vec<Option<Process>> = Vec::new();
        let mut i: usize = 0;
        while i < num_procs
            invariant
                i <= num_procs,
                processes@.len() == i,
                forall|j: int| 0 <= j < i ==> #[trigger] processes@[j].is_none(),
            decreases num_procs - i,
        {
            processes.push(None);
            i = i + 1;
        }
        let k = Kernel { processes, next_identifier: 0, task_capacity, capabilities_issued: false };
        assert forall|i: int| 0 <= i < num_procs implies !(#[trigger] k.occupied(i)) by {
            assert(k.processes@[i].is_none());
        }
        k
    }

    /// Hands out the capability tokens the first time it is called, and
    /// nothing ever after.
    pub fn take_capabilities(&mut self) -> (r: Option<Capabilities>)
        ensures
            r.is_some() == !old(self).spec_capabilities_issued(),
            final(self).spec_capabilities_issued(),
            final(self).slots() == old(self).slots(),
            final(self).spec_next_identifier() == old(self).spec_next_identifier(),
            final(self).spec_task_capacity() == old(self).spec_task_capacity(),
    {
        if self.capabilities_issued {
            None
        } else {
            self.capabilities_issued = true;
            Some(Capabilities::create())
        }
    }

    pub fn num_slots(&self) -> (r: usize)
        ensures
            r == self.slots().len(),
    {
        self.processes.len()
    }

    pub fn task_capacity(&self) -> (r: usize)
        ensures
            r == self.spec_task_capacity(),
    {
        self.task_capacity
    }

    /// The process in slot `i`, if any.
    pub fn process(&self, i: usize) -> (r: Option<&Process>)
        ensures
            r.is_some() == self.occupied(i as int),
            r.is_some() ==> *r.unwrap() == self.proc(i as int),
    {
        if i < self.processes.len() {
            self.processes[i].as_ref()
        } else {
            None
        }
    }

    pub fn is_live(&self, a: AppId) -> (r: bool)
        ensures
            r == self.spec_is_live(a),
    {
        match self.process(a.index) {
            Some(p) => p.app_id == a,
            None => false,
        }
    }

    /// Lifecycle state of the process in slot `i`.
    pub fn state(&self, i: usize) -> (r: Option<State>)
        ensures
            r.is_some() == self.occupied(i as int),
            r.is_some() ==> r.unwrap() == self.proc(i as int).state,
    {
        match self.process(i) {
            Some(p) => Some(p.state),
            None => None,
        }
    }

    proof fn lemma_replace_keeps_wf(&self, k: Kernel, i: int)
        requires
            self.wf(),
            k.same_except(*self, i),
            k.same_layout(*self, i),
            k.proc(i).wf(),
        ensures
            k.wf(),
    {
        assert forall|a: int, b: int|
            #![trigger k.slots()[a], k.slots()[b]]
            k.occupied(a) && k.occupied(b) && a != b implies disjoint(k.proc(a), k.proc(b)) by {
            assert(self.slots()[a].is_some() && self.slots()[b].is_some());
        }
        assert forall|a: int| #![trigger k.slots()[a]] k.occupied(a) implies {
            &&& k.proc(a).wf()
            &&& k.proc(a).app_id.index == a
            &&& k.proc(a).app_id.identifier < k.spec_next_identifier()
        } by {
            assert(self.slots()[a].is_some());
        }
    }

    /// Takes the process of slot `i` out of the table, to put it back with
    /// `put_back`.
    fn take_out(&mut self, i: usize) -> (p: Process)
        requires
            old(self).occupied(i as int),
        ensures
            p == old(self).proc(i as int),
            final(self).same_except(*old(self), i as int),
            final(self).slots()[i as int].is_none(),
    {
        let p = self.processes[i].take();
        p.unwrap()
    }

    fn put_back(&mut self, i: usize, p: Process)
        requires
            i < old(self).slots().len(),
        ensures
            final(self).same_except(*old(self), i as int),
            final(self).slots()[i as int] == Some(p),
    {
        self.processes.set(i, Some(p));
    }

    /// `k` is this kernel after `task` was offered to the queue of process
    /// `a`, with outcome `r`: refused with nothing changed when `a` is gone;
    /// otherwise appended when there was room, else dropped and counted.
    pub open spec fn enqueued(&self, k: Kernel, a: AppId, task: Task, r: bool) -> bool {
        &&& !self.spec_is_live(a) ==> !r && k == *self
        &&& self.spec_is_live(a) ==> {
            let i = a.index as int;
            let p = self.proc(i);
            let q = k.proc(i);
            &&& k.same_except(*self, i)
            &&& k.same_layout(*self, i)
            &&& q.state == p.state
            &&& q.kernel_break == p.kernel_break
            &&& q.restart_count == p.restart_count
            &&& q.context == p.context
            &&& q.tasks.spec_capacity() == p.tasks.spec_capacity()
            &&& r == (p.tasks@.len() < p.tasks.spec_capacity())
            &&& r ==> q.tasks@ == p.tasks@.push(task) && q.tasks.spec_dropped()
                == p.tasks.spec_dropped()
            &&& !r ==> q.tasks@ == p.tasks@ && q.tasks.spec_dropped() == if p.tasks.spec_dropped()
                < usize::MAX {
                p.tasks.spec_dropped() + 1
            } else {
                p.tasks.spec_dropped()
            }
        }
    }

    /// Queues `task` for the process `a`. Fails, changing nothing, when `a`
    /// no longer names a loaded process; fails and counts the drop when the
    /// process's queue is full.
    pub fn enqueue_task(&mut self, a: AppId, task: Task) -> (r: bool)
        requires
            old(self).wf(),
        ensures
            final(self).wf(),
            old(self).enqueued(*final(self), a, task, r),
    {
        if !self.is_live(a) {
            return false;
        }
        let mut p = self.take_out(a.index);
        let r = p.tasks.enqueue(task);
        self.put_back(a.index, p);
        proof {
            old(self).lemma_replace_keeps_wf(*self, a.index as int);
        }
        r
    }

    /// Removes the oldest task pending for the process in slot `i`.
    pub fn dequeue_task(&mut self, i: usize) -> (r: Option<Task>)
        requires
            old(self).wf(),
        ensures
            final(self).wf(),
            !old(self).occupied(i as int) ==> r.is_none() && *final(self) == *old(self),
            old(self).occupied(i as int) ==> {
                let p = old(self).proc(i as int);
                let q = final(self).proc(i as int);
                &&& final(self).same_except(*old(self), i as int)
                &&& final(self).same_layout(*old(self), i as int)
                &&& q.state == p.state
                &&& q.kernel_break == p.kernel_break
                &&& q.restart_count == p.restart_count
                &&& q.context == p.context
                &&& q.tasks.spec_capacity() == p.tasks.spec_capacity()
                &&& q.tasks.spec_dropped() == p.tasks.spec_dropped()
                &&& p.tasks@.len() == 0 ==> r.is_none() && q.tasks@ == p.tasks@
                &&& p.tasks@.len() > 0 ==> r == Some(p.tasks@[0]) && q.tasks@ == p.tasks@.drop_first()
            },
    {
        if i >= self.processes.len() || self.processes[i].is_none() {
            return None;
        }
        let mut p = self.take_out(i);
        let r = p.tasks.dequeue();
        self.put_back(i, p);
        proof {
            old(self).lemma_replace_keeps_wf(*self, i as int);
        }
        r
    }

    /// Sets the lifecycle state of the process in slot `i`; does nothing to
    /// an empty slot. A stopped process stays stopped.
    fn set_state(&mut self, i: usize, s: State)
        requires
            old(self).wf(),
        ensures
            final(self).wf(),
            !old(self).occupied(i as int) ==> *final(self) == *old(self),
            old(self).occupied(i as int) ==> {
                let p = old(self).proc(i as int);
                let q = final(self).proc(i as int);
                &&& final(self).same_except(*old(self), i as int)
                &&& final(self).same_layout(*old(self), i as int)
                &&& q.state == if p.state == State::Panicked {
                    State::Panicked
                } else {
                    s
                }
                &&& q.tasks == p.tasks
                &&& q.kernel_break == p.kernel_break
                &&& q.restart_count == p.restart_count
                &&& q.context == p.context
            },
    {
        if i >= self.processes.len() || self.processes[i].is_none() {
            return;
        }
        let mut p = self.take_out(i);
        if p.state != State::Panicked {
            p.state = s;
        }
        self.put_back(i, p);
        proof {
            old(self).lemma_replace_keeps_wf(*self, i as int);
        }
    }

    /// Marks the process in slot `i` as having given up its timeslice.
    pub fn set_yielded(&mut self, i: usize)
        requires
            old(self).wf(),
        ensures
            final(self).wf(),
            !old(self).occupied(i as int) ==> *final(self) == *old(self),
            old(self).occupied(i as int) ==> {
                let p = old(self).proc(i as int);
                let q = final(self).proc(i as int);
                &&& final(self).same_except(*old(self), i as int)
                &&& final(self).same_layout(*old(self), i as int)
                &&& q.state == if p.state == State::Panicked {
                    State::Panicked
                } else {
                    State::Yielded
                }
                &&& q.tasks == p.tasks
                &&& q.kernel_break == p.kernel_break
                &&& q.restart_count == p.restart_count
                &&& q.context == p.context
            },
    {
        self.set_state(i, State::Yielded);
    }

    /// Marks the process in slot `i` as waiting for a system call that is
    /// being served elsewhere.
    pub fn set_waiting_on_remote(&mut self, i: usize)
        requires
            old(self).wf(),
        ensures
            final(self).wf(),
            !old(self).occupied(i as int) ==> *final(self) == *old(self),
            old(self).occupied(i as int) ==> {
                let p = old(self).proc(i as int);
                let q = final(self).proc(i as int);
                &&& final(self).same_except(*old(self), i as int)
                &&& final(self).same_layout(*old(self), i as int)
                &&& q.state == if p.state == State::Panicked {
                    State::Panicked
                } else {
                    State::WaitingOnRemote
                }
                &&& q.tasks == p.tasks
                &&& q.kernel_break == p.kernel_break
                &&& q.restart_count == p.restart_count
                &&& q.context == p.context
            },
    {
        self.set_state(i, State::WaitingOnRemote);
    }

    /// Writes the word a process finds in its return register when resumed.
    pub fn set_syscall_return_value(&mut self, i: usize, value: usize)
        requires
            old(self).wf(),
        ensures
            final(self).wf(),
            !old(self).occupied(i as int) ==> *final(self) == *old(self),
            old(self).occupied(i as int) ==> {
                let p = old(self).proc(i as int);
                let q = final(self).proc(i as int);
                &&& final(self).same_except(*old(self), i as int)
                &&& final(self).same_layout(*old(self), i as int)
                &&& q.state == p.state
                &&& q.tasks == p.tasks
                &&& q.kernel_break == p.kernel_break
                &&& q.restart_count == p.restart_count
                &&& q.context == Context { r0: value, ..p.context }
            },
    {
        if i >= self.processes.len() || self.processes[i].is_none() {
            return;
        }
        let mut p = self.take_out(i);
        p.context.r0 = value;
        self.put_back(i, p);
        proof {
            old(self).lemma_replace_keeps_wf(*self, i as int);
        }
    }

    /// `k` is this kernel after the process in slot `i` was handed its
    /// oldest task `r`: nothing happens unless the process may run and has a
    /// task; then the task leaves the queue, a function call loads the
    /// saved registers, and the process is running.
    pub open spec fn delivered(&self, k: Kernel, i: int, r: Option<Task>) -> bool {
        &&& !self.occupied(i) || !self.proc(i).state.spec_runnable() || self.proc(i).tasks@.len() == 0
            ==> r.is_none() && k == *self
        &&& self.occupied(i) && self.proc(i).state.spec_runnable() && self.proc(i).tasks@.len() > 0 ==> {
            let p = self.proc(i);
            let q = k.proc(i);
            &&& k.same_except(*self, i)
            &&& k.same_layout(*self, i)
            &&& r == Some(p.tasks@[0])
            &&& q.tasks@ == p.tasks@.drop_first()
            &&& q.kernel_break == p.kernel_break
            &&& q.restart_count == p.restart_count
            &&& q.context == match p.tasks@[0] {
                Task::FunctionCall(c) => Context {
                    pc: c.pc,
                    r0: c.argument0,
                    r1: c.argument1,
                    r2: c.argument2,
                    r3: c.argument3,
                },
                _ => p.context,
            }
            &&& q.state == State::Running
        }
    }

    /// Hands the oldest pending task to the process in slot `i`, if it may
    /// run and has one: a function call loads its saved registers and makes
    /// it running.
    pub fn deliver_task(&mut self, i: usize) -> (r: Option<Task>)
        requires
            old(self).wf(),
        ensures
            final(self).wf(),
            old(self).delivered(*final(self), i as int, r),
    {
        match self.process(i) {
            None => {
                return None;
            },
            Some(p) => {
                if !p.state.is_runnable() || p.tasks.len() == 0 {
                    return None;
                }
            },
        }
        let mut p = self.take_out(i);
        let r = p.tasks.dequeue();
        match r {
            Some(Task::FunctionCall(c)) => {
                p.context = Context {
                    pc: c.pc,
                    r0: c.argument0,
                    r1: c.argument1,
                    r2: c.argument2,
                    r3: c.argument3,
                };
            },
            _ => {},
        }
        p.state = State::Running;
        self.put_back(i, p);
        proof {
            old(self).lemma_replace_keeps_wf(*self, i as int);
        }
        r
    }

    /// Applies the fault policy to the process in slot `i`. A restart clears
    /// its tasks and grants and starts it over from its entry point; a panic
    /// stops it for good. Returns the action taken; `None` for an empty slot
    /// or a process already stopped.
    pub fn handle_fault(&mut self, i: usize, policy: &ThresholdRestartThenPanic) -> (r: Option<FaultAction>)
        requires
            old(self).wf(),
        ensures
            final(self).wf(),
            !old(self).occupied(i as int) ==> r.is_none() && *final(self) == *old(self),
            old(self).occupied(i as int) ==> {
                let p = old(self).proc(i as int);
                let q = final(self).proc(i as int);
                let t = fault_transition(p.state, p.restart_count as nat, policy.threshold as nat);
                &&& final(self).same_except(*old(self), i as int)
                &&& final(self).same_layout(*old(self), i as int)
                &&& q.state == t.0
                &&& q.restart_count == t.1
                &&& r == if p.state == State::Panicked {
                    None
                } else if t.0 == State::Unstarted {
                    Some(FaultAction::Restart)
                } else {
                    Some(FaultAction::Panic)
                }
                &&& q.state == State::Unstarted ==> {
                    &&& q.tasks@ == Seq::<Task>::empty()
                    &&& q.kernel_break == p.mem_end()
                    &&& q.context == Context { pc: p.entry_point, r0: 0, r1: 0, r2: 0, r3: 0 }
                }
                &&& q.state == State::Panicked ==> q.tasks@ == Seq::<Task>::empty()
                    && q.kernel_break == p.kernel_break && q.context == p.context
            },
    {
        if i >= self.processes.len() || self.processes[i].is_none() {
            return None;
        }
        let mut p = self.take_out(i);
        if p.state == State::Panicked {
            p.tasks.clear();
            self.put_back(i, p);
            proof {
                old(self).lemma_replace_keeps_wf(*self, i as int);
            }
            return None;
        }
        let action = policy.action(p.restart_count);
        p.tasks.clear();
        match action {
            FaultAction::Restart => {
                p.state = State::Unstarted;
                p.restart_count = p.restart_count + 1;
                p.kernel_break = p.mem_start + p.mem_size;
                p.context = Context { pc: p.entry_point, r0: 0, r1: 0, r2: 0, r3: 0 };
            },
            FaultAction::Panic => {
                p.state = State::Panicked;
            },
        }
        self.put_back(i, p);
        proof {
            old(self).lemma_replace_keeps_wf(*self, i as int);
        }
        Some(action)
    }

    /// Puts a new process into the first empty slot. Its region is
    /// `[mem_start, mem_start + mem_size)`, of which the first `app_ram` bytes
    /// are its own and the rest is kept for grants. Returns `None`, changing
    /// nothing, when no slot is empty or identifiers have run out.
    pub(crate) fn insert_process(
        &mut self,
        flash_start: usize,
        flash_len: usize,
        entry_point: usize,
        mem_start: usize,
        mem_size: usize,
        app_ram: usize,
    ) -> (r: Option<AppId>)
        requires
            old(self).wf(),
            mem_start + mem_size <= usize::MAX,
            app_ram <= mem_size,
            forall|j: int|
                #[trigger] old(self).occupied(j) ==> old(self).proc(j).mem_end() <= mem_start || mem_start
                    + mem_size <= old(self).proc(j).mem_start,
        ensures
            final(self).wf(),
            r.is_none() ==> *final(self) == *old(self),
            r.is_none() ==> old(self).spec_next_identifier() == usize::MAX || forall|j: int|
                0 <= j < old(self).slots().len() ==> #[trigger] old(self).occupied(j),
            r.is_some() ==> {
                let a = r.unwrap();
                let i = a.index as int;
                let q = final(self).proc(i);
                &&& 0 <= i < old(self).slots().len()
                &&& !old(self).occupied(i)
                &&& forall|j: int| 0 <= j < i ==> #[trigger] old(self).occupied(j)
                &&& a.identifier == old(self).spec_next_identifier()
                &&& final(self).slots().len() == old(self).slots().len()
                &&& forall|j: int| 0 <= j < final(self).slots().len() && j != i ==> #[trigger] final(self).slots()[j] == old(self).slots()[j]
                &&& final(self).spec_next_identifier() == old(self).spec_next_identifier() + 1
                &&& final(self).spec_task_capacity() == old(self).spec_task_capacity()
                &&& final(self).spec_capabilities_issued() == old(self).spec_capabilities_issued()
                &&& final(self).occupied(i)
                &&& q.app_id == a
                &&& q.state == State::Unstarted
                &&& q.tasks@ == Seq::<Task>::empty()
                &&& q.tasks.spec_capacity() == old(self).spec_task_capacity()
                &&& q.flash_start == flash_start
                &&& q.flash_len == flash_len
                &&& q.entry_point == entry_point
                &&& q.mem_start == mem_start
                &&& q.mem_size == mem_size
                &&& q.app_break == mem_start + app_ram
                &&& q.kernel_break == mem_start + mem_size
                &&& q.restart_count == 0
            },
    {
        if self.next_identifier == usize::MAX {
            return None;
        }
        let mut i: usize = 0;
        while i < self.processes.len() && self.processes[i].is_some()
            invariant
                i <= self.processes@.len(),
                forall|j: int| 0 <= j < i ==> #[trigger] self.occupied(j),
            decreases self.processes@.len() - i,
        {
            i = i + 1;
        }
        if i == self.processes.len() {
            return None;
        }
        let a = AppId { index: i, identifier: self.next_identifier };
        let p = Process {
            app_id: a,
            state: State::Unstarted,
            tasks: TaskQueue::new(self.task_capacity),
            flash_start,
            flash_len,
            entry_point,
            mem_start,
            mem_size,
            app_break: mem_start + app_ram,
            kernel_break: mem_start + mem_size,
            restart_count: 0,
            context: Context { pc: entry_point, r0: 0, r1: 0, r2: 0, r3: 0 },
        };
        self.processes.set(i, Some(p));
        self.next_identifier = self.next_identifier + 1;
        proof {
            let k = *self;
            let o = *old(self);
            assert forall|x: int, y: int|
                #![trigger k.slots()[x], k.slots()[y]]
                k.occupied(x) && k.occupied(y) && x != y implies disjoint(k.proc(x), k.proc(y)) by {
                if x != i && y != i {
                    assert(o.slots()[x] == k.slots()[x] && o.slots()[y] == k.slots()[y]);
                } else if x == i {
                    assert(o.slots()[y] == k.slots()[y]);
                    assert(o.occupied(y));
                } else {
                    assert(o.slots()[x] == k.slots()[x]);
                    assert(o.occupied(x));
                }
            }
            assert forall|x: int| #![trigger k.slots()[x]] k.occupied(x) implies {
                &&& k.proc(x).wf()
                &&& k.proc(x).app_id.index == x
                &&& k.proc(x).app_id.identifier < k.spec_next_identifier()
            } by {
                if x != i {
                    assert(o.slots()[x] == k.slots()[x]);
                }
            }
        }
        Some(a)
    }

    /// Removes the process in slot `i`, leaving the slot empty. Callbacks
    /// and grant state made for it no longer reach anything.
    pub fn terminate(&mut self, _cap: &ProcessManagementCapability, i: usize)
        requires
            old(self).wf(),
        ensures
            final(self).wf(),
            !old(self).occupied(i as int) ==> *final(self) == *old(self),
            old(self).occupied(i as int) ==> final(self).same_except(*old(self), i as int) && final(self).slots()[i as int].is_none(),
    {
        if i >= self.processes.len() || self.processes[i].is_none() {
            return;
        }
        let _ = self.take_out(i);
        proof {
            let k = *self;
            let o = *old(self);
            assert forall|a: int, b: int|
                #![trigger k.slots()[a], k.slots()[b]]
                k.occupied(a) && k.occupied(b) && a != b implies disjoint(k.proc(a), k.proc(b)) by {
                assert(o.slots()[a] == k.slots()[a] && o.slots()[b] == k.slots()[b]);
            }
            assert forall|a: int| #![trigger k.slots()[a]] k.occupied(a) implies {
                &&& k.proc(a).wf()
                &&& k.proc(a).app_id.index == a
                &&& k.proc(a).app_id.identifier < k.spec_next_identifier()
            } by {
                assert(o.slots()[a] == k.slots()[a]);
            }
        }
    }

    /// Takes `size` bytes for a grant from the top of the free part of the
    /// process's region. Returns the start of the block, or `None` when the
    /// process has too little left.
    pub(crate) fn allocate_grant_memory(&mut self, a: AppId, size: usize) -> (r: Option<usize>)
        requires
            old(self).wf(),
            old(self).spec_is_live(a),
        ensures
            final(self).wf(),
            ({
                let i = a.index as int;
                let p = old(self).proc(i);
                let q = final(self).proc(i);
                &&& r.is_none() == (p.kernel_break - p.app_break < size)
                &&& r.is_none() ==> *final(self) == *old(self)
                &&& r.is_some() ==> {
                    &&& final(self).same_except(*old(self), i)
                    &&& final(self).same_layout(*old(self), i)
                    &&& q.state == p.state
                    &&& q.tasks == p.tasks
                    &&& q.restart_count == p.restart_count
                    &&& q.context == p.context
                    &&& q.kernel_break == p.kernel_break - size
                    &&& r.unwrap() == q.kernel_break
                }
            }),
    {
        let i = a.index;
        match self.process(i) {
            Some(p) => {
                if p.kernel_break - p.app_break < size {
                    return None;
                }
            },
            None => {
                return None;
            },
        }
        let mut p = self.take_out(i);
        p.kernel_break = p.kernel_break - size;
        let addr = p.kernel_break;
        self.put_back(i, p);
        proof {
            old(self).lemma_replace_keeps_wf(*self, i as int);
        }
        Some(addr)
    }

    /// Gives every process waiting on a remotely served system call the
    /// value `value` as its result and makes it running again. Returns how
    /// many were resumed.
    pub fn resume_waiting(&mut self, _cap: &ProcessManagementCapability, value: usize) -> (r: usize)
        requires
            old(self).wf(),
        ensures
            final(self).wf(),
            final(self).slots().len() == old(self).slots().len(),
            final(self).spec_next_identifier() == old(self).spec_next_identifier(),
            final(self).spec_task_capacity() == old(self).spec_task_capacity(),
            final(self).spec_capabilities_issued() == old(self).spec_capabilities_issued(),
            r == waiting_count(*old(self), old(self).slots().len() as int),
            forall|j: int|
                0 <= j < old(self).slots().len() ==> {
                    let waiting = old(self).occupied(j) && old(self).proc(j).state
                        == State::WaitingOnRemote;
                    &&& !waiting ==> #[trigger] final(self).slots()[j] == old(self).slots()[j]
                    &&& waiting ==> {
                        let p = old(self).proc(j);
                        let q = final(self).proc(j);
                        &&& final(self).same_layout(*old(self), j)
                        &&& q.state == State::Running
                        &&& q.context == Context { r0: value, ..p.context }
                        &&& q.tasks == p.tasks
                        &&& q.kernel_break == p.kernel_break
                        &&& q.restart_count == p.restart_count
                    }
                },
    {
        let mut count: usize = 0;
        let mut i: usize = 0;
        let n = self.processes.len();
        while i < n
            invariant
                n == old(self).slots().len(),
                i <= n,
                count == waiting_count(*old(self), i as int),
                count <= i,
                self.wf(),
                self.slots().len() == n,
                self.spec_next_identifier() == old(self).spec_next_identifier(),
                self.spec_task_capacity() == old(self).spec_task_capacity(),
                self.spec_capabilities_issued() == old(self).spec_capabilities_issued(),
                forall|j: int| i <= j < n ==> #[trigger] self.slots()[j] == old(self).slots()[j],
                forall|j: int|
                    0 <= j < i ==> {
                        let waiting = old(self).occupied(j) && old(self).proc(j).state
                            == State::WaitingOnRemote;
                        &&& !waiting ==> #[trigger] self.slots()[j] == old(self).slots()[j]
                        &&& waiting ==> {
                            let p = old(self).proc(j);
                            let q = self.proc(j);
                            &&& self.same_layout(*old(self), j)
                            &&& q.state == State::Running
                            &&& q.context == Context { r0: value, ..p.context }
                            &&& q.tasks == p.tasks
                            &&& q.kernel_break == p.kernel_break
                            &&& q.restart_count == p.restart_count
                        }
                    },
            decreases n - i,
        {
            let waiting = match self.process(i) {
                Some(p) => p.state == State::WaitingOnRemote,
                None => false,
            };
            if waiting {
                let ghost before = *self;
                let mut p = self.take_out(i);
                p.state = State::Running;
                p.context.r0 = value;
                self.put_back(i, p);
                proof {
                    before.lemma_replace_keeps_wf(*self, i as int);
                }
                count = count + 1;
            }
            i = i + 1;
        }
        count
    }
}

/// Offering a task to a queue keeps every process in its slot and incarnation.
pub(crate) proof fn lemma_enqueued_same_processes(k0: Kernel, k1: Kernel, a: AppId, t: Task, r: bool)
    requires
        k0.enqueued(k1, a, t, r),
    ensures
        k0.same_processes(k1),
{
    if k0.spec_is_live(a) {
        assert forall|j: int| 0 <= j < k0.slots().len() implies #[trigger] k1.occupied(j) == k0.occupied(j) by {
            if j != a.index {
                assert(k1.slots()[j] == k0.slots()[j]);
            }
        }
        assert forall|j: int| #[trigger] k0.occupied(j) implies k1.proc(j).app_id == k0.proc(j).app_id
            && k1.proc(j).restart_count == k0.proc(j).restart_count by {
            if j != a.index {
                assert(k1.slots()[j] == k0.slots()[j]);
            }
        }
    }
}

/// Memory that one process may touch is never part of another process's
/// region: not of what it may touch, nor of its grants.
pub proof fn lemma_isolation(k: Kernel, p: int, q: int, addr: int)
    requires
        k.wf(),
        k.occupied(p),
        k.occupied(q),
        p != q,
        k.proc(p).in_region(addr),
    ensures
        !k.proc(q).in_region(addr),
        !k.proc(q).spec_accessible(addr, 1),
        !(k.proc(q).kernel_break <= addr < k.proc(q).mem_end()),
{
    assert(disjoint(k.proc(p), k.proc(q)));
}

} // verus!
