use vstd::prelude::*;
use crate::kernel::Kernel;

verus! {

/// Slot `i` holds a process the scheduler may dispatch.
pub open spec fn ready(k: Kernel, i: int) -> bool {
    k.occupied(i) && k.proc(i).state.spec_runnable()
}

/// Position of the first slot in `q`, from position `from` on, that is ready.
pub open spec fn first_ready(q: Seq<usize>, k: Kernel, from: int) -> Option<int>
    decreases q.len() - from,
{
    if from < 0 || from >= q.len() {
        None
    } else if ready(k, q[from] as int) {
        Some(from)
    } else {
        first_ready(q, k, from + 1)
    }
}

/// `q` with its first `j + 1` entries moved, in order, to the back.
pub open spec fn rotate(q: Seq<usize>, j: int) -> Seq<usize> {
    q.subrange(j + 1, q.len() as int).add(q.subrange(0, j + 1))
}

/// One decision of the scheduler on queue `q`: the slot dispatched and the
/// queue afterwards.
pub open spec fn rr_step(q: Seq<usize>, k: Kernel) -> (Option<usize>, Seq<usize>) {
    match first_ready(q, k, 0) {
        None => (None, q),
        Some(j) => (Some(q[j]), rotate(q, j)),
    }
}

/// The slots dispatched by `m` decisions in a row while the processes keep
/// their states.
pub open spec fn rr_picks(q: Seq<usize>, k: Kernel, m: nat) -> Seq<Option<usize>>
    decreases m,
{
    if m == 0 {
        Seq::empty()
    } else {
        let s = rr_step(q, k);
        seq![s.0].add(rr_picks(s.1, k, (m - 1) as nat))
    }
}

/// Round-robin over the process slots: the queue is walked from the front,
/// and the slot dispatched, with every slot passed over on the way, goes to
/// the back.
pub struct RoundRobinScheduler {
    queue: Vec<usize>,
}

impl View for RoundRobinScheduler {
    type V = Seq<usize>;

    closed spec fn view(&self) -> Seq<usize> {
        self.queue@
    }
}

impl RoundRobinScheduler {
    /// A scheduler over every slot of `kernel`, in slot order.
    pub fn new(kernel: &Kernel) -> (s: RoundRobinScheduler)
        ensures
            s@.len() == kernel.slots().len(),
            forall|i: int| 0 <= i < s@.len() ==> #[trigger] s@[i] == i,
    {
        let n = kernel.num_slots();
        let mut queue: Vec<usize> = Vec::new();
        let mut i: usize = 0;
        while i < n
            invariant
                i <= n,
                queue@.len() == i,
                forall|j: int| 0 <= j < i ==> #[trigger] queue@[j] == j,
            decreases n - i,
        {
            queue.push(i);
            i = i + 1;
        }
        RoundRobinScheduler { queue }
    }

    /// Picks the next process to run: the first ready slot in the queue.
    /// Returns `None`, leaving the queue as it is, when no slot is ready.
    pub fn next(&mut self, kernel: &Kernel) -> (r: Option<usize>)
        ensures
            (r, final(self)@) == rr_step(old(self)@, *kernel),
    {
        let n = self.queue.len();
        let mut j: usize = 0;
        while j < n && !self.is_ready(kernel, j)
            invariant
                n == self.queue@.len(),
                j <= n,
                self.queue@ == old(self)@,
                first_ready(self.queue@, *kernel, 0) == first_ready(self.queue@, *kernel, j as int),
            decreases n - j,
        {
            j = j + 1;
        }
        if j == n {
            return None;
        }
        let slot = self.queue[j];
        let mut rotated: Vec<usize> = Vec::new();
        let mut m: usize = j + 1;
        while m < n
            invariant
                j < n,
                n == self.queue@.len(),
                j + 1 <= m <= n,
                rotated@ == self.queue@.subrange(j + 1, m as int),
            decreases n - m,
        {
            rotated.push(self.queue[m]);
            m = m + 1;
        }
        let mut m: usize = 0;
        while m <= j
            invariant
                j < n,
                n == self.queue@.len(),
                m <= j + 1,
                rotated@ == self.queue@.subrange(j + 1, n as int).add(self.queue@.subrange(0, m as int)),
            decreases j + 1 - m,
        {
            rotated.push(self.queue[m]);
            proof {
                assert(self.queue@.subrange(0, m + 1) =~= self.queue@.subrange(0, m as int).push(self.queue@[m as int]));
            }
            m = m + 1;
        }
        self.queue = rotated;
        Some(slot)
    }

    fn is_ready(&self, kernel: &Kernel, j: usize) -> (r: bool)
        requires
            j < self.queue@.len(),
        ensures
            r == ready(*kernel, self.queue@[j as int] as int),
    {
        match kernel.state(self.queue[j]) {
            Some(s) => s.is_runnable(),
            None => false,
        }
    }
}

/// Round-robin fairness: while every process in the queue stays ready, the
/// first `m` decisions, for any `m` up to the queue's length, dispatch the
/// first `m` queued slots in order, so no slot is dispatched twice before
/// every one has been dispatched once.
pub proof fn lemma_round_robin_fair(q: Seq<usize>, k: Kernel, m: nat)
    requires
        m <= q.len(),
        forall|i: int| 0 <= i < q.len() ==> ready(k, #[trigger] q[i] as int),
    ensures
        rr_picks(q, k, m) == q.take(m as int).map_values(|x: usize| Some(x)),
    decreases m,
{
    if m > 0 {
        assert(first_ready(q, k, 0) == Some(0int));
        let q2 = rotate(q, 0);
        assert forall|i: int| 0 <= i < q2.len() implies ready(k, #[trigger] q2[i] as int) by {
            if i < q.len() - 1 {
                assert(q2[i] == q[i + 1]);
            } else {
                assert(q2[i] == q[0]);
            }
        }
        lemma_round_robin_fair(q2, k, (m - 1) as nat);
        assert(rr_picks(q, k, m) =~= q.take(m as int).map_values(|x: usize| Some(x)));
    }
}

} // verus!
