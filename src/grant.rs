use vstd::prelude::*;
use crate::capabilities::MemoryAllocationCapability;
use crate::kernel::Kernel;
use crate::process::AppId;
use crate::returncode::ReturnCode;

verus! {

/// Why a grant could not be entered.
#[derive(Clone, Copy, Debug, PartialEq, Eq, Structural)]
pub enum GrantError {
    /// The process is gone, or was never loaded.
    NoSuchApp,
    /// The process has no memory left for the grant.
    OutOfMemory,
}

impl GrantError {
    pub open spec fn spec_return_code(self) -> ReturnCode {
        match self {
            GrantError::NoSuchApp => ReturnCode::EINVAL,
            GrantError::OutOfMemory => ReturnCode::ENOMEM,
        }
    }

    /// The code a process is given when a grant cannot be entered for it.
    pub fn into_return_code(self) -> (r: ReturnCode)
        ensures
            r == self.spec_return_code(),
    {
        match self {
            GrantError::NoSuchApp => ReturnCode::EINVAL,
            GrantError::OutOfMemory => ReturnCode::ENOMEM,
        }
    }
}

/// The block a grant holds for one process, with the incarnation of the
/// process it was made for.
#[derive(Clone, Copy)]
pub struct GrantEntry<T> {
    pub identifier: usize,
    pub incarnation: usize,
    pub address: usize,
    pub data: T,
}

/// Per-process private state of one driver. The state of a process lives in
/// that process's memory, is made on first use, and is forgotten when the
/// process restarts or goes away.
pub struct Grant<T> {
    size: usize,
    entries: Vec<Option<GrantEntry<T>>>,
}

impl<T: Copy> Grant<T> {
    pub closed spec fn spec_size(&self) -> nat {
        self.size as nat
    }

    pub closed spec fn entries(&self) -> Seq<Option<GrantEntry<T>>> {
        self.entries@
    }

    /// The entry of slot `i`, if it belongs to the process now in that slot.
    pub open spec fn current_entry(&self, k: Kernel, i: int) -> Option<GrantEntry<T>> {
        if k.occupied(i) && 0 <= i < self.entries().len() && self.entries()[i].is_some() && {
            let e = self.entries()[i].unwrap();
            &&& e.identifier == k.proc(i).app_id.identifier
            &&& e.incarnation == k.proc(i).restart_count
        } {
            self.entries()[i]
        } else {
            None
        }
    }

    /// What the grant holds for process `a`, if anything.
    pub open spec fn stored(&self, k: Kernel, a: AppId) -> Option<T> {
        if k.spec_is_live(a) && self.current_entry(k, a.index as int).is_some() {
            Some(self.current_entry(k, a.index as int).unwrap().data)
        } else {
            None
        }
    }

    /// Whether entering for `a` finds the process at all.
    pub open spec fn reaches(&self, k: Kernel, a: AppId) -> bool {
        k.spec_is_live(a) && a.index < self.entries().len()
    }

    /// Whether process `a` has room for a new block of this grant.
    pub open spec fn has_room(&self, k: Kernel, a: AppId) -> bool {
        k.proc(a.index as int).kernel_break - k.proc(a.index as int).app_break >= self.spec_size()
    }

    /// The result of entering for `a` with `init` as the value of a block
    /// made on the way.
    pub open spec fn enter_result(&self, k: Kernel, a: AppId, init: T) -> Result<T, GrantError> {
        if !self.reaches(k, a) {
            Err(GrantError::NoSuchApp)
        } else if self.stored(k, a).is_some() {
            Ok(self.stored(k, a).unwrap())
        } else if self.has_room(k, a) {
            Ok(init)
        } else {
            Err(GrantError::OutOfMemory)
        }
    }

    /// Makes sure the block of process `a` exists, making it with `value`
    /// when it does not. Returns whether the block was there before.
    fn ensure_block(&mut self, kernel: &mut Kernel, a: AppId, value: T) -> (r: Result<bool, GrantError>)
        requires
            old(kernel).wf(),
        ensures
            final(kernel).wf(),
            final(self).spec_size() == old(self).spec_size(),
            final(self).entries().len() == old(self).entries().len(),
            forall|j: int| 0 <= j < old(self).entries().len() && j != a.index ==> #[trigger] final(self).entries()[j] == old(self).entries()[j],
            forall|b: AppId| b.index != a.index ==> final(self).stored(*final(kernel), b) == old(self).stored(*old(kernel), b),
            final(kernel).spec_is_live(a) == old(kernel).spec_is_live(a),
            final(kernel).slots().len() == old(kernel).slots().len(),
            r == match old(self).enter_result(*old(kernel), a, value) {
                Ok(_) => Ok::<bool, GrantError>(old(self).stored(*old(kernel), a).is_some()),
                Err(e) => Err(e),
            },
            r.is_err() || r == Ok::<bool, GrantError>(true) ==> *final(kernel) == *old(kernel) && *final(self) == *old(self),
            r == Ok::<bool, GrantError>(false) ==> {
                let i = a.index as int;
                &&& final(self).stored(*final(kernel), a) == Some(value)
                &&& final(self).entries()[i].unwrap().address == final(kernel).proc(i).kernel_break
                &&& final(kernel).same_except(*old(kernel), i)
                &&& final(kernel).same_layout(*old(kernel), i)
                &&& final(kernel).proc(i).kernel_break == old(kernel).proc(i).kernel_break - old(self).spec_size()
                &&& final(kernel).proc(i).state == old(kernel).proc(i).state
                &&& final(kernel).proc(i).tasks == old(kernel).proc(i).tasks
                &&& final(kernel).proc(i).restart_count == old(kernel).proc(i).restart_count
                &&& final(kernel).proc(i).context == old(kernel).proc(i).context
            },
    {
        if !kernel.is_live(a) || a.index >= self.entries.len() {
            return Err(GrantError::NoSuchApp);
        }
        let i = a.index;
        let incarnation = match kernel.process(i) {
            Some(p) => p.restart_count,
            None => 0,
        };
        match &self.entries[i] {
            Some(e) => {
                if e.identifier == a.identifier && e.incarnation == incarnation {
                    return Ok(true);
                }
            },
            None => {},
        }
        match kernel.allocate_grant_memory(a, self.size) {
            None => Err(GrantError::OutOfMemory),
            Some(address) => {
                let ghost k0 = *old(kernel);
                self.entries.set(
                    i,
                    Some(GrantEntry { identifier: a.identifier, incarnation, address, data: value }),
                );
                proof {
                    let k1 = *kernel;
                    assert forall|b: AppId| b.index != a.index implies self.stored(k1, b) == old(self).stored(k0, b) by {
                        if 0 <= b.index < k1.slots().len() {
                            assert(k1.slots()[b.index as int] == k0.slots()[b.index as int]);
                        }
                        if 0 <= b.index < self.entries().len() {
                            assert(old(self).entries()[b.index as int] == self.entries()[b.index as int]);
                        }
                    }
                }
                Ok(false)
            },
        }
    }

    /// Gives the state held for process `a`, making it from `init` on the
    /// first call for that process. Fails when `a` is gone, or when the
    /// process has no memory left for a new block; nothing changes then.
    pub fn enter(&mut self, kernel: &mut Kernel, a: AppId, init: T) -> (r: Result<T, GrantError>)
        requires
            old(kernel).wf(),
        ensures
            final(kernel).wf(),
            final(self).spec_size() == old(self).spec_size(),
            r == old(self).enter_result(*old(kernel), a, init),
            final(self).entries().len() == old(self).entries().len(),
            r.is_err() || old(self).stored(*old(kernel), a).is_some() ==> *final(kernel) == *old(kernel)
                && *final(self) == *old(self),
            r.is_ok() ==> final(self).stored(*final(kernel), a) == Some(r.unwrap()),
            r.is_ok() && old(self).stored(*old(kernel), a).is_none() ==> {
                let i = a.index as int;
                &&& final(kernel).same_except(*old(kernel), i)
                &&& final(kernel).same_layout(*old(kernel), i)
                &&& final(kernel).proc(i).kernel_break == old(kernel).proc(i).kernel_break - old(self).spec_size()
                &&& final(kernel).proc(i).state == old(kernel).proc(i).state
                &&& final(kernel).proc(i).tasks == old(kernel).proc(i).tasks
                &&& final(self).current_entry(*final(kernel), i).unwrap().address == final(kernel).proc(i).kernel_break
            },
            forall|b: AppId| b.index != a.index ==> final(self).stored(*final(kernel), b) == old(self).stored(*old(kernel), b),
            final(kernel).spec_is_live(a) == old(kernel).spec_is_live(a),
            final(kernel).slots().len() == old(kernel).slots().len(),
    {
        match self.ensure_block(kernel, a, init) {
            Err(e) => Err(e),
            Ok(_) => {
                let i = a.index;
                match &self.entries[i] {
                    Some(e) => Ok(e.data),
                    None => Ok(init),
                }
            },
        }
    }

    /// Replaces the state held for process `a` by `value`, making the block
    /// first when there is none. Fails as `enter` does.
    pub fn update(&mut self, kernel: &mut Kernel, a: AppId, value: T) -> (r: Result<(), GrantError>)
        requires
            old(kernel).wf(),
        ensures
            final(kernel).wf(),
            final(self).spec_size() == old(self).spec_size(),
            r.is_ok() == old(self).enter_result(*old(kernel), a, value).is_ok(),
            r.is_err() ==> r == Err::<(), GrantError>(old(self).enter_result(*old(kernel), a, value)->Err_0)
                && *final(kernel) == *old(kernel) && *final(self) == *old(self),
            r.is_ok() ==> final(self).stored(*final(kernel), a) == Some(value),
            final(self).entries().len() == old(self).entries().len(),
            old(self).stored(*old(kernel), a).is_some() ==> *final(kernel) == *old(kernel),
            r.is_ok() && old(self).stored(*old(kernel), a).is_none() ==> {
                let i = a.index as int;
                &&& final(kernel).same_except(*old(kernel), i)
                &&& final(kernel).same_layout(*old(kernel), i)
                &&& final(kernel).proc(i).kernel_break == old(kernel).proc(i).kernel_break - old(self).spec_size()
                &&& final(kernel).proc(i).state == old(kernel).proc(i).state
                &&& final(kernel).proc(i).tasks == old(kernel).proc(i).tasks
                &&& final(self).current_entry(*final(kernel), i).unwrap().address == final(kernel).proc(i).kernel_break
            },
            forall|b: AppId| b.index != a.index ==> final(self).stored(*final(kernel), b) == old(self).stored(*old(kernel), b),
            final(kernel).spec_is_live(a) == old(kernel).spec_is_live(a),
            final(kernel).slots().len() == old(kernel).slots().len(),
    {
        match self.ensure_block(kernel, a, value) {
            Err(e) => Err(e),
            Ok(_) => {
                let i = a.index;
                let e = self.entries[i].unwrap();
                self.entries.set(i, Some(GrantEntry { data: value, ..e }));
                Ok(())
            },
        }
    }

    /// Number of process slots the grant has room for.
    pub fn num_slots(&self) -> (r: usize)
        ensures
            r == self.entries().len(),
    {
        self.entries.len()
    }

    /// What the grant holds for process `a`, without making a block.
    pub fn get(&self, kernel: &Kernel, a: AppId) -> (r: Option<T>)
        requires
            kernel.wf(),
        ensures
            r == self.stored(*kernel, a),
    {
        if !kernel.is_live(a) || a.index >= self.entries.len() {
            return None;
        }
        let incarnation = match kernel.process(a.index) {
            Some(p) => p.restart_count,
            None => 0,
        };
        match &self.entries[a.index] {
            Some(e) => {
                if e.identifier == a.identifier && e.incarnation == incarnation {
                    Some(e.data)
                } else {
                    None
                }
            },
            None => None,
        }
    }

    /// The processes, in slot order, for which this grant holds state.
    pub open spec fn users_upto(&self, k: Kernel, n: int) -> Seq<AppId>
        decreases n,
    {
        if n <= 0 {
            Seq::empty()
        } else if self.current_entry(k, n - 1).is_some() {
            self.users_upto(k, n - 1).push(k.proc(n - 1).app_id)
        } else {
            self.users_upto(k, n - 1)
        }
    }

    /// Every process that has entered this grant and is still the same
    /// incarnation, in slot order. Computed anew from the process table on
    /// each call.
    pub fn users(&self, kernel: &Kernel) -> (r: Vec<AppId>)
        requires
            kernel.wf(),
        ensures
            r@ == self.users_upto(*kernel, self.entries().len() as int),
    {
        let mut r: Vec<AppId> = Vec::new();
        let mut i: usize = 0;
        let n = self.entries.len();
        while i < n
            invariant
                i <= n,
                n == self.entries().len(),
                r@ == self.users_upto(*kernel, i as int),
            decreases n - i,
        {
            match kernel.process(i) {
                Some(p) => match &self.entries[i] {
                    Some(e) => {
                        if e.identifier == p.app_id.identifier && e.incarnation == p.restart_count {
                            r.push(p.app_id);
                        }
                    },
                    None => {},
                },
                None => {},
            }
            i = i + 1;
        }
        r
    }
}

impl Kernel {
    /// A new grant whose block takes `size` bytes of each process that uses it.
    pub fn create_grant<T: Copy>(&self, _cap: &MemoryAllocationCapability, size: usize) -> (g: Grant<T>)
        requires
            self.wf(),
        ensures
            g.spec_size() == size,
            g.entries().len() == self.slots().len(),
            forall|a: AppId| g.stored(*self, a).is_none(),
    {
        let mut entries: Vec<Option<GrantEntry<T>>> = Vec::new();
        let n = self.num_slots();
        let mut i: usize = 0;
        while i < n
            invariant
                i <= n,
                entries@.len() == i,
                forall|j: int| 0 <= j < i ==> #[trigger] entries@[j].is_none(),
            decreases n - i,
        {
            entries.push(None);
            i = i + 1;
        }
        let g = Grant { size, entries };
        assert forall|j: int| #![trigger g.entries()[j]] 0 <= j < n implies g.entries()[j].is_none() by {
            assert(g.entries@[j].is_none());
        }
        g
    }
}

/// What a grant holds depends only on which processes are loaded, and in
/// which incarnation.
pub proof fn lemma_stored_same_processes<T: Copy>(g: Grant<T>, k0: Kernel, k1: Kernel, b: AppId)
    requires
        k0.same_processes(k1),
    ensures
        g.stored(k1, b) == g.stored(k0, b),
{
    if 0 <= b.index < k0.slots().len() {
        assert(k1.occupied(b.index as int) == k0.occupied(b.index as int));
    }
}

/// Two successive entries of the same grant for the same process reach the
/// same state: what the first one left is what the second one sees.
pub proof fn lemma_grant_round_trip<T: Copy>(g: Grant<T>, k: Kernel, a: AppId, value: T, init: T)
    requires
        g.stored(k, a) == Some(value),
    ensures
        g.enter_result(k, a, init) == Ok::<T, GrantError>(value),
{
}

} // verus!
