use vstd::prelude::*;
use crate::capabilities::ProcessManagementCapability;
use crate::kernel::{Kernel, KERNEL_MEMORY};
use crate::process::{AppId, Process, State};

verus! {

/// Length of an image header: four little-endian 32-bit words, the magic
/// number, the image's total length in flash, the RAM the process needs and
/// the offset of its entry point within the image.
pub const HEADER_LEN: usize = 16;

/// First word of every valid image header.
pub const IMAGE_MAGIC: u32 = 0x5442_4631;

/// Why one image was not loaded.
#[derive(Clone, Copy, Debug, PartialEq, Eq, Structural)]
pub enum LoadError {
    /// The header claims more bytes than the flash region holds.
    NotEnoughFlash,
    /// The process needs more RAM than is left.
    NotEnoughMemory,
    /// The header is malformed; the image is skipped.
    InvalidHeader,
    /// Every process slot is taken.
    NoProcessSlots,
}

/// The little-endian word at `off`.
pub open spec fn le_u32(s: Seq<u8>, off: int) -> nat {
    (s[off] + s[off + 1] * 256 + s[off + 2] * 65536 + s[off + 3] * 16777216) as nat
}

/// Number of empty slots among the first `n`.
pub open spec fn empty_slots(s: Seq<Option<Process>>, n: int) -> nat
    decreases n,
{
    if n <= 0 {
        0
    } else {
        empty_slots(s, n - 1) + if s[n - 1].is_none() {
            1nat
        } else {
            0nat
        }
    }
}

/// What loading does with each image found from offset `off` on, while
/// memory is handed out from `mem` up to `mem_end` and `free` slots are
/// left. A loaded image is given as (offset in flash, length, entry offset,
/// RAM of its own, start of its memory).
pub open spec fn load_plan(flash: Seq<u8>, off: nat, mem: nat, mem_end: nat, free: nat) -> Seq<
    Result<(nat, nat, nat, nat, nat), LoadError>,
>
    decreases flash.len() - off,
{
    if off + HEADER_LEN > flash.len() {
        Seq::empty()
    } else {
        let magic = le_u32(flash, off as int);
        let total = le_u32(flash, off + 4int);
        let ram = le_u32(flash, off + 8int);
        let entry = le_u32(flash, off + 12int);
        if total < HEADER_LEN {
            Seq::empty()
        } else if off + total > flash.len() {
            seq![Err(LoadError::NotEnoughFlash)]
        } else if magic != IMAGE_MAGIC || entry >= total {
            seq![Err(LoadError::InvalidHeader)].add(load_plan(flash, off + total, mem, mem_end, free))
        } else if free == 0 {
            seq![Err(LoadError::NoProcessSlots)]
        } else if mem + ram + KERNEL_MEMORY > mem_end {
            seq![Err(LoadError::NotEnoughMemory)].add(load_plan(flash, off + total, mem, mem_end, free))
        } else {
            seq![Ok((off, total, entry, ram, mem))].add(
                load_plan(flash, off + total, (mem + ram + KERNEL_MEMORY) as nat, mem_end, (free - 1) as nat),
            )
        }
    }
}

/// The outcome `r` reported for an image agrees with the planned one `s`:
/// the same error, or a process laid out as planned.
pub open spec fn outcome_matches(
    k: Kernel,
    flash_base: nat,
    r: Result<AppId, LoadError>,
    s: Result<(nat, nat, nat, nat, nat), LoadError>,
) -> bool {
    match (r, s) {
        (Err(e), Err(f)) => e == f,
        (Ok(a), Ok(img)) => {
            let p = k.proc(a.index as int);
            &&& k.spec_is_live(a)
            &&& p.flash_start == flash_base + img.0
            &&& p.flash_len == img.1
            &&& p.entry_point == flash_base + img.0 + img.2
            &&& p.app_break == img.4 + img.3
            &&& p.mem_start == img.4
            &&& p.mem_size == img.3 + KERNEL_MEMORY
            &&& p.state == State::Unstarted
        },
        _ => false,
    }
}

proof fn lemma_empty_slots_update(s: Seq<Option<Process>>, i: int, x: Process, n: int)
    requires
        0 <= i < s.len(),
        s[i].is_none(),
        0 <= n <= s.len(),
    ensures
        empty_slots(s.update(i, Some(x)), n) + (if i < n {
            1nat
        } else {
            0nat
        }) == empty_slots(s, n),
    decreases n,
{
    if n > 0 {
        lemma_empty_slots_update(s, i, x, n - 1);
    }
}

proof fn lemma_all_full(s: Seq<Option<Process>>, n: int)
    requires
        0 <= n <= s.len(),
        forall|j: int| 0 <= j < n ==> #[trigger] s[j].is_some(),
    ensures
        empty_slots(s, n) == 0,
    decreases n,
{
    if n > 0 {
        assert(s[n - 1].is_some());
        lemma_all_full(s, n - 1);
    }
}

proof fn lemma_empty_slots_bound(s: Seq<Option<Process>>, n: int)
    requires
        0 <= n,
    ensures
        empty_slots(s, n) <= n,
    decreases n,
{
    if n > 0 {
        lemma_empty_slots_bound(s, n - 1);
    }
}

/// Reads the little-endian word at `off`.
fn read_le_u32(flash: &[u8], off: usize) -> (r: u32)
    requires
        off + 4 <= flash@.len(),
    ensures
        r == le_u32(flash@, off as int),
{
    let b0 = flash[off] as u64;
    let b1 = flash[off + 1] as u64;
    let b2 = flash[off + 2] as u64;
    let b3 = flash[off + 3] as u64;
    let v: u64 = b0 + b1 * 256 + b2 * 65536 + b3 * 16777216;
    v as u32
}

/// Loads the process images laid out back to back in `flash`, whose first
/// byte sits at address `flash_base`, giving each a part of the memory
/// `[mem_start, mem_start + mem_size)`. Returns one outcome per image in
/// flash order: a malformed image or one without memory is reported and
/// skipped; running out of flash or of process slots ends the load.
pub fn load_processes(
    kernel: &mut Kernel,
    _cap: &ProcessManagementCapability,
    flash: &[u8],
    flash_base: usize,
    mem_start: usize,
    mem_size: usize,
) -> (r: Vec<Result<AppId, LoadError>>)
    requires
        old(kernel).wf(),
        flash_base + flash@.len() <= usize::MAX,
        mem_start + mem_size <= usize::MAX,
        old(kernel).spec_next_identifier() + old(kernel).slots().len() < usize::MAX,
        forall|j: int|
            #[trigger] old(kernel).occupied(j) ==> old(kernel).proc(j).mem_end() <= mem_start || mem_start
                + mem_size <= old(kernel).proc(j).mem_start,
    ensures
        final(kernel).wf(),
        final(kernel).slots().len() == old(kernel).slots().len(),
        ({
            let plan = load_plan(
                flash@,
                0,
                mem_start as nat,
                (mem_start + mem_size) as nat,
                empty_slots(old(kernel).slots(), old(kernel).slots().len() as int),
            );
            &&& r@.len() == plan.len()
            &&& forall|j: int| 0 <= j < r@.len() ==> outcome_matches(*final(kernel), flash_base as nat, #[trigger] r@[j], plan[j])
        }),
{
    let ghost n = old(kernel).slots().len() as int;
    let ghost plan0 = load_plan(
        flash@,
        0,
        mem_start as nat,
        (mem_start + mem_size) as nat,
        empty_slots(old(kernel).slots(), n),
    );
    let mem_end: usize = mem_start + mem_size;
    let mut results: Vec<Result<AppId, LoadError>> = Vec::new();
    let mut off: usize = 0;
    let mut mem: usize = mem_start;
    let mut done = false;
    let ghost mut prefix: Seq<Result<(nat, nat, nat, nat, nat), LoadError>> = Seq::empty();
    proof {
        lemma_empty_slots_bound(kernel.slots(), n);
        assert(prefix.add(plan0) =~= plan0);
    }
    while !done
        invariant
            kernel.wf(),
            kernel.slots().len() == n,
            flash_base + flash@.len() <= usize::MAX,
            mem_end == mem_start + mem_size,
            mem_start <= mem <= mem_end,
            off <= flash@.len(),
            kernel.spec_next_identifier() + empty_slots(kernel.slots(), n) <= old(kernel).spec_next_identifier() + n,
            old(kernel).spec_next_identifier() + n < usize::MAX,
            empty_slots(kernel.slots(), n) <= n,
            forall|j: int| #[trigger] kernel.occupied(j) ==> kernel.proc(j).mem_end() <= mem || mem_end <= kernel.proc(j).mem_start,
            prefix.len() == results@.len(),
            forall|j: int| 0 <= j < results@.len() ==> outcome_matches(*kernel, flash_base as nat, #[trigger] results@[j], prefix[j]),
            forall|j: int| 0 <= j < results@.len() && (#[trigger] results@[j]).is_ok() ==> kernel.occupied(results@[j]->Ok_0.index as int),
            done ==> prefix == plan0,
            !done ==> prefix.add(load_plan(flash@, off as nat, mem as nat, mem_end as nat, empty_slots(kernel.slots(), n))) == plan0,
        decreases flash@.len() - off + if done { 0int } else { 1int },
    {
        let ghost free = empty_slots(kernel.slots(), n);
        let ghost rest = load_plan(flash@, off as nat, mem as nat, mem_end as nat, free);
        if flash.len() - off < HEADER_LEN {
            done = true;
            proof {
                assert(rest == Seq::<Result<(nat, nat, nat, nat, nat), LoadError>>::empty());
                assert(prefix.add(rest) =~= prefix);
            }
        } else {
            let magic = read_le_u32(flash, off);
            let total = read_le_u32(flash, off + 4) as usize;
            let ram = read_le_u32(flash, off + 8) as usize;
            let entry = read_le_u32(flash, off + 12) as usize;
            if total < HEADER_LEN {
                done = true;
                proof {
                    assert(prefix.add(rest) =~= prefix);
                }
            } else if total > flash.len() - off {
                results.push(Err(LoadError::NotEnoughFlash));
                done = true;
                proof {
                    prefix = prefix.push(Err(LoadError::NotEnoughFlash));
                    assert(prefix =~= plan0);
                }
            } else if magic != IMAGE_MAGIC || entry >= total {
                results.push(Err(LoadError::InvalidHeader));
                proof {
                    let ghost old_prefix = prefix;
                    prefix = prefix.push(Err(LoadError::InvalidHeader));
                    assert(old_prefix.add(rest) =~= prefix.add(load_plan(flash@, (off + total) as nat, mem as nat, mem_end as nat, free)));
                }
                off = off + total;
            } else if ram > mem_end - mem || mem_end - mem - ram < KERNEL_MEMORY {
                if kernel_has_no_free_slot(kernel) {
                    results.push(Err(LoadError::NoProcessSlots));
                    done = true;
                    proof {
                        prefix = prefix.push(Err(LoadError::NoProcessSlots));
                        assert(prefix =~= plan0);
                    }
                } else {
                    results.push(Err(LoadError::NotEnoughMemory));
                    proof {
                        let ghost old_prefix = prefix;
                        prefix = prefix.push(Err(LoadError::NotEnoughMemory));
                        assert(old_prefix.add(rest) =~= prefix.add(load_plan(flash@, (off + total) as nat, mem as nat, mem_end as nat, free)));
                    }
                    off = off + total;
                }
            } else {
                let size = ram + KERNEL_MEMORY;
                let ghost k0 = *kernel;
                let inserted = kernel.insert_process(
                    flash_base + off,
                    total,
                    flash_base + off + entry,
                    mem,
                    size,
                    ram,
                );
                match inserted {
                    None => {
                        proof {
                            lemma_all_full(k0.slots(), n);
                        }
                        results.push(Err(LoadError::NoProcessSlots));
                        done = true;
                        proof {
                            prefix = prefix.push(Err(LoadError::NoProcessSlots));
                            assert(prefix =~= plan0);
                        }
                    },
                    Some(a) => {
                        proof {
                            let i = a.index as int;
                            let x = kernel.proc(i);
                            assert(kernel.slots() =~= k0.slots().update(i, Some(x)));
                            lemma_empty_slots_update(k0.slots(), i, x, n);
                            let ghost old_prefix = prefix;
                            prefix = prefix.push(Ok((off as nat, total as nat, entry as nat, ram as nat, mem as nat)));
                            assert(old_prefix.add(rest) =~= prefix.add(load_plan(flash@, (off + total) as nat, (mem + size) as nat, mem_end as nat, (free - 1) as nat)));
                            assert forall|j: int| 0 <= j < results@.len() implies outcome_matches(*kernel, flash_base as nat, #[trigger] results@[j], prefix[j]) by {
                                if results@[j].is_ok() {
                                    assert(k0.occupied(results@[j]->Ok_0.index as int));
                                    assert(kernel.slots()[results@[j]->Ok_0.index as int] == k0.slots()[results@[j]->Ok_0.index as int]);
                                }
                            }
                            assert forall|j: int| #[trigger] kernel.occupied(j) implies kernel.proc(j).mem_end() <= mem + size || mem_end <= kernel.proc(j).mem_start by {
                                if j != i {
                                    assert(kernel.slots()[j] == k0.slots()[j]);
                                    assert(k0.occupied(j));
                                } else {
                                    assert(kernel.proc(j).mem_start == mem);
                                    assert(kernel.proc(j).mem_size == size);
                                }
                            }
                        }
                        results.push(Ok(a));
                        mem = mem + size;
                        off = off + total;
                    },
                }
            }
        }
    }
    results
}

/// Whether every slot of the kernel is taken.
fn kernel_has_no_free_slot(kernel: &Kernel) -> (r: bool)
    requires
        kernel.wf(),
    ensures
        r == (empty_slots(kernel.slots(), kernel.slots().len() as int) == 0),
{
    let n = kernel.num_slots();
    let mut i: usize = 0;
    let mut found = false;
    while i < n
        invariant
            i <= n,
            n == kernel.slots().len(),
            found == (empty_slots(kernel.slots(), i as int) > 0),
        decreases n - i,
    {
        if kernel.process(i).is_none() {
            found = true;
        }
        i = i + 1;
    }
    !found
}

/// A malformed image does not end the load: it is reported, and loading goes
/// on with the image after it, with the same memory and slots.
pub proof fn lemma_invalid_image_skipped(flash: Seq<u8>, off: nat, mem: nat, mem_end: nat, free: nat)
    requires
        off + HEADER_LEN <= flash.len(),
        le_u32(flash, off + 4int) >= HEADER_LEN,
        off + le_u32(flash, off + 4int) <= flash.len(),
        le_u32(flash, off as int) != IMAGE_MAGIC || le_u32(flash, off + 12int) >= le_u32(flash, off + 4int),
    ensures
        load_plan(flash, off, mem, mem_end, free) == seq![Err::<(nat, nat, nat, nat, nat), LoadError>(LoadError::InvalidHeader)].add(
            load_plan(flash, off + le_u32(flash, off + 4int), mem, mem_end, free),
        ),
{
}

} // verus!
