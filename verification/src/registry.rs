//! Device registry: one consumed-memory counter per accelerator device,
//! a least-loaded selector with a bounded reservation, and a release path.
//!
//! The registry is an explicitly owned vector of slot counters handed to each
//! operation by the caller, so it can be created fresh per test or shared by
//! the surrounding application. Capacity (`gpu_mem`) is passed in on every
//! call rather than stored: configuration reads are live, while the slot
//! count and baseline are fixed when the registry is built.

use vstd::prelude::*;
use vstd::pervasive::VecAdditionalExecFns;
use vstd::wrapping::usize_specs;

verus! {

/// Initial consumed-memory value of every slot: a fixed non-zero baseline
/// standing for an assumed pre-existing reservation on each device.
pub const SLOT_BASELINE: usize = 181;

/// `i` is the index `min_index` reports for `s`: it holds a minimal value,
/// and every earlier slot holds a strictly larger one (ties break to the
/// lowest index).
pub open spec fn is_first_min_index(s: Seq<usize>, i: int) -> bool {
    &&& 0 <= i < s.len()
    &&& forall|j: int| 0 <= j < s.len() ==> s[i] <= #[trigger] s[j]
    &&& forall|j: int| 0 <= j < i ==> #[trigger] s[j] > s[i]
}

/// A reservation of `consume_mem` fits on a slot holding `consumed` when the
/// new total stays strictly under the per-device capacity.
pub open spec fn reserve_fits(consumed: usize, gpu_mem: usize, consume_mem: usize) -> bool {
    consumed + consume_mem < gpu_mem
}

/// Build the registry: one slot per device, each starting at the baseline.
/// The capacity argument does not shape the registry and is ignored here:
/// capacity is re-read live on every reservation instead, so only the slot
/// count and the baseline are fixed at construction.
pub fn init_all_gpus(gpu_num: usize, _gpu_mem: usize) -> (all_gpus: Vec<usize>)
    ensures
        all_gpus@.len() == gpu_num,
        forall|i: int| 0 <= i < all_gpus@.len() ==> all_gpus@[i] == SLOT_BASELINE,
{
    let mut all_gpus: Vec<usize> = Vec::new();
    for i in 0..gpu_num
        invariant
            all_gpus@.len() == i,
            forall|j: int| 0 <= j < i ==> all_gpus@[j] == SLOT_BASELINE,
    {
        all_gpus.push(SLOT_BASELINE);
    }
    all_gpus
}

/// Snapshot of all slot counters, one per slot, in slot order. Each slot is
/// read independently; the result is not one atomic snapshot of the whole
/// registry when the registry is shared.
pub fn get_all_gpus_consumed_mem(all_gpus: &Vec<usize>) -> (res: Vec<usize>)
    ensures
        res@ == all_gpus@,
{
    let mut res: Vec<usize> = Vec::new();
    let n = all_gpus.len();
    for i in 0..n
        invariant
            n == all_gpus@.len(),
            res@ == all_gpus@.subrange(0, i as int),
    {
        res.push(all_gpus[i]);
        proof {
            assert(res@ =~= all_gpus@.subrange(0, i + 1));
        }
    }
    proof {
        assert(all_gpus@.subrange(0, n as int) =~= all_gpus@);
    }
    res
}

/// Pick the least-loaded slot: returns `(slot index, device identifier)` for
/// the first slot holding the minimum consumed value. `gpu_list` maps slot
/// indexes to external device identifiers.
pub fn min_index(array: &Vec<usize>, gpu_list: &Vec<usize>) -> (res: (usize, usize))
    requires
        array@.len() >= 1,
        gpu_list@.len() == array@.len(),
    ensures
        is_first_min_index(array@, res.0 as int),
        res.1 == gpu_list@[res.0 as int],
{
    let mut min_gpu_idx: usize = 0;
    let mut min_gpu_id: usize = gpu_list[0];
    let mut min_gpu_mem: usize = array[0];

    let n = array.len();
    for i in 1..n
        invariant
            n == array@.len(),
            gpu_list@.len() == array@.len(),
            min_gpu_idx < i <= n,
            min_gpu_mem == array@[min_gpu_idx as int],
            min_gpu_id == gpu_list@[min_gpu_idx as int],
            forall|j: int| 0 <= j < i ==> min_gpu_mem <= #[trigger] array@[j],
            forall|j: int| 0 <= j < min_gpu_idx ==> #[trigger] array@[j] > min_gpu_mem,
    {
        if min_gpu_mem > array[i] {
            min_gpu_idx = i;
            min_gpu_id = gpu_list[i];
            min_gpu_mem = array[i];
        }
    }

    (min_gpu_idx, min_gpu_id)
}

/// Attempt a reservation of `consume_mem` against the least-loaded slot.
///
/// Returns `(success, slot index, device identifier)`. The chosen slot is the
/// first slot with minimal consumed memory; the reservation succeeds exactly
/// when that slot's consumed value plus the request stays strictly under the
/// capacity `gpu_mem`, and then the request is added to the slot. On failure
/// the registry is unchanged and the contended slot is still reported.
pub fn free_gpu_ok(
    all_gpus: &mut Vec<usize>,
    gpu_list: &Vec<usize>,
    gpu_mem: usize,
    consume_mem: usize,
) -> (res: (bool, usize, usize))
    requires
        old(all_gpus)@.len() >= 1,
        gpu_list@.len() == old(all_gpus)@.len(),
    ensures
        is_first_min_index(old(all_gpus)@, res.1 as int),
        res.2 == gpu_list@[res.1 as int],
        res.0 == reserve_fits(old(all_gpus)@[res.1 as int], gpu_mem, consume_mem),
        res.0 ==> final(all_gpus)@ == old(all_gpus)@.update(
            res.1 as int,
            (old(all_gpus)@[res.1 as int] + consume_mem) as usize,
        ),
        !res.0 ==> final(all_gpus)@ == old(all_gpus)@,
{
    let all_gpus_consumed = get_all_gpus_consumed_mem(all_gpus);
    let (min_idx, gpu_id) = min_index(&all_gpus_consumed, gpu_list);
    let consumed = all_gpus[min_idx];
    if consume_mem < gpu_mem && consumed < gpu_mem - consume_mem {
        all_gpus.set(min_idx, consumed + consume_mem);
        (true, min_idx, gpu_id)
    } else {
        (false, min_idx, gpu_id)
    }
}

/// Advisory overload check: true when the slot's consumed value is at or
/// above capacity.
pub fn gpu_overloaded(all_gpus: &Vec<usize>, min_idx: usize, gpu_mem: usize) -> (res: bool)
    requires
        min_idx < all_gpus@.len(),
    ensures
        res == (all_gpus@[min_idx as int] >= gpu_mem),
{
    all_gpus[min_idx] >= gpu_mem
}

/// Release `consume_mem` from a slot. The subtraction wraps rather than
/// clamps: a release not matched by a prior reservation may drive the counter
/// around, which is accepted behaviour — pairing releases with reservations
/// is the caller's obligation.
pub fn finish_use_gpu(all_gpus: &mut Vec<usize>, min_idx: usize, consume_mem: usize)
    requires
        min_idx < old(all_gpus)@.len(),
    ensures
        final(all_gpus)@ == old(all_gpus)@.update(
            min_idx as int,
            usize_specs::wrapping_sub(old(all_gpus)@[min_idx as int], consume_mem),
        ),
{
    let v = all_gpus[min_idx].wrapping_sub(consume_mem);
    all_gpus.set(min_idx, v);
}

/// Round-trip law: a reservation of `amount` that fits on slot `i`, followed
/// by a release of the same `amount` on the same slot, returns the registry
/// to its pre-reservation state, provided nothing else touches the registry
/// in between.
pub proof fn lemma_reserve_release_round_trip(slots: Seq<usize>, i: int, gpu_mem: usize, amount: usize)
    requires
        0 <= i < slots.len(),
        reserve_fits(slots[i], gpu_mem, amount),
    ensures
        slots.update(i, (slots[i] + amount) as usize).update(
            i,
            usize_specs::wrapping_sub((slots[i] + amount) as usize, amount),
        ) == slots,
{
    assert(usize_specs::wrapping_sub((slots[i] + amount) as usize, amount) == slots[i]);
    assert(slots.update(i, (slots[i] + amount) as usize).update(i, slots[i]) =~= slots);
}

} // verus!
