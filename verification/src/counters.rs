//! Workload-class counters and the CPU-routing admission heuristic.
//!
//! Three independent running-task counters (CPU class, Hash class, Bell
//! class) are held in one explicitly owned value handed to each operation by
//! the caller. A task of a class increments its counter when it starts and
//! decrements it when it finishes; no upper or lower bound is enforced
//! structurally, so mismatched pairs wrap the counter around — pairing is the
//! caller's obligation. Busy thresholds are compared at read time against
//! configured limits passed in live.

use vstd::prelude::*;
use vstd::wrapping::usize_specs;
use vstd::arithmetic::div_mod::{
    lemma_fundamental_div_mod,
    lemma_mod_bound,
    lemma_mod_multiples_vanish,
    lemma_mod_self_0,
    lemma_small_mod,
};

verus! {

/// The three workload-class running-task counters.
pub struct WorkloadCounters {
    /// Tasks currently on the CPU-bound execution path.
    pub cpu: usize,
    /// Hash-class tasks currently running.
    pub hash: usize,
    /// Bell-class tasks currently running.
    pub bell: usize,
}

impl WorkloadCounters {
    /// Fresh counters, all classes idle.
    pub fn new() -> (res: WorkloadCounters)
        ensures
            res.cpu == 0,
            res.hash == 0,
            res.bell == 0,
    {
        WorkloadCounters { cpu: 0, hash: 0, bell: 0 }
    }
}

/// One mutation of a workload-class counter: a task of that class starting
/// or finishing.
pub enum CounterOp {
    Start,
    Finish,
}

/// The counter value after one operation: a start adds one and a finish
/// subtracts one, each wrapping at the integer boundary.
pub open spec fn apply_op(v: usize, op: CounterOp) -> usize {
    match op {
        CounterOp::Start => usize_specs::wrapping_add(v, 1),
        CounterOp::Finish => usize_specs::wrapping_sub(v, 1),
    }
}

/// The counter value after a whole sequence of operations, applied in order.
pub open spec fn apply_ops(v: usize, ops: Seq<CounterOp>) -> usize
    decreases ops.len(),
{
    if ops.len() == 0 {
        v
    } else {
        apply_ops(apply_op(v, ops[0]), ops.skip(1))
    }
}

/// How many operations of the sequence are starts.
pub open spec fn count_starts(ops: Seq<CounterOp>) -> int
    decreases ops.len(),
{
    if ops.len() == 0 {
        0
    } else {
        (if ops[0] is Start {
            1int
        } else {
            0int
        }) + count_starts(ops.skip(1))
    }
}

/// How many operations of the sequence are finishes.
pub open spec fn count_finishes(ops: Seq<CounterOp>) -> int
    decreases ops.len(),
{
    if ops.len() == 0 {
        0
    } else {
        (if ops[0] is Finish {
            1int
        } else {
            0int
        }) + count_finishes(ops.skip(1))
    }
}

/// A CPU-class task starts: the CPU counter steps by one start operation.
pub fn cpu_start(counters: &mut WorkloadCounters)
    ensures
        final(counters).cpu == apply_op(old(counters).cpu, CounterOp::Start),
        final(counters).hash == old(counters).hash,
        final(counters).bell == old(counters).bell,
{
    counters.cpu = counters.cpu.wrapping_add(1);
}

/// A CPU-class task finishes: the CPU counter steps by one finish operation.
pub fn cpu_finish(counters: &mut WorkloadCounters)
    ensures
        final(counters).cpu == apply_op(old(counters).cpu, CounterOp::Finish),
        final(counters).hash == old(counters).hash,
        final(counters).bell == old(counters).bell,
{
    counters.cpu = counters.cpu.wrapping_sub(1);
}

/// The CPU class is busy when its counter is at or above the configured
/// minimum.
pub fn cpu_running(counters: &WorkloadCounters, min_cpu_num: usize) -> (res: bool)
    ensures
        res == (counters.cpu >= min_cpu_num),
{
    counters.cpu >= min_cpu_num
}

/// A Hash-class task starts.
pub fn hash_start(counters: &mut WorkloadCounters)
    ensures
        final(counters).hash == apply_op(old(counters).hash, CounterOp::Start),
        final(counters).cpu == old(counters).cpu,
        final(counters).bell == old(counters).bell,
{
    counters.hash = counters.hash.wrapping_add(1);
}

/// A Hash-class task finishes.
pub fn hash_finish(counters: &mut WorkloadCounters)
    ensures
        final(counters).hash == apply_op(old(counters).hash, CounterOp::Finish),
        final(counters).cpu == old(counters).cpu,
        final(counters).bell == old(counters).bell,
{
    counters.hash = counters.hash.wrapping_sub(1);
}

/// The Hash class is busy only when the hash-first threshold is enabled
/// (non-zero) and the counter meets or exceeds it; a zero threshold disables
/// the check and the answer is false whatever the counter holds.
pub fn hash_rnning(counters: &WorkloadCounters, hash_first: usize) -> (res: bool)
    ensures
        res == (hash_first != 0 && counters.hash >= hash_first),
{
    if hash_first != 0 {
        counters.hash >= hash_first
    } else {
        false
    }
}

/// A Bell-class task starts.
pub fn bell_start(counters: &mut WorkloadCounters)
    ensures
        final(counters).bell == apply_op(old(counters).bell, CounterOp::Start),
        final(counters).cpu == old(counters).cpu,
        final(counters).hash == old(counters).hash,
{
    counters.bell = counters.bell.wrapping_add(1);
}

/// A Bell-class task finishes.
pub fn bell_finish(counters: &mut WorkloadCounters)
    ensures
        final(counters).bell == apply_op(old(counters).bell, CounterOp::Finish),
        final(counters).cpu == old(counters).cpu,
        final(counters).hash == old(counters).hash,
{
    counters.bell = counters.bell.wrapping_sub(1);
}

/// Raw read of the Bell-class counter.
pub fn get_waiting_bell(counters: &WorkloadCounters) -> (res: usize)
    ensures
        res == counters.bell,
{
    counters.bell
}

/// Advisory routing decision: CPU-eligible work should go to the CPU path
/// exactly when the feature is enabled (`opt_cpu` non-zero), the running
/// Hash-class and Bell-class tasks together meet or exceed the threshold,
/// and the CPU class is not already busy. Reads only; never mutates a
/// counter.
pub fn should_opt_cpu(counters: &WorkloadCounters, opt_cpu: usize, min_cpu_num: usize) -> (res: bool)
    ensures
        res == (opt_cpu != 0 && opt_cpu <= counters.hash + counters.bell
            && counters.cpu < min_cpu_num),
{
    (opt_cpu != 0) && (opt_cpu as u128) <= (counters.hash as u128) + (counters.bell as u128)
        && !cpu_running(counters, min_cpu_num)
}

/// The wrapping modulus: one more than the largest counter value.
pub open spec fn wrap_mod() -> int {
    usize::MAX as int + 1
}

/// Normalize a mathematical integer into a counter value by wrapping.
pub open spec fn wrap_norm(x: int) -> usize {
    (x % wrap_mod()) as usize
}

proof fn lemma_wrap_norm_small(v: usize)
    ensures
        wrap_norm(v as int) == v,
{
    lemma_small_mod(v as nat, wrap_mod() as nat);
}

proof fn lemma_wrap_norm_add(a: int, b: int)
    ensures
        wrap_norm(wrap_norm(a) as int + b) == wrap_norm(a + b),
{
    let m = wrap_mod();
    lemma_mod_bound(a, m);
    lemma_fundamental_div_mod(a, m);
    lemma_mod_multiples_vanish(a / m, a % m + b, m);
    assert(a + b == m * (a / m) + (a % m + b));
}

proof fn lemma_apply_op_wrap(v: usize, op: CounterOp)
    ensures
        apply_op(v, op) == wrap_norm(
            v + if op is Start {
                1int
            } else {
                -1int
            },
        ),
{
    let m = wrap_mod();
    match op {
        CounterOp::Start => {
            if v < usize::MAX {
                lemma_small_mod((v + 1) as nat, m as nat);
            } else {
                lemma_mod_self_0(m);
            }
        },
        CounterOp::Finish => {
            if v > 0 {
                lemma_small_mod((v - 1) as nat, m as nat);
            } else {
                lemma_mod_multiples_vanish(-1, m - 1, m);
                lemma_small_mod((m - 1) as nat, m as nat);
                assert(v - 1 == m * -1 + (m - 1));
            }
        },
    }
}

proof fn lemma_apply_ops_net(v: usize, ops: Seq<CounterOp>)
    ensures
        apply_ops(v, ops) == wrap_norm(v + count_starts(ops) - count_finishes(ops)),
    decreases ops.len(),
{
    if ops.len() == 0 {
        lemma_wrap_norm_small(v);
    } else {
        let d: int = if ops[0] is Start {
            1int
        } else {
            -1int
        };
        lemma_apply_op_wrap(v, ops[0]);
        lemma_apply_ops_net(apply_op(v, ops[0]), ops.skip(1));
        lemma_wrap_norm_add(v + d, count_starts(ops.skip(1)) - count_finishes(ops.skip(1)));
    }
}

/// Balanced-pairs law: any sequence of start and finish operations holding
/// as many starts as finishes — in particular, any interleaving of the
/// operations of several tasks that each start and finish in balanced pairs —
/// leaves the counter at its original value.
pub proof fn lemma_balanced_ops_restore_counter(v: usize, ops: Seq<CounterOp>)
    requires
        count_starts(ops) == count_finishes(ops),
    ensures
        apply_ops(v, ops) == v,
{
    lemma_apply_ops_net(v, ops);
    lemma_wrap_norm_small(v);
}

} // verus!
