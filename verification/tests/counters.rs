use gpu_admission::counters::{
    bell_finish, bell_start, cpu_finish, cpu_running, cpu_start, get_waiting_bell, hash_finish,
    hash_rnning, hash_start, should_opt_cpu, WorkloadCounters,
};

#[test]
fn new_counters_are_idle() {
    let c = WorkloadCounters::new();
    assert_eq!(c.cpu, 0);
    assert_eq!(c.hash, 0);
    assert_eq!(c.bell, 0);
}

#[test]
fn balanced_start_finish_pairs_restore_counter() {
    // interleaved balanced pairs leave the CPU counter where it began
    let mut c = WorkloadCounters::new();
    cpu_start(&mut c);
    cpu_start(&mut c);
    cpu_finish(&mut c);
    cpu_start(&mut c);
    cpu_finish(&mut c);
    cpu_start(&mut c);
    cpu_start(&mut c);
    cpu_finish(&mut c);
    cpu_finish(&mut c);
    cpu_finish(&mut c);
    assert_eq!(c.cpu, 0);
    assert_eq!(c.hash, 0);
    assert_eq!(c.bell, 0);
}

#[test]
fn each_class_tracks_independently() {
    let mut c = WorkloadCounters::new();
    cpu_start(&mut c);
    hash_start(&mut c);
    hash_start(&mut c);
    bell_start(&mut c);
    bell_start(&mut c);
    bell_start(&mut c);
    assert_eq!((c.cpu, c.hash, c.bell), (1, 2, 3));
    hash_finish(&mut c);
    bell_finish(&mut c);
    assert_eq!((c.cpu, c.hash, c.bell), (1, 1, 2));
}

#[test]
fn finish_without_start_wraps_and_does_not_crash() {
    let mut c = WorkloadCounters::new();
    cpu_finish(&mut c);
    assert_eq!(c.cpu, usize::MAX);
    cpu_start(&mut c);
    assert_eq!(c.cpu, 0);
}

#[test]
fn cpu_running_compares_against_minimum() {
    let mut c = WorkloadCounters::new();
    assert!(!cpu_running(&c, 2));
    cpu_start(&mut c);
    assert!(!cpu_running(&c, 2));
    cpu_start(&mut c);
    assert!(cpu_running(&c, 2));
    assert!(cpu_running(&c, 0));
}

#[test]
fn hash_rnning_false_when_threshold_disabled() {
    // hash-first threshold of zero disables the check entirely
    let mut c = WorkloadCounters::new();
    for _ in 0..50 {
        hash_start(&mut c);
    }
    assert!(!hash_rnning(&c, 0));
    assert!(hash_rnning(&c, 50));
    assert!(hash_rnning(&c, 1));
    assert!(!hash_rnning(&c, 51));
}

#[test]
fn get_waiting_bell_reads_raw_counter() {
    let mut c = WorkloadCounters::new();
    assert_eq!(get_waiting_bell(&c), 0);
    bell_start(&mut c);
    bell_start(&mut c);
    assert_eq!(get_waiting_bell(&c), 2);
    bell_finish(&mut c);
    assert_eq!(get_waiting_bell(&c), 1);
}

#[test]
fn should_opt_cpu_scenario() {
    // threshold 5, CPU-busy minimum 10: hash 3 + bell 3 meets the threshold
    let mut c = WorkloadCounters::new();
    for _ in 0..3 {
        hash_start(&mut c);
        bell_start(&mut c);
    }
    assert!(should_opt_cpu(&c, 5, 10));
    // raising the CPU counter to the busy minimum flips the decision
    for _ in 0..10 {
        cpu_start(&mut c);
    }
    assert!(!should_opt_cpu(&c, 5, 10));
}

#[test]
fn should_opt_cpu_disabled_when_threshold_zero() {
    let mut c = WorkloadCounters::new();
    for _ in 0..100 {
        hash_start(&mut c);
    }
    assert!(!should_opt_cpu(&c, 0, 10));
}

#[test]
fn should_opt_cpu_boundary_sum_counts() {
    let mut c = WorkloadCounters::new();
    hash_start(&mut c);
    bell_start(&mut c);
    // sum 2 meets threshold 2, misses threshold 3
    assert!(should_opt_cpu(&c, 2, 10));
    assert!(!should_opt_cpu(&c, 3, 10));
}
