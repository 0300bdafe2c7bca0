use gpu_admission::registry::{
    finish_use_gpu, free_gpu_ok, get_all_gpus_consumed_mem, gpu_overloaded, init_all_gpus,
    min_index, SLOT_BASELINE,
};

#[test]
fn init_all_gpus_sets_baseline() {
    let gpus = init_all_gpus(4, 10500);
    assert_eq!(gpus.len(), 4);
    for slot in &gpus {
        assert_eq!(*slot, SLOT_BASELINE);
    }
    assert_eq!(SLOT_BASELINE, 181);
}

#[test]
fn init_all_gpus_empty() {
    let gpus = init_all_gpus(0, 10500);
    assert!(gpus.is_empty());
}

#[test]
fn snapshot_reports_every_slot() {
    let gpus = vec![3, 1, 4, 1, 5];
    assert_eq!(get_all_gpus_consumed_mem(&gpus), vec![3, 1, 4, 1, 5]);
}

#[test]
fn min_index_picks_least_loaded() {
    let consumed = vec![9, 2, 7];
    let ids = vec![10, 11, 12];
    assert_eq!(min_index(&consumed, &ids), (1, 11));
}

#[test]
fn min_index_tie_breaks_to_lower_index() {
    // two slots with equal consumed memory: the lower index wins
    let consumed = vec![5, 3, 3];
    let ids = vec![7, 8, 9];
    assert_eq!(min_index(&consumed, &ids), (1, 8));

    let all_equal = vec![4, 4, 4, 4];
    let ids2 = vec![0, 1, 2, 3];
    assert_eq!(min_index(&all_equal, &ids2), (0, 0));
}

#[test]
fn reserve_release_scenario() {
    // capacity 100, single device, slot starts at 0
    let mut slots = vec![0usize];
    let ids = vec![0usize];

    let (ok, idx, id) = free_gpu_ok(&mut slots, &ids, 100, 60);
    assert!(ok);
    assert_eq!((idx, id), (0, 0));
    assert_eq!(slots[0], 60);

    let (ok, idx, _) = free_gpu_ok(&mut slots, &ids, 100, 50);
    assert!(!ok);
    assert_eq!(idx, 0);
    assert_eq!(slots[0], 60);

    finish_use_gpu(&mut slots, 0, 60);
    assert_eq!(slots[0], 0);

    let (ok, _, _) = free_gpu_ok(&mut slots, &ids, 100, 50);
    assert!(ok);
    assert_eq!(slots[0], 50);
}

#[test]
fn reserve_release_round_trip_returns_to_start() {
    let mut slots = vec![42usize, 7];
    let ids = vec![0usize, 1];
    let before = slots.clone();
    let (ok, idx, _) = free_gpu_ok(&mut slots, &ids, 10500, 10);
    assert!(ok);
    finish_use_gpu(&mut slots, idx, 10);
    assert_eq!(slots, before);
}

#[test]
fn reserve_at_exact_capacity_fails() {
    // the fit check is strict: consumed + requested must stay under capacity
    let mut slots = vec![50usize];
    let ids = vec![0usize];
    let (ok, _, _) = free_gpu_ok(&mut slots, &ids, 100, 50);
    assert!(!ok);
    assert_eq!(slots[0], 50);
}

#[test]
fn reserve_larger_than_capacity_fails() {
    let mut slots = vec![0usize];
    let ids = vec![0usize];
    let (ok, idx, id) = free_gpu_ok(&mut slots, &ids, 100, 200);
    assert!(!ok);
    assert_eq!((idx, id), (0, 0));
    assert_eq!(slots[0], 0);
}

#[test]
fn reserve_targets_first_minimum_and_reports_device_id() {
    let mut slots = vec![30usize, 10, 10, 20];
    let ids = vec![4usize, 5, 6, 7];
    let (ok, idx, id) = free_gpu_ok(&mut slots, &ids, 100, 15);
    assert!(ok);
    assert_eq!((idx, id), (1, 5));
    assert_eq!(slots, vec![30, 25, 10, 20]);
}

#[test]
fn release_without_reserve_wraps_and_does_not_crash() {
    // releases with no prior reservation may wrap the counter around
    let mut slots = vec![0usize];
    finish_use_gpu(&mut slots, 0, 5);
    assert_eq!(slots[0], usize::MAX - 4);
    finish_use_gpu(&mut slots, 0, usize::MAX - 4);
    assert_eq!(slots[0], 0);
}

#[test]
fn wrapped_slot_counts_as_overloaded() {
    let mut slots = vec![0usize];
    finish_use_gpu(&mut slots, 0, 1);
    assert!(gpu_overloaded(&slots, 0, 10500));
}

#[test]
fn gpu_overloaded_at_and_above_capacity() {
    let slots = vec![99usize, 100, 101];
    assert!(!gpu_overloaded(&slots, 0, 100));
    assert!(gpu_overloaded(&slots, 1, 100));
    assert!(gpu_overloaded(&slots, 2, 100));
}
