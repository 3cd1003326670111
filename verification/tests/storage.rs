use computer_specs::storage::{
    get_storage_total, get_storage_used, storage_total_of, storage_used_of, VolumeSpace,
};

#[test]
fn sums_across_volumes() {
    let volumes = vec![VolumeSpace::new(100, 30), VolumeSpace::new(200, 50)];
    assert_eq!(storage_total_of(&volumes), 300);
    assert_eq!(storage_used_of(&volumes), 220);
}

#[test]
fn no_volumes_is_zero() {
    let volumes: Vec<VolumeSpace> = Vec::new();
    assert_eq!(storage_total_of(&volumes), 0);
    assert_eq!(storage_used_of(&volumes), 0);
}

#[test]
fn used_clamped_when_available_exceeds_total() {
    // A stale reading may report more available than total space; the used
    // figure clamps to zero instead of wrapping around.
    let volumes = vec![VolumeSpace::new(100, 250)];
    assert_eq!(storage_used_of(&volumes), 0);
    assert!(storage_used_of(&volumes) <= storage_total_of(&volumes));
}

#[test]
fn used_never_exceeds_total_mixed() {
    let volumes = vec![VolumeSpace::new(50, 80), VolumeSpace::new(500, 100)];
    let used = storage_used_of(&volumes);
    let total = storage_total_of(&volumes);
    assert!(used <= total);
    assert_eq!(total, 550);
    assert_eq!(used, 370);
}

#[test]
fn sums_saturate_at_the_limit() {
    let volumes = vec![VolumeSpace::new(u64::MAX, 0), VolumeSpace::new(10, 0)];
    assert_eq!(storage_total_of(&volumes), u64::MAX);
    assert_eq!(storage_used_of(&volumes), u64::MAX);
}

#[test]
fn live_storage_readings_are_formatted() {
    let used = get_storage_used();
    let total = get_storage_total();
    assert!(used.contains(' '));
    assert!(total.contains(' '));
}
