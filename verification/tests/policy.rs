use file_compressor::{
    num_cpus, should_use_long_distance, should_use_parallel, size_policy,
    AUTO_PARALLEL_THRESHOLD, BUFFER_SIZE, BUFFER_SIZE_LARGE, BUFFER_SIZE_SMALL,
    LARGE_FILE_THRESHOLD,
};

#[test]
fn size_policy_switches_buffers_at_ten_mebibytes() {
    assert_eq!(BUFFER_SIZE_SMALL, 256 * 1024);
    assert_eq!(BUFFER_SIZE_LARGE, 1024 * 1024);
    assert_eq!(BUFFER_SIZE, 256 * 1024);
    assert_eq!(LARGE_FILE_THRESHOLD, 10 * 1024 * 1024);
    assert_eq!(size_policy(10 * 1024 * 1024 - 1), BUFFER_SIZE_SMALL);
    assert_eq!(size_policy(10 * 1024 * 1024), BUFFER_SIZE_LARGE);
    assert_eq!(size_policy(0), BUFFER_SIZE_SMALL);
    assert_eq!(size_policy(u64::MAX), BUFFER_SIZE_LARGE);
}

#[test]
fn auto_parallel_starts_at_one_mebibyte() {
    assert_eq!(AUTO_PARALLEL_THRESHOLD, 1024 * 1024);
    assert!(!should_use_parallel(1024 * 1024 - 1, true, false));
    assert!(should_use_parallel(1024 * 1024, true, false));
    assert!(should_use_parallel(u64::MAX, true, false));
}

#[test]
fn explicit_parallel_wins_whatever_the_size() {
    for size in [0, 1, 1024 * 1024 - 1, 1024 * 1024, u64::MAX] {
        assert!(should_use_parallel(size, false, true));
        assert!(should_use_parallel(size, true, true));
        assert!(!should_use_parallel(size, false, false));
    }
}

#[test]
fn long_distance_matching_starts_at_ten_mebibytes() {
    assert!(!should_use_long_distance(10 * 1024 * 1024 - 1));
    assert!(should_use_long_distance(10 * 1024 * 1024));
}

#[test]
fn test_num_cpus() {
    let cpus = num_cpus(Some(4));
    assert!(cpus >= 1);
    let cpus = num_cpus(None);
    assert!(cpus >= 1);
}

#[test]
fn num_cpus_falls_back_to_one() {
    assert_eq!(num_cpus(None), 1);
    assert_eq!(num_cpus(Some(1)), 1);
    assert_eq!(num_cpus(Some(8)), 8);
}
