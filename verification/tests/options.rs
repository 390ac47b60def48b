use file_compressor::{
    CompressOptions, DecodeProgress, DecompressOptions, EngineError, ProgressCallback,
    ProgressTracker, MAX_LEVEL, MIN_LEVEL, PROGRESS_INTERVAL,
};
use std::sync::{Arc, Mutex};

#[test]
fn compress_options_start_from_defaults() {
    let options = CompressOptions::new(3);
    assert_eq!(options.level(), 3);
    assert!(!options.force());
    assert!(!options.parallel());
    assert!(options.auto_parallel());
    assert_eq!(options.output_path(), None);
    assert!(options.progress_callback().is_none());
    assert_eq!((MIN_LEVEL, MAX_LEVEL), (1, 21));
}

#[test]
fn compress_options_refuse_levels_out_of_range() {
    assert!(CompressOptions::try_new(0).is_none());
    assert!(CompressOptions::try_new(22).is_none());
    assert!(CompressOptions::try_new(-3).is_none());
    assert!(CompressOptions::try_new(i32::MAX).is_none());
    for level in 1..=21 {
        let options = CompressOptions::try_new(level).unwrap();
        assert_eq!(options.level(), level);
        assert!(!options.force());
        assert!(options.auto_parallel());
    }
}

#[test]
fn compress_options_are_built_step_by_step() {
    let options = CompressOptions::new(19)
        .with_force(true)
        .with_parallel(true)
        .with_auto_parallel(false)
        .with_output_path("out/dir")
        .with_progress(|_| {});
    assert_eq!(options.level(), 19);
    assert!(options.force());
    assert!(options.parallel());
    assert!(!options.auto_parallel());
    assert_eq!(options.output_path(), Some("out/dir"));
    assert!(options.progress_callback().is_some());
    let options = options.with_force(false);
    assert!(!options.force());
    assert!(options.parallel());
    assert_eq!(options.level(), 19);
}

#[test]
fn decompress_options_are_built_step_by_step() {
    let options = DecompressOptions::new();
    assert!(!options.force());
    assert_eq!(options.output_path(), None);
    assert!(options.progress_callback().is_none());
    let options = DecompressOptions::default().with_force(true).with_output_path("x");
    assert!(options.force());
    assert_eq!(options.output_path(), Some("x"));
    let options = options.with_progress(|_| {});
    assert!(options.progress_callback().is_some());
    assert!(options.force());
}

fn recording_sink() -> (Arc<Mutex<Vec<u64>>>, ProgressCallback) {
    let seen = Arc::new(Mutex::new(Vec::new()));
    let sink = Arc::clone(&seen);
    (seen, ProgressCallback::new(move |units| sink.lock().unwrap().push(units)))
}

#[test]
fn the_tracker_announces_running_totals() {
    let (seen, sink) = recording_sink();
    let mut tracker = ProgressTracker::new(Some(&sink));
    assert_eq!(tracker.total(), 0);
    assert_eq!(tracker.add(5), Ok(5));
    assert_eq!(tracker.add(0), Ok(5));
    assert_eq!(tracker.add(7), Ok(12));
    assert_eq!(tracker.add(u64::MAX), Err(EngineError::TooLarge));
    assert_eq!(tracker.total(), 12);
    assert_eq!(*seen.lock().unwrap(), vec![5, 5, 12]);
    let mut silent = ProgressTracker::new(None);
    assert_eq!(silent.add(3), Ok(3));
}

#[test]
fn the_estimate_is_throttled_to_one_report_a_mebibyte() {
    assert_eq!(PROGRESS_INTERVAL, 1024 * 1024);
    let (seen, sink) = recording_sink();
    let mut progress = DecodeProgress::new(Some(&sink), 1_000_000);
    assert_eq!(progress.record(PROGRESS_INTERVAL - 1), Ok(None));
    assert_eq!(progress.record(1), Ok(Some(349_525)));
    assert_eq!(progress.record(PROGRESS_INTERVAL - 1), Ok(None));
    assert_eq!(progress.record(2), Ok(Some(699_051)));
    assert_eq!(progress.record(3 * PROGRESS_INTERVAL), Ok(Some(1_000_000)));
    assert_eq!(progress.record(u64::MAX), Err(EngineError::TooLarge));
    assert_eq!(progress.total(), 5 * PROGRESS_INTERVAL + 1);
    assert_eq!(progress.finish(), 1_000_000);
    assert_eq!(*seen.lock().unwrap(), vec![349_525, 699_051, 1_000_000, 1_000_000]);
}

#[test]
fn the_estimate_never_exceeds_the_compressed_size() {
    let (seen, sink) = recording_sink();
    let mut progress = DecodeProgress::new(Some(&sink), 10);
    assert_eq!(progress.record(PROGRESS_INTERVAL), Ok(Some(10)));
    assert_eq!(progress.record(PROGRESS_INTERVAL), Ok(Some(10)));
    assert_eq!(progress.finish(), 10);
    assert_eq!(*seen.lock().unwrap(), vec![10, 10, 10]);
    let mut empty = DecodeProgress::new(None, 0);
    assert_eq!(empty.record(PROGRESS_INTERVAL), Ok(Some(0)));
    assert_eq!(empty.finish(), 0);
}
