use file_compressor::{BatchReport, BatchRun, EngineError, ItemOutcome};

fn done(input_size: u64, output_size: u64) -> ItemOutcome {
    ItemOutcome::Succeeded { input_size, output_size }
}

#[test]
fn a_batch_hands_out_every_item_once() {
    let mut run = BatchRun::new(3);
    let mut handed = Vec::new();
    while let Some(index) = run.next_item(0) {
        assert!(run.is_pending());
        handed.push(index);
        run.record(done(10, 4)).unwrap();
        assert!(!run.is_pending());
    }
    assert_eq!(handed, vec![0, 1, 2]);
    assert_eq!(
        run.report(),
        BatchReport {
            total: 3,
            succeeded: 3,
            failed: 0,
            skipped: 0,
            remaining: 0,
            cancelled: false,
            input_bytes: 30,
            output_bytes: 12,
        }
    );
    assert_eq!(run.next_item(0), None);
    assert_eq!(run.next_item(1), None);
    assert!(!run.report().cancelled);
}

#[test]
fn one_failure_does_not_end_the_batch() {
    let mut run = BatchRun::new(4);
    let outcomes = [done(100, 50), ItemOutcome::Failed, ItemOutcome::Skipped, done(8, 9)];
    for outcome in outcomes {
        assert!(run.next_item(0).is_some());
        run.record(outcome).unwrap();
    }
    let report = run.report();
    assert_eq!((report.succeeded, report.failed, report.skipped), (2, 1, 1));
    assert_eq!((report.input_bytes, report.output_bytes), (108, 59));
    assert_eq!(report.remaining, 0);
    assert!(!report.cancelled);
}

#[test]
fn cancellation_after_k_items_leaves_the_rest_unprocessed() {
    for total in 1..6u64 {
        for completed in 0..total {
            let mut run = BatchRun::new(total);
            for index in 0..completed {
                assert_eq!(run.next_item(0), Some(index));
                run.record(done(1, 1)).unwrap();
            }
            assert_eq!(run.next_item(7), None);
            let report = run.report();
            assert!(report.cancelled);
            assert_eq!(report.succeeded, completed);
            assert_eq!(report.remaining, total - completed);
            assert_eq!(report.succeeded + report.failed + report.skipped, completed);
            // The request is not forgotten when the flag is cleared.
            assert_eq!(run.next_item(0), None);
            assert_eq!(run.report(), report);
        }
    }
}

#[test]
fn an_empty_batch_is_done_at_once() {
    let mut run = BatchRun::new(0);
    assert_eq!(run.next_item(0), None);
    assert_eq!(run.next_item(1), None);
    let report = run.report();
    assert_eq!(report.remaining, 0);
    assert!(!report.cancelled);
}

#[test]
fn byte_totals_beyond_sixty_four_bits_are_refused() {
    let mut run = BatchRun::new(2);
    run.next_item(0).unwrap();
    run.record(done(u64::MAX, 1)).unwrap();
    run.next_item(0).unwrap();
    assert_eq!(run.record(done(1, 1)), Err(EngineError::TooLarge));
    assert!(run.is_pending());
    run.record(ItemOutcome::Failed).unwrap();
    let report = run.report();
    assert_eq!((report.succeeded, report.failed), (1, 1));
    assert_eq!(report.input_bytes, u64::MAX);
}
