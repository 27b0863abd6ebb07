use launcher_core::progress::{ProgressEvent, ProgressTrack};

fn percent(e: ProgressEvent) -> f64 {
    match e {
        ProgressEvent::Progress { transferred, expected } if expected > 0 => {
            transferred as f64 / expected as f64 * 100.0
        }
        ProgressEvent::Progress { .. } => 0.0,
        ProgressEvent::Complete => panic!("not a progress event"),
    }
}

fn at(transferred: u64, expected: u64) -> ProgressEvent {
    ProgressEvent::Progress { transferred, expected }
}

#[test]
fn setup_then_progress_emits_quarters() {
    let mut t = ProgressTrack::new();
    let mut seen = Vec::new();
    seen.push(t.setup(1000));
    seen.push(t.progress(250));
    seen.push(t.progress(250));
    seen.push(t.progress(500));
    assert_eq!(seen, vec![at(0, 1000), at(250, 1000), at(500, 1000), at(1000, 1000)]);
    let percents: Vec<f64> = seen.into_iter().map(percent).collect();
    assert_eq!(percents, vec![0.0, 25.0, 50.0, 100.0]);
    assert_eq!(t.current(), 1000);
    assert_eq!(t.total(), 1000);
    assert_eq!(t.done(), ProgressEvent::Complete);
}

#[test]
fn any_order_of_the_same_deltas_ends_at_the_total() {
    let orders: [[u64; 3]; 6] = [
        [250, 250, 500],
        [250, 500, 250],
        [500, 250, 250],
        [250, 250, 500],
        [500, 250, 250],
        [250, 500, 250],
    ];
    for order in orders.iter() {
        let mut t = ProgressTrack::new();
        t.setup(1000);
        let mut last = at(0, 1000);
        for d in order.iter() {
            last = t.progress(*d);
        }
        assert_eq!(t.current(), 1000);
        assert_eq!(last, at(1000, 1000));
    }
}

#[test]
fn progress_without_total_reports_zero() {
    let mut t = ProgressTrack::new();
    let e = t.progress(123);
    assert_eq!(e, at(123, 0));
    assert_eq!(percent(e), 0.0);
    assert_eq!(t.current(), 123);
}

#[test]
fn fractional_percent_and_passing_the_total() {
    let mut t = ProgressTrack::new();
    t.setup(3);
    let e = t.progress(1);
    assert_eq!(e, at(1, 3));
    assert!((percent(e) - 100.0 / 3.0).abs() < 1e-9);
    assert_eq!(t.progress(1), at(2, 3));
    assert!((percent(t.progress(2)) - 400.0 / 3.0).abs() < 1e-9);
}

#[test]
fn largest_count_is_reported_exactly() {
    let mut t = ProgressTrack::new();
    t.setup(1);
    assert_eq!(t.progress(u64::MAX), at(u64::MAX, 1));
}

#[test]
fn setup_keeps_the_count_and_records_total() {
    let mut t = ProgressTrack::new();
    t.progress(10);
    assert_eq!(t.setup(40), at(0, 40));
    assert_eq!(t.current(), 10);
    assert_eq!(percent(t.progress(10)), 50.0);
}
