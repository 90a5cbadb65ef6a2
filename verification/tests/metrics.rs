use loadgen::barrier::StartBarrier;
use loadgen::metrics::capture::MetricsCapture;
use loadgen::metrics::computed_metrics::ComputedMetrics;
use loadgen::metrics::metrics_summary::MetricsSummary;
use loadgen::metrics::request_metric::{
    CompletionResult, RequestMetric, RequestState,
};

#[test]
fn barrier_releases_exactly_once_and_stays_released() {
    let mut barrier = StartBarrier::new();
    assert!(!barrier.is_released());
    barrier.release(42);
    assert!(barrier.is_released());
    assert_eq!(42, barrier.release_time());
    // a late subscriber still observes the release
    assert!(barrier.is_released());
}

#[test]
fn metric_marks_end_carrying_the_start_over() {
    let mut m = RequestMetric::new(1, 2, 5, 100);
    assert!(matches!(m.status(), RequestState::InProgress(ip) if ip.start == 100));
    m.mark_end(CompletionResult::Succeeded, 130);
    match m.status() {
        RequestState::Completed(c) => {
            assert_eq!(100, c.start);
            assert_eq!(130, c.end);
            assert!(matches!(c.result, CompletionResult::Succeeded));
        }
        RequestState::InProgress(_) => panic!("still in progress"),
    }
    // a second completion leaves the metric unchanged
    m.mark_end(CompletionResult::Failed, 999);
    assert!(matches!(m.status(), RequestState::Completed(c) if c.end == 130));
}

#[test]
fn capture_emits_one_pair_per_request_despite_a_failure() {
    // batch of three; the second request fails; all three are accounted
    let mut capture = MetricsCapture::new(1, 3, 3);
    capture.observe_release(1000);

    let mut events: Vec<RequestMetric> = Vec::new();
    let outcomes = [
        CompletionResult::Succeeded,
        CompletionResult::Failed,
        CompletionResult::Succeeded,
    ];
    let mut now = 1000u64;
    for outcome in outcomes {
        now += 5;
        events.push(capture.begin_request(now));
        now += 5;
        events.push(capture.end_request(outcome, now));
    }
    assert!(capture.is_done());
    assert_eq!(6, events.len());

    for (q, pair) in events.chunks(2).enumerate() {
        let pos = (q + 1) as u64;
        assert_eq!(1, pair[0].executor_id);
        assert_eq!(pos, pair[0].task_in_executor);
        assert_eq!(1 * 3 + pos, pair[0].request_id);
        assert!(matches!(pair[0].status, RequestState::InProgress(_)));
        assert_eq!(pos, pair[1].task_in_executor);
        match pair[1].status {
            RequestState::Completed(c) => {
                assert!(c.start <= c.end);
                assert!(c.start >= 1000, "no start precedes the release");
            }
            RequestState::InProgress(_) => panic!("second of pair must complete"),
        }
    }
    assert!(matches!(events[3].status, RequestState::Completed(c) if matches!(c.result, CompletionResult::Failed)));
}

#[test]
fn summary_counts_and_aligns_duration_series() {
    let mut summary = MetricsSummary::new(2);

    let mut a = RequestMetric::new(0, 1, 1, 100);
    summary.record(a);
    assert_eq!(1, summary.in_progress);
    a.mark_end(CompletionResult::Succeeded, 130);
    summary.record(a);
    assert_eq!(0, summary.in_progress);
    assert_eq!(1, summary.ok);
    assert_eq!(0, summary.errors);
    assert_eq!(vec![30], summary.ok_durations_ms);
    assert_eq!(vec![0], summary.error_durations_ms);

    let mut b = RequestMetric::new(0, 2, 2, 140);
    summary.record(b);
    b.mark_end(CompletionResult::Failed, 150);
    summary.record(b);
    assert_eq!(0, summary.in_progress);
    assert_eq!(1, summary.ok);
    assert_eq!(1, summary.errors);
    assert_eq!(vec![30, 0], summary.ok_durations_ms);
    assert_eq!(vec![0, 10], summary.error_durations_ms);
    assert!(summary.is_completed());
}

#[test]
fn a_complete_run_accounts_for_every_request() {
    // three requests across two executors, one failing: after the whole
    // stream is consumed, ok + errors == total_expected and nothing is in
    // flight, whatever the interleaving across executors was.
    let mut c0 = MetricsCapture::new(0, 2, 2);
    let mut c1 = MetricsCapture::new(1, 2, 1);
    c0.observe_release(10);
    c1.observe_release(10);

    let mut events: Vec<RequestMetric> = Vec::new();
    events.push(c0.begin_request(11));
    events.push(c1.begin_request(12));
    events.push(c1.end_request(CompletionResult::Failed, 14));
    events.push(c0.end_request(CompletionResult::Succeeded, 15));
    events.push(c0.begin_request(16));
    events.push(c0.end_request(CompletionResult::Succeeded, 20));
    assert!(c0.is_done() && c1.is_done());

    let mut summary = MetricsSummary::new(3);
    summary.record_all(&events);
    assert_eq!(3, summary.total_expected);
    assert_eq!(2, summary.ok);
    assert_eq!(1, summary.errors);
    assert_eq!(0, summary.in_progress);
    assert!(summary.is_completed());
    assert_eq!(vec![0, 4, 4], summary.ok_durations_ms);
    assert_eq!(vec![2, 0, 0], summary.error_durations_ms);
}

#[test]
fn incomplete_run_is_not_completed() {
    let mut summary = MetricsSummary::new(2);
    let mut a = RequestMetric::new(0, 1, 1, 0);
    summary.record(a);
    a.mark_end(CompletionResult::Succeeded, 3);
    summary.record(a);
    assert!(!summary.is_completed());
    assert_eq!(1, summary.ok);
}

#[test]
fn computed_metrics_tally_and_snapshot() {
    let mut counts = ComputedMetrics::new(2);

    let mut a = RequestMetric::new(0, 1, 1, 50);
    counts.record(&a);
    let snap = counts.summary();
    assert_eq!(1, snap.in_progress);
    assert_eq!(0, snap.ok);

    a.mark_end(CompletionResult::Failed, 60);
    counts.record(&a);
    let snap = counts.summary();
    assert_eq!(0, snap.in_progress);
    assert_eq!(0, snap.ok);
    assert_eq!(1, snap.errors);
    assert_eq!(2, snap.total_expected);
    assert!(snap.ok_durations_ms.is_empty());
    assert!(snap.error_durations_ms.is_empty());
}
