use splash::{Metrics, MetricsData};

fn zero() -> MetricsData {
    MetricsData {
        peers: 0,
        messages_broadcasted: 0,
        messages_received: 0,
        total_connections: 0,
    }
}

#[test]
fn new_metrics_are_zero() {
    assert_eq!(Metrics::new().get_metrics(), zero());
}

#[test]
fn increment_peers_returns_the_new_count() {
    let mut metrics = Metrics::new();
    assert_eq!(metrics.increment_peers(), 1);
    assert_eq!(metrics.increment_peers(), 2);
    assert_eq!(metrics.increment_peers(), 3);
    assert_eq!(metrics.get_metrics(), MetricsData { peers: 3, ..zero() });
}

#[test]
fn decrement_peers_returns_the_new_count() {
    let mut metrics = Metrics::new();
    metrics.increment_peers();
    metrics.increment_peers();
    assert_eq!(metrics.decrement_peers(), 1);
    assert_eq!(metrics.decrement_peers(), 0);
    assert_eq!(metrics.get_metrics(), zero());
}

#[test]
fn decrement_at_zero_wraps_around() {
    let mut metrics = Metrics::new();
    assert_eq!(metrics.decrement_peers(), usize::MAX);
    assert_eq!(metrics.get_metrics().peers, usize::MAX);
    assert_eq!(metrics.increment_peers(), 0);
    assert_eq!(metrics.get_metrics(), zero());
}

#[test]
fn messages_are_counted_apart() {
    let mut metrics = Metrics::new();
    metrics.increment_messages_received();
    metrics.increment_messages_received();
    metrics.increment_messages_broadcasted();
    assert_eq!(
        metrics.get_metrics(),
        MetricsData {
            messages_received: 2,
            messages_broadcasted: 1,
            ..zero()
        }
    );
}

#[test]
fn counters_do_not_touch_each_other() {
    let mut metrics = Metrics::new();
    metrics.increment_peers();
    metrics.increment_messages_broadcasted();
    metrics.increment_messages_broadcasted();
    metrics.increment_messages_received();
    metrics.decrement_peers();
    metrics.increment_peers();
    assert_eq!(
        metrics.get_metrics(),
        MetricsData {
            peers: 1,
            messages_broadcasted: 2,
            messages_received: 1,
            total_connections: 0,
        }
    );
}

#[test]
fn snapshot_does_not_change_the_counters() {
    let mut metrics = Metrics::new();
    metrics.increment_peers();
    let first = metrics.get_metrics();
    let second = metrics.get_metrics();
    assert_eq!(first, second);
}
