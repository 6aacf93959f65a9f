use codexola::usage::{
    cutoff_ms, empty_usage_snapshot, prune_points, sum_points, sum_saturated, RateLimitSnapshot,
    RateLimitWindow, UsagePoint, UsageSnapshot, UsageSource, UsageStore, WINDOW_MS,
};

const HOUR: i64 = 3_600_000;
const NOW: i64 = 1_700_000_000_000;

fn window(used: i64) -> RateLimitWindow {
    RateLimitWindow { used_percent: used, window_duration_mins: None, resets_at: None }
}

fn point(timestamp_ms: i64, tokens: i64) -> UsagePoint {
    UsagePoint { timestamp_ms, tokens }
}

#[test]
fn window_is_twenty_four_hours() {
    assert_eq!(WINDOW_MS, 24 * 60 * 60 * 1000);
}

#[test]
fn cutoff_is_one_day_before_now() {
    assert_eq!(cutoff_ms(NOW), NOW - 86_400_000);
    assert_eq!(cutoff_ms(0), -86_400_000);
}

#[test]
fn cutoff_stops_at_the_smallest_timestamp() {
    assert_eq!(cutoff_ms(i64::MIN), i64::MIN);
    assert_eq!(cutoff_ms(i64::MIN + 5), i64::MIN);
    assert_eq!(cutoff_ms(i64::MIN + 86_400_000), i64::MIN);
    assert_eq!(cutoff_ms(i64::MIN + 86_400_001), i64::MIN + 1);
}

#[test]
fn prune_keeps_points_at_the_cutoff_and_after() {
    let mut points = vec![point(10, 1), point(20, 2), point(19, 3), point(30, 4)];
    prune_points(&mut points, 20);
    assert_eq!(points, vec![point(20, 2), point(30, 4)]);
}

#[test]
fn prune_of_nothing_is_nothing() {
    let mut points: Vec<UsagePoint> = Vec::new();
    prune_points(&mut points, 0);
    assert!(points.is_empty());
}

#[test]
fn sum_adds_the_tokens() {
    assert_eq!(sum_points(&[]), 0);
    assert_eq!(sum_points(&[point(1, 100), point(2, 200), point(3, 50)]), 350);
}

#[test]
fn sum_stops_at_the_largest_total() {
    assert_eq!(sum_points(&[point(1, i64::MAX), point(2, 1)]), i64::MAX);
    assert_eq!(sum_points(&[point(1, i64::MAX), point(2, i64::MAX), point(3, -1)]), i64::MAX);
    assert_eq!(sum_points(&[point(1, i64::MIN), point(2, -1)]), i64::MIN);
    assert_eq!(sum_points(&[point(1, i64::MAX), point(2, 5), point(3, -10)]), i64::MAX - 5);
}

#[test]
fn sum_of_two_is_held_to_the_range() {
    assert_eq!(sum_saturated(2, 3), 5);
    assert_eq!(sum_saturated(i64::MAX, 1), i64::MAX);
    assert_eq!(sum_saturated(i64::MIN, -1), i64::MIN);
    assert_eq!(sum_saturated(i64::MAX, i64::MIN), -1);
}

#[test]
fn empty_snapshot_has_nothing() {
    let snapshot = empty_usage_snapshot();
    assert_eq!(
        snapshot,
        UsageSnapshot {
            total_tokens_24h: None,
            updated_at_ms: None,
            source: UsageSource::Absent,
            rate_limits: None,
        }
    );
}

#[test]
fn new_store_shows_the_empty_snapshot() {
    let store = UsageStore::new();
    assert!(store.is_valid());
    assert_eq!(store.current_snapshot(), empty_usage_snapshot());
    assert!(store.points.is_empty());
}

#[test]
fn sample_is_recorded_and_published() {
    let mut store = UsageStore::new();
    let published = store.record_sample(NOW, 42).expect("a positive delta is recorded");
    assert_eq!(published.total_tokens_24h, Some(42));
    assert_eq!(published.updated_at_ms, Some(NOW));
    assert_eq!(published.source, UsageSource::LiveSession);
    assert_eq!(published.rate_limits, None);
    assert_eq!(store.points, vec![point(NOW, 42)]);
    assert_eq!(store.current_snapshot(), published);
}

#[test]
fn sample_after_twenty_five_hours_prunes_the_first() {
    let mut store = UsageStore::new();
    store.record_sample(NOW, 111);
    let published = store.record_sample(NOW + 25 * HOUR, 7).unwrap();
    assert_eq!(store.points, vec![point(NOW + 25 * HOUR, 7)]);
    assert_eq!(published.total_tokens_24h, Some(7));
}

#[test]
fn sample_exactly_one_day_old_is_kept() {
    let mut store = UsageStore::new();
    store.record_sample(NOW, 5);
    let published = store.record_sample(NOW + WINDOW_MS, 6).unwrap();
    assert_eq!(published.total_tokens_24h, Some(11));
    let later = store.record_sample(NOW + WINDOW_MS + 1, 1).unwrap();
    assert_eq!(later.total_tokens_24h, Some(7));
}

#[test]
fn total_follows_the_clock() {
    let mut store = UsageStore::new();
    store.points = vec![point(NOW - HOUR, 100), point(NOW - 2 * HOUR, 200), point(NOW - 23 * HOUR, 50)];
    store.last_snapshot = Some(UsageSnapshot {
        total_tokens_24h: Some(350),
        updated_at_ms: Some(NOW),
        source: UsageSource::LiveSession,
        rate_limits: None,
    });
    assert!(store.is_valid());
    assert_eq!(store.current_snapshot().total_tokens_24h, Some(350));
    let limits = RateLimitSnapshot { primary: Some(window(1)), secondary: None };
    let published = store.record_rate_limits(NOW + 2 * HOUR, limits);
    assert_eq!(published.total_tokens_24h, Some(300));
    assert_eq!(store.points, vec![point(NOW - HOUR, 100), point(NOW - 2 * HOUR, 200)]);
    assert_eq!(store.current_snapshot().total_tokens_24h, Some(300));
}

#[test]
fn total_of_three_samples_is_their_sum() {
    let mut store = UsageStore::new();
    store.record_sample(NOW - 23 * HOUR, 50);
    store.record_sample(NOW - 2 * HOUR, 200);
    store.record_sample(NOW - HOUR, 100);
    assert_eq!(store.current_snapshot().total_tokens_24h, Some(350));
    let refreshed = store.refresh_live(NOW + 2 * HOUR, None).unwrap();
    assert_eq!(refreshed.total_tokens_24h, Some(300));
}

#[test]
fn rate_limits_are_replaced_whole() {
    let mut store = UsageStore::new();
    let first = RateLimitSnapshot { primary: Some(window(10)), secondary: None };
    let second = RateLimitSnapshot { primary: None, secondary: Some(window(20)) };
    store.record_rate_limits(NOW, first);
    let published = store.record_rate_limits(NOW + 1, second);
    assert_eq!(published.rate_limits, Some(second));
    assert_eq!(store.last_rate_limits, Some(second));
    assert_eq!(store.last_rate_limits.unwrap().primary, None);
    assert_eq!(store.current_snapshot().rate_limits.unwrap().secondary, Some(window(20)));
}

#[test]
fn rate_limits_without_samples_keep_the_earlier_total() {
    let mut store = UsageStore::new();
    let limits = RateLimitSnapshot { primary: Some(window(3)), secondary: None };
    let first = store.record_rate_limits(NOW, limits);
    assert_eq!(first.total_tokens_24h, None);
    assert_eq!(first.updated_at_ms, Some(NOW));
    assert_eq!(first.source, UsageSource::LiveSession);
    store.record_sample(NOW, 9);
    let later = store.record_rate_limits(NOW + 30 * HOUR, limits);
    assert!(store.points.is_empty());
    assert_eq!(later.total_tokens_24h, Some(9));
}

#[test]
fn samples_carry_the_known_rate_limits() {
    let mut store = UsageStore::new();
    let limits = RateLimitSnapshot { primary: Some(window(64)), secondary: Some(window(2)) };
    store.record_rate_limits(NOW, limits);
    let published = store.record_sample(NOW + 1, 5).unwrap();
    assert_eq!(published.rate_limits, Some(limits));
}

#[test]
fn deltas_of_zero_or_less_are_never_recorded() {
    let mut store = UsageStore::new();
    let mut published = Vec::new();
    for (offset, delta) in [50, -10, 0, 30].into_iter().enumerate() {
        published.push(store.record_sample(NOW + offset as i64, delta));
    }
    assert_eq!(store.points, vec![point(NOW, 50), point(NOW + 3, 30)]);
    assert_eq!(store.current_snapshot().total_tokens_24h, Some(80));
    assert!(published[0].is_some());
    assert!(published[1].is_none());
    assert!(published[2].is_none());
    assert!(published[3].is_some());
}

#[test]
fn noise_leaves_the_store_untouched() {
    let mut store = UsageStore::new();
    store.record_sample(NOW, 5);
    let before = store.clone();
    assert_eq!(store.record_sample(NOW + 40 * HOUR, 0), None);
    assert_eq!(store.record_sample(NOW + 40 * HOUR, i64::MIN), None);
    assert_eq!(store.points, before.points);
    assert_eq!(store.last_snapshot, before.last_snapshot);
    assert_eq!(store.last_rate_limits, before.last_rate_limits);
}

#[test]
fn published_total_stops_at_the_largest_total() {
    let mut store = UsageStore::new();
    store.record_sample(NOW, i64::MAX);
    let published = store.record_sample(NOW + 1, i64::MAX).unwrap();
    assert_eq!(published.total_tokens_24h, Some(i64::MAX));
    assert!(store.is_valid());
}

#[test]
fn refresh_with_live_samples_publishes_them() {
    let mut store = UsageStore::new();
    store.record_sample(NOW, 10);
    let fresh = RateLimitSnapshot { primary: Some(window(77)), secondary: None };
    let published = store.refresh_live(NOW + HOUR, Some(fresh)).unwrap();
    assert_eq!(
        published,
        UsageSnapshot {
            total_tokens_24h: Some(10),
            updated_at_ms: Some(NOW + HOUR),
            source: UsageSource::LiveSession,
            rate_limits: Some(fresh),
        }
    );
    assert_eq!(store.last_rate_limits, Some(fresh));
    assert_eq!(store.last_snapshot, Some(published));
}

#[test]
fn refresh_without_fresh_limits_keeps_the_known_ones() {
    let mut store = UsageStore::new();
    let known = RateLimitSnapshot { primary: Some(window(5)), secondary: None };
    store.record_rate_limits(NOW, known);
    store.record_sample(NOW, 10);
    let published = store.refresh_live(NOW + 1, None).unwrap();
    assert_eq!(published.rate_limits, Some(known));
    assert_eq!(store.last_rate_limits, Some(known));
}

#[test]
fn refresh_without_live_samples_asks_for_a_scan() {
    let mut store = UsageStore::new();
    store.record_sample(NOW, 10);
    let before = store.last_snapshot;
    assert_eq!(store.refresh_live(NOW + 25 * HOUR, None), None);
    assert!(store.points.is_empty());
    assert_eq!(store.last_snapshot, before);
}

#[test]
fn scan_total_is_published_as_coming_from_the_logs() {
    let mut store = UsageStore::new();
    let outcome = store.refresh_scanned(NOW, None, Ok(Some(1234)));
    assert!(outcome.published);
    assert_eq!(
        outcome.snapshot,
        UsageSnapshot {
            total_tokens_24h: Some(1234),
            updated_at_ms: Some(NOW),
            source: UsageSource::LogScan,
            rate_limits: None,
        }
    );
    assert_eq!(store.current_snapshot(), outcome.snapshot);
}

#[test]
fn scan_with_nothing_to_read_publishes_rate_limits_only() {
    let mut store = UsageStore::new();
    let fresh = RateLimitSnapshot { primary: None, secondary: Some(window(8)) };
    let outcome = store.refresh_scanned(NOW, Some(fresh), Ok(None));
    assert!(outcome.published);
    assert_eq!(
        outcome.snapshot,
        UsageSnapshot {
            total_tokens_24h: None,
            updated_at_ms: None,
            source: UsageSource::Absent,
            rate_limits: Some(fresh),
        }
    );
    assert_eq!(store.last_rate_limits, Some(fresh));
}

#[test]
fn failed_scan_hands_back_the_last_snapshot() {
    let mut store = UsageStore::new();
    store.record_sample(NOW, 3);
    let before = store.clone();
    let outcome =
        store.refresh_scanned(NOW + 30 * HOUR, None, Err("permission denied".to_string()));
    assert!(!outcome.published);
    assert_eq!(outcome.snapshot, before.current_snapshot());
    assert_eq!(store.points, before.points);
    assert_eq!(store.last_snapshot, before.last_snapshot);
}

#[test]
fn failed_scan_on_a_new_store_gives_the_empty_snapshot() {
    let mut store = UsageStore::new();
    let outcome = store.refresh_scanned(NOW, None, Err("gone".to_string()));
    assert!(!outcome.published);
    assert_eq!(outcome.snapshot, empty_usage_snapshot());
}

#[test]
fn live_samples_win_over_a_scan() {
    let mut store = UsageStore::new();
    store.record_sample(NOW, 21);
    let outcome = store.refresh_scanned(NOW + 1, None, Ok(Some(9999)));
    assert!(outcome.published);
    assert_eq!(outcome.snapshot.total_tokens_24h, Some(21));
    assert_eq!(outcome.snapshot.source, UsageSource::LiveSession);
}

#[test]
fn store_with_a_non_positive_point_is_not_valid() {
    let mut store = UsageStore::new();
    store.points = vec![point(NOW, 1), point(NOW, 0)];
    assert!(!store.is_valid());
    store.points = vec![point(NOW, 1)];
    assert!(store.is_valid());
    store.last_snapshot = Some(UsageSnapshot {
        total_tokens_24h: Some(-1),
        updated_at_ms: None,
        source: UsageSource::LogScan,
        rate_limits: None,
    });
    assert!(!store.is_valid());
}
