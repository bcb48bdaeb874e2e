use sproot::granularity::get_aggregated_views;
use sproot::granularity::get_granularity;
use sproot::granularity::select_granularity;
use sproot::granularity::Resolution;

#[test]
fn granularity_zero_and_negative_spans_clamp_to_one() {
    assert_eq!(get_granularity(0), 1);
    assert_eq!(get_granularity(-1), 1);
    assert_eq!(get_granularity(-86400), 1);
    assert_eq!(get_granularity(i64::MIN), 1);
}

#[test]
fn granularity_small_spans() {
    assert_eq!(get_granularity(300), 1);
    assert_eq!(get_granularity(21600), 60);
}

#[test]
fn granularity_caps_at_one_day() {
    assert_eq!(get_granularity(i64::MAX), 86400);
    assert_eq!(get_granularity(100_000_000), 86400);
}

#[test]
fn aggregated_views_by_span() {
    assert_eq!(get_aggregated_views(100_000), "_10m");
    assert_eq!(get_aggregated_views(345_599), "_10m");
    assert_eq!(get_aggregated_views(345_600), "_30m");
    assert_eq!(get_aggregated_views(400_000), "_30m");
}

#[test]
fn select_granularity_degenerate_span_is_min_bucket() {
    match select_granularity(500, 500) {
        Resolution::Bucket(w) => assert_eq!(w, 1),
        Resolution::RollupView(_) => panic!("expected a bucket"),
    }
    match select_granularity(1000, 400) {
        Resolution::Bucket(w) => assert_eq!(w, 1),
        Resolution::RollupView(_) => panic!("expected a bucket"),
    }
}

#[test]
fn select_granularity_bucket_spans() {
    match select_granularity(0, 300) {
        Resolution::Bucket(w) => assert_eq!(w, 1),
        Resolution::RollupView(_) => panic!("expected a bucket"),
    }
    match select_granularity(0, 21600) {
        Resolution::Bucket(w) => assert_eq!(w, 60),
        Resolution::RollupView(_) => panic!("expected a bucket"),
    }
}

#[test]
fn select_granularity_rollup_spans() {
    match select_granularity(0, 100_000) {
        Resolution::RollupView(tag) => assert_eq!(tag, "10m"),
        Resolution::Bucket(_) => panic!("expected a rollup view"),
    }
    match select_granularity(0, 400_000) {
        Resolution::RollupView(tag) => assert_eq!(tag, "30m"),
        Resolution::Bucket(_) => panic!("expected a rollup view"),
    }
}
