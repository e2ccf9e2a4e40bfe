use sharp_decrease::monitoring::{
    ConfigError, GroupedSharpDecreaseConfig, IntoMonitoring, Search, SharpDecreaseConfig,
};
use sharp_decrease::time::{windows, Duration, Timestamp};

fn search() -> Search {
    Search {
        index: "events-*".to_string(),
        doc_type: Some("doc".to_string()),
        filters: Vec::new(),
        time_field: "@timestamp".to_string(),
    }
}

fn config(factor: u8, look_back: u8, interval_millis: i64) -> SharpDecreaseConfig {
    SharpDecreaseConfig {
        search: search(),
        interval: Duration { millis: interval_millis },
        look_back,
        factor,
    }
}

#[test]
fn valid_config_builds_the_monitor() {
    let m = config(2, 5, 600_000).validate().unwrap();
    assert_eq!(m.factor, 2);
    assert_eq!(m.look_back, 5);
    assert_eq!(m.interval.millis, 600_000);
    assert_eq!(m.search.index, "events-*");
}

#[test]
fn zero_factor_is_rejected() {
    assert_eq!(config(0, 5, 600_000).validate().err(), Some(ConfigError::NonPositiveFactor));
}

#[test]
fn zero_look_back_is_rejected() {
    assert_eq!(config(2, 0, 600_000).validate().err(), Some(ConfigError::NonPositiveLookBack));
}

#[test]
fn negative_interval_is_rejected() {
    assert_eq!(config(2, 5, -1).validate().err(), Some(ConfigError::NegativeInterval));
}

#[test]
fn grouped_config_builds_the_monitor() {
    let cfg = GroupedSharpDecreaseConfig {
        search: search(),
        interval: Duration { millis: 600_000 },
        look_back: 1,
        factor: 2,
        key_field: "host".to_string(),
        groups_count: 25,
    };
    let m = cfg.validate().unwrap();
    assert_eq!(m.key, "host");
    assert_eq!(m.groups_count, 25);
}

#[test]
fn grouped_zero_factor_is_rejected() {
    let cfg = GroupedSharpDecreaseConfig {
        search: search(),
        interval: Duration { millis: 600_000 },
        look_back: 1,
        factor: 0,
        key_field: "host".to_string(),
        groups_count: 25,
    };
    assert_eq!(cfg.validate().err(), Some(ConfigError::NonPositiveFactor));
}

#[test]
fn into_monitoring_carries_every_field() {
    let m = config(3, 7, 60_000).into_monitoring();
    assert_eq!(m.factor, 3);
    assert_eq!(m.look_back, 7);
    assert_eq!(m.interval.millis, 60_000);
}

#[test]
fn windows_pair_shares_the_boundary() {
    // For cursor p, interval i, look-back l: old = [p - i*(l+1), p - i],
    // new = [p - i, p]; old spans l times the new window.
    let w = windows(
        Timestamp { millis: 10_000_000 },
        Duration { millis: 600_000 },
        5,
    );
    assert_eq!(w.old.from.millis, 10_000_000 - 3_600_000);
    assert_eq!(w.old.to.millis, 9_400_000);
    assert_eq!(w.new.from.millis, 9_400_000);
    assert_eq!(w.new.to.millis, 10_000_000);
    assert_eq!(
        w.old.to.millis - w.old.from.millis,
        5 * (w.new.to.millis - w.new.from.millis)
    );
}
