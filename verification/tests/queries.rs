use sharp_decrease::monitoring::Search;
use sharp_decrease::queries::{add_filter, range_query, CountQuery, Filter, Query, TermsCountQuery};
use sharp_decrease::sharp_decrease::SharpDecrease;
use sharp_decrease::sharp_decrease_grouped::SharpDecreaseGrouped;
use sharp_decrease::time::{Duration, Timestamp};

fn rfc3339(millis: i64) -> String {
    chrono::DateTime::<chrono::Utc>::from_timestamp_millis(millis)
        .unwrap()
        .to_rfc3339()
}

fn search_with(filters: Vec<Filter>) -> Search {
    Search {
        index: "events-*".to_string(),
        doc_type: None,
        filters,
        time_field: "@timestamp".to_string(),
    }
}

#[test]
fn range_filter_wire_shape() {
    // range_filter("@timestamp", t0, t0 + 10 minutes) renders as
    // {"range":{"@timestamp":{"gte":<t0>,"lte":<t0+10m>}}}.
    let t0: i64 = 1_700_000_000_000;
    let f = range_query(
        "@timestamp".to_string(),
        Timestamp { millis: t0 },
        Timestamp { millis: t0 + 600_000 },
    );
    let expected = format!(
        "{{\"range\":{{\"@timestamp\":{{\"gte\":\"{}\",\"lte\":\"{}\"}}}}}}",
        rfc3339(t0),
        rfc3339(t0 + 600_000),
    );
    assert_eq!(f.render(), expected);
}

#[test]
fn range_filter_epoch_is_rfc3339() {
    let f = range_query(
        "ts".to_string(),
        Timestamp { millis: 0 },
        Timestamp { millis: 1_500 },
    );
    assert_eq!(
        f.render(),
        "{\"range\":{\"ts\":{\"gte\":\"1970-01-01T00:00:00+00:00\",\
         \"lte\":\"1970-01-01T00:00:01.500+00:00\"}}}"
    );
}

#[test]
fn range_filter_is_pure() {
    // Two calls with identical arguments yield structurally identical
    // filters, and identical text.
    let from = Timestamp { millis: 1_700_000_000_000 };
    let to = Timestamp { millis: 1_700_000_600_000 };
    let a = range_query("@timestamp".to_string(), from, to);
    let b = range_query("@timestamp".to_string(), from, to);
    assert!(a == b);
    assert_eq!(a.render(), b.render());
}

#[test]
fn degenerate_range_is_kept() {
    // from == to is a valid, always-document-free range; it is not
    // special-cased.
    let t = Timestamp { millis: 42_000 };
    let f = range_query("ts".to_string(), t, t);
    let ts = rfc3339(42_000);
    assert_eq!(
        f.render(),
        format!("{{\"range\":{{\"ts\":{{\"gte\":\"{}\",\"lte\":\"{}\"}}}}}}", ts, ts)
    );
}

#[test]
fn add_filter_copies_and_appends() {
    let base = vec![Filter::Raw { json: "{\"term\":{\"env\":\"prod\"}}".to_string() }];
    let extra = Filter::Raw { json: "{\"exists\":{\"field\":\"host\"}}".to_string() };
    let combined = add_filter(&base, extra);
    assert_eq!(base.len(), 1);
    assert_eq!(combined.len(), 2);
}

#[test]
fn count_query_path_without_doc_type() {
    let q = CountQuery {
        index: "events-*".to_string(),
        doc_type: None,
        filters: Vec::new(),
    };
    assert_eq!(q.path(), "events-*/_count");
}

#[test]
fn count_query_path_with_doc_type() {
    let q = CountQuery {
        index: "events-*".to_string(),
        doc_type: Some("doc".to_string()),
        filters: Vec::new(),
    };
    assert_eq!(q.path(), "events-*/doc/_count");
}

#[test]
fn count_query_payload_wire_shape() {
    let q = CountQuery {
        index: "events-*".to_string(),
        doc_type: None,
        filters: vec![
            Filter::Raw { json: "{\"term\":{\"env\":\"prod\"}}".to_string() },
            Filter::Raw { json: "{\"exists\":{\"field\":\"host\"}}".to_string() },
        ],
    };
    assert_eq!(
        q.payload(),
        "{\"query\":{\"bool\":{\"filter\":[{\"term\":{\"env\":\"prod\"}},\
         {\"exists\":{\"field\":\"host\"}}]}}}"
    );
}

#[test]
fn terms_query_path_and_payload_wire_shape() {
    let q = TermsCountQuery {
        index: "events-*".to_string(),
        doc_type: Some("doc".to_string()),
        filters: vec![Filter::Raw { json: "{\"term\":{\"env\":\"prod\"}}".to_string() }],
        key: "host".to_string(),
        count: 10,
    };
    assert_eq!(q.path(), "events-*/doc/_search");
    assert_eq!(
        q.payload(),
        "{\"size\":0,\"query\":{\"bool\":{\"filter\":[{\"term\":{\"env\":\"prod\"}}]}},\
         \"aggregations\":{\"group_by_key\":{\"terms\":{\"field\":\"host\",\"count\":10}}}}"
    );
}

#[test]
fn terms_query_empty_filters_and_large_count() {
    let q = TermsCountQuery {
        index: "i".to_string(),
        doc_type: None,
        filters: Vec::new(),
        key: "k".to_string(),
        count: 4_000_000_000,
    };
    assert_eq!(
        q.payload(),
        "{\"size\":0,\"query\":{\"bool\":{\"filter\":[]}},\
         \"aggregations\":{\"group_by_key\":{\"terms\":{\"field\":\"k\",\"count\":4000000000}}}}"
    );
}

#[test]
fn building_windows_never_mutates_base_filters() {
    // Two windowed queries derived from one descriptor leave the
    // descriptor's own filter list untouched, and each carries its own copy.
    let monitor = SharpDecrease {
        interval: Duration { millis: 600_000 },
        look_back: 5,
        factor: 2,
        search: search_with(vec![Filter::Raw {
            json: "{\"term\":{\"env\":\"prod\"}}".to_string(),
        }]),
    };
    let q1 = monitor.count_query(Timestamp { millis: 0 }, Timestamp { millis: 600_000 });
    let q2 = monitor.count_query(
        Timestamp { millis: 600_000 },
        Timestamp { millis: 1_200_000 },
    );
    assert_eq!(monitor.search.filters.len(), 1);
    assert_eq!(q1.filters.len(), 2);
    assert_eq!(q2.filters.len(), 2);
    assert!(q1.filters[1] != q2.filters[1]);
}

#[test]
fn grouped_window_query_carries_grouping() {
    let monitor = SharpDecreaseGrouped {
        interval: Duration { millis: 600_000 },
        look_back: 5,
        factor: 2,
        key: "host".to_string(),
        groups_count: 7,
        search: search_with(Vec::new()),
    };
    let q = monitor.terms_query(Timestamp { millis: 0 }, Timestamp { millis: 600_000 });
    assert_eq!(monitor.search.filters.len(), 0);
    assert_eq!(q.filters.len(), 1);
    assert_eq!(q.key, "host");
    assert_eq!(q.count, 7);
    assert_eq!(q.path(), "events-*/_search");
}
