use monitors::enumerate::{collect_handles, MonitorCollector, MonitorHandle};
use monitors::size::{query_monitor_size, MonitorRect, QueryError};

#[test]
fn full_hd_rectangle_dimensions() {
    let rect = MonitorRect { left: 0, top: 0, right: 1920, bottom: 1080 };
    assert_eq!(rect.dimensions(), Ok((1920, 1080)));
}

#[test]
fn negative_origin_rectangle_dimensions() {
    let rect = MonitorRect { left: -1920, top: -1080, right: 0, bottom: 0 };
    assert_eq!(rect.dimensions(), Ok((1920, 1080)));
}

#[test]
fn degenerate_rectangle_has_zero_extent() {
    let rect = MonitorRect { left: 400, top: -3, right: 400, bottom: -3 };
    assert_eq!(rect.dimensions(), Ok((0, 0)));
}

#[test]
fn full_span_rectangle_is_exact() {
    let rect = MonitorRect { left: i32::MIN, top: i32::MIN, right: i32::MAX, bottom: i32::MAX };
    assert_eq!(rect.dimensions(), Ok((u32::MAX, u32::MAX)));
}

#[test]
fn horizontally_inverted_rectangle_fails() {
    let rect = MonitorRect { left: 1920, top: 0, right: 0, bottom: 1080 };
    assert_eq!(rect.dimensions(), Err(QueryError::QueryFailed));
}

#[test]
fn vertically_inverted_rectangle_fails() {
    let rect = MonitorRect { left: 0, top: 1080, right: 1920, bottom: 0 };
    assert_eq!(rect.dimensions(), Err(QueryError::QueryFailed));
}

#[test]
fn failed_platform_call_reports_query_failed() {
    assert_eq!(query_monitor_size(None), Err(QueryError::QueryFailed));
}

#[test]
fn successful_query_returns_dimensions() {
    let rect = MonitorRect { left: 2560, top: 0, right: 5120, bottom: 1440 };
    assert_eq!(query_monitor_size(Some(rect)), Ok((2560, 1440)));
}

#[test]
fn query_of_malformed_report_fails() {
    let rect = MonitorRect { left: 0, top: 0, right: -1, bottom: 1080 };
    assert_eq!(query_monitor_size(Some(rect)), Err(QueryError::QueryFailed));
}

#[test]
fn enumeration_with_no_reports_is_empty() {
    let reported: Vec<MonitorHandle> = vec![];
    let handles = collect_handles(&reported);
    assert!(handles.is_empty());
}

#[test]
fn enumeration_keeps_report_order() {
    let reported = vec![
        MonitorHandle { raw: 65537 },
        MonitorHandle { raw: 65539 },
        MonitorHandle { raw: 65541 },
    ];
    let handles = collect_handles(&reported);
    assert_eq!(handles, reported);
}

#[test]
fn repeated_enumeration_has_stable_count() {
    let first_pass = vec![MonitorHandle { raw: 17 }, MonitorHandle { raw: 33 }];
    let second_pass = vec![MonitorHandle { raw: 17 }, MonitorHandle { raw: 33 }];
    let first = collect_handles(&first_pass);
    let second = collect_handles(&second_pass);
    assert_eq!(first.len(), second.len());
}

#[test]
fn collector_appends_and_continues() {
    let mut collector = MonitorCollector::new();
    assert!(collector.handles.is_empty());
    let keep_going = collector.record(MonitorHandle { raw: 7 });
    assert!(keep_going);
    let keep_going = collector.record(MonitorHandle { raw: 9 });
    assert!(keep_going);
    assert_eq!(
        collector.handles,
        vec![MonitorHandle { raw: 7 }, MonitorHandle { raw: 9 }]
    );
}
