use aw_mcp_server::models::{Bucket, DataValue, Event, ResponseFormat, Timestamp};

fn ts(year: i32, month: u32, day: u32, hour: u32, minute: u32, second: u32) -> Timestamp {
    Timestamp { year, month, day, hour, minute, second, nanosecond: 0 }
}

fn bare_bucket(id: &str) -> Bucket {
    Bucket {
        id: id.to_string(),
        client: None,
        bucket_type: None,
        hostname: None,
        created: None,
        data: None,
        last_updated: None,
    }
}

#[test]
fn response_format_defaults_to_markdown() {
    let format = ResponseFormat::default();
    assert!(matches!(format, ResponseFormat::Markdown));
}

#[test]
fn bucket_markdown_lists_present_fields() {
    let b = Bucket {
        id: "aw-watcher-window_test".to_string(),
        client: Some("aw-watcher-window".to_string()),
        bucket_type: Some("currentwindow".to_string()),
        hostname: Some("testhost".to_string()),
        created: Some(ts(2024, 1, 1, 0, 0, 0)),
        data: None,
        last_updated: Some(ts(2024, 3, 9, 17, 5, 42)),
    };
    assert_eq!(
        b.to_markdown(),
        "## aw-watcher-window_test\n- **Client**: aw-watcher-window\n- **Type**: currentwindow\n- **Hostname**: testhost\n- **Created**: 2024-01-01 00:00:00\n- **Last Updated**: 2024-03-09 17:05:42"
    );
}

#[test]
fn bucket_markdown_omits_absent_fields() {
    assert_eq!(bare_bucket("b1").to_markdown(), "## b1");
    let mut b = bare_bucket("b2");
    b.hostname = Some("h".to_string());
    let md = b.to_markdown();
    assert_eq!(md, "## b2\n- **Hostname**: h");
    assert!(!md.contains("Client"));
    assert!(!md.contains("Created"));
}

#[test]
fn event_markdown_shows_instant_duration_and_data() {
    let e = Event {
        id: Some(1),
        timestamp: ts(2024, 1, 1, 12, 0, 0),
        duration_micros: 60_500_000,
        data: vec![
            ("app".to_string(), DataValue::Str("Firefox".to_string())),
            ("count".to_string(), DataValue::Json("3".to_string())),
            ("title".to_string(), DataValue::Json("\"quoted\"".to_string())),
        ],
    };
    assert_eq!(
        e.to_markdown(),
        "### 2024-01-01 12:00:00 (60.5s)\n- **app**: Firefox\n- **count**: 3\n- **title**: \"quoted\""
    );
}

#[test]
fn duration_rounds_to_tenths() {
    let mut e = Event {
        id: None,
        timestamp: ts(2024, 1, 1, 0, 0, 0),
        duration_micros: 0,
        data: vec![],
    };
    let cases: [(i64, &str); 6] = [
        (0, "0.0"),
        (249_999, "0.2"),
        (250_000, "0.2"),
        (350_000, "0.4"),
        (1_960_000, "2.0"),
        (-40_000, "-0.0"),
    ];
    for (micros, shown) in cases {
        e.duration_micros = micros;
        assert_eq!(e.to_markdown(), format!("### 2024-01-01 00:00:00 ({}s)", shown));
    }
}

#[test]
fn year_outside_four_digits_is_signed() {
    let mut e = Event { id: None, timestamp: ts(12, 2, 3, 4, 5, 6), duration_micros: 0, data: vec![] };
    assert_eq!(e.to_markdown(), "### 0012-02-03 04:05:06 (0.0s)");
    e.timestamp = ts(-44, 3, 15, 0, 0, 0);
    assert_eq!(e.to_markdown(), "### -0044-03-15 00:00:00 (0.0s)");
    e.timestamp = ts(12345, 1, 1, 0, 0, 0);
    assert_eq!(e.to_markdown(), "### +12345-01-01 00:00:00 (0.0s)");
}

#[test]
fn bucket_markdown_shows_metadata() {
    let mut b = bare_bucket("b");
    b.data = Some(vec![("k".to_string(), DataValue::Str("v".to_string()))]);
    assert_eq!(b.to_markdown(), "## b\n- **Data**: {k: v}");
    b.data = Some(vec![
        ("k".to_string(), DataValue::Str("v".to_string())),
        ("n".to_string(), DataValue::Json("[1,2]".to_string())),
    ]);
    b.created = Some(ts(2024, 1, 1, 0, 0, 0));
    b.last_updated = Some(ts(2024, 1, 2, 3, 4, 5));
    assert_eq!(
        b.to_markdown(),
        "## b\n- **Created**: 2024-01-01 00:00:00\n- **Data**: {k: v, n: [1,2]}\n- **Last Updated**: 2024-01-02 03:04:05"
    );
    b.data = Some(vec![]);
    b.created = None;
    b.last_updated = None;
    assert_eq!(b.to_markdown(), "## b\n- **Data**: {}");
}
