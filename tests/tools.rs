use aw_mcp_server::client::{handle_response, ActivityWatchClient, ApiError};
use aw_mcp_server::models::{DataValue, Event, ResponseFormat, Timestamp};
use aw_mcp_server::tools::{
    get_bucket_request, get_bucket_result, get_event_count_request, get_event_count_result,
    get_events_request, get_events_result, list_buckets_request, list_buckets_result,
    render_buckets, resolve_limit, truncate_response, validate_bucket_id, GetBucketParams,
    GetEventCountParams, GetEventsParams, ListBucketsParams,
};
use aw_mcp_server::models::Bucket;

fn event(minute: u32, app: &str) -> Event {
    Event {
        id: None,
        timestamp: Timestamp { year: 2024, month: 5, day: 6, hour: 7, minute, second: 0, nanosecond: 0 },
        duration_micros: 1_500_000,
        data: vec![("app".to_string(), DataValue::Str(app.to_string()))],
    }
}

fn events_params(id: &str, limit: Option<i32>, format: ResponseFormat) -> GetEventsParams {
    GetEventsParams { bucket_id: id.to_string(), limit, start: None, end: None, response_format: format }
}

fn bucket(id: &str) -> Bucket {
    Bucket {
        id: id.to_string(),
        client: None,
        bucket_type: Some("afkstatus".to_string()),
        hostname: None,
        created: None,
        data: None,
        last_updated: None,
    }
}

#[test]
fn blank_bucket_ids_are_rejected() {
    for id in ["", "   ", "\t\n", "\u{3000}\u{a0}"] {
        let e = validate_bucket_id(id).unwrap();
        assert!(e.is_error);
        assert_eq!(e.text, "Bucket ID cannot be empty");
    }
    assert!(validate_bucket_id(" b ").is_none());
}

#[test]
fn blank_ids_never_reach_a_request() {
    let c = ActivityWatchClient::new("http://h");
    let p = GetBucketParams { bucket_id: " ".to_string(), response_format: ResponseFormat::Markdown };
    assert_eq!(get_bucket_request(&c, &p).unwrap_err().text, "Bucket ID cannot be empty");
    let p = events_params("", None, ResponseFormat::Markdown);
    assert_eq!(get_events_request(&c, &p).unwrap_err().text, "Bucket ID cannot be empty");
    let p = GetEventCountParams { bucket_id: "\t".to_string(), start: None, end: None };
    assert_eq!(get_event_count_request(&c, &p).unwrap_err().text, "Bucket ID cannot be empty");
}

#[test]
fn requests_address_the_server() {
    let c = ActivityWatchClient::new("http://h/api/0/");
    assert_eq!(list_buckets_request(&c), "http://h/api/0/buckets/");
    let p = GetBucketParams { bucket_id: "b1".to_string(), response_format: ResponseFormat::Json };
    assert_eq!(get_bucket_request(&c, &p).unwrap(), "http://h/api/0/buckets/b1");
    let p = events_params("b1", None, ResponseFormat::Markdown);
    assert_eq!(get_events_request(&c, &p).unwrap(), "http://h/api/0/buckets/b1/events?limit=100");
    let mut p = events_params("b1", Some(5), ResponseFormat::Markdown);
    p.start = Some("2024-01-01T00:00:00Z".to_string());
    assert_eq!(
        get_events_request(&c, &p).unwrap(),
        "http://h/api/0/buckets/b1/events?limit=5&start=2024-01-01T00:00:00Z"
    );
    let p = GetEventCountParams { bucket_id: "b1".to_string(), start: None, end: Some("e".to_string()) };
    assert_eq!(get_event_count_request(&c, &p).unwrap(), "http://h/api/0/buckets/b1/events/count?end=e");
}

#[test]
fn missing_limit_resolves_to_default() {
    assert_eq!(resolve_limit(None), 100);
    assert_eq!(resolve_limit(Some(7)), 7);
}

#[test]
fn limit_notice_follows_default_limit() {
    let many: Vec<Event> = (0..100).map(|i| event(i % 60, "x")).collect();
    let r = get_events_result(&events_params("b", None, ResponseFormat::Markdown), &Ok(many), &String::new());
    assert!(!r.is_error);
    assert!(r.text.contains("Showing 100 events:"));
    assert!(r.text.ends_with("\n_Limit of 100 reached. Use pagination to see more._"));
    let fewer: Vec<Event> = (0..99).map(|i| event(i % 60, "x")).collect();
    let r = get_events_result(&events_params("b", None, ResponseFormat::Markdown), &Ok(fewer), &String::new());
    assert!(!r.text.contains("Limit of"));
}

#[test]
fn two_events_at_limit_two() {
    let events = vec![event(1, "Firefox"), event(2, "Terminal")];
    let p = events_params("aw-watcher-window_host1", Some(2), ResponseFormat::Markdown);
    let r = get_events_result(&p, &Ok(events), &String::new());
    assert!(!r.is_error);
    assert_eq!(
        r.text,
        "# Events from aw-watcher-window_host1\n\nShowing 2 events:\n\n### 2024-05-06 07:01:00 (1.5s)\n- **app**: Firefox\n\n### 2024-05-06 07:02:00 (1.5s)\n- **app**: Terminal\n\n_Limit of 2 reached. Use pagination to see more._"
    );
}

#[test]
fn no_events_under_limit() {
    let p = events_params("b", Some(3), ResponseFormat::Markdown);
    let r = get_events_result(&p, &Ok(vec![]), &String::new());
    assert_eq!(r.text, "# Events from b\n\nShowing 0 events:\n");
}

#[test]
fn long_responses_are_truncated() {
    let exact = "a".repeat(25_000);
    assert_eq!(truncate_response(exact.clone()), exact);
    let long = format!("{}{}", "é".repeat(25_000), "tail");
    let cut = truncate_response(long);
    assert_eq!(
        cut,
        format!(
            "{}\n\n_Response truncated at 25000 characters. Use more specific filters to reduce results._",
            "é".repeat(25_000)
        )
    );
    assert_eq!(truncate_response(String::new()), "");
}

#[test]
fn structured_output_is_never_truncated() {
    let structured = "x".repeat(40_000);
    let p = events_params("b", None, ResponseFormat::Json);
    let r = get_events_result(&p, &Ok(vec![event(0, "a")]), &structured);
    assert!(!r.is_error);
    assert_eq!(r.text, structured);
    let p = ListBucketsParams { response_format: ResponseFormat::Json };
    let r = list_buckets_result(&p, &Ok(vec![]), &structured);
    assert_eq!(r.text, structured);
}

#[test]
fn bucket_listing_in_markdown() {
    let bs = vec![bucket("a"), bucket("b")];
    assert_eq!(
        render_buckets(&bs),
        "# ActivityWatch Buckets\n\nFound 2 buckets:\n\n## a\n- **Type**: afkstatus\n\n## b\n- **Type**: afkstatus\n"
    );
    let p = ListBucketsParams { response_format: ResponseFormat::Markdown };
    let r = list_buckets_result(&p, &Ok(vec![]), &String::new());
    assert_eq!(r.text, "# ActivityWatch Buckets\n\nFound 0 buckets:\n");
}

#[test]
fn bucket_details_in_markdown() {
    let p = GetBucketParams { bucket_id: "a".to_string(), response_format: ResponseFormat::Markdown };
    let r = get_bucket_result(&p, &Ok(bucket("a")), &String::new());
    assert!(!r.is_error);
    assert_eq!(r.text, "# Bucket Details\n\n## a\n- **Type**: afkstatus");
}

#[test]
fn upstream_status_becomes_error_result() {
    let p = GetBucketParams { bucket_id: "nope".to_string(), response_format: ResponseFormat::Markdown };
    let e = handle_response(404, "Not Found".to_string(), "There's no bucket named nope".to_string());
    let r = get_bucket_result(&p, &Err(e.unwrap_err()), &String::new());
    assert!(r.is_error);
    assert!(r.text.contains("not found"));
    assert!(r.text.contains("There's no bucket named nope"));
    let e = handle_response(500, "Internal Server Error".to_string(), "oops".to_string());
    let r = get_bucket_result(&p, &Err(e.unwrap_err()), &String::new());
    assert!(r.is_error);
    assert!(r.text.contains("server error"));
    assert_eq!(r.text, "Failed to get bucket: ActivityWatch server error: oops");
}

#[test]
fn failures_name_the_operation() {
    let p = ListBucketsParams { response_format: ResponseFormat::Markdown };
    let r = list_buckets_result(&p, &Err(ApiError::Timeout), &String::new());
    assert!(r.is_error);
    assert_eq!(r.text, "Failed to list buckets: Request timed out. Please try again.");
    let p = events_params("b", None, ResponseFormat::Markdown);
    let r = get_events_result(&p, &Err(ApiError::Decode("bad".to_string())), &String::new());
    assert_eq!(r.text, "Failed to get events: Failed to parse API response: bad");
    let p = GetEventCountParams { bucket_id: "b".to_string(), start: None, end: None };
    let r = get_event_count_result(&p, &Err(ApiError::ConnectionFailure));
    assert_eq!(
        r.text,
        "Failed to get event count: Failed to connect to ActivityWatch. Is aw-server running?"
    );
}

#[test]
fn event_count_summary_echoes_filters() {
    let p = GetEventCountParams { bucket_id: "b".to_string(), start: None, end: None };
    let r = get_event_count_result(&p, &Ok(42));
    assert!(!r.is_error);
    assert_eq!(r.text, "# Event Count for b\n\n**Total Events**: 42");
    let p = GetEventCountParams {
        bucket_id: "b".to_string(),
        start: Some("2024-01-01".to_string()),
        end: Some("2024-01-02T00:00:00Z".to_string()),
    };
    let r = get_event_count_result(&p, &Ok(0));
    assert_eq!(
        r.text,
        "# Event Count for b\n\n**Total Events**: 0\n**From**: 2024-01-01\n**To**: 2024-01-02T00:00:00Z"
    );
}
