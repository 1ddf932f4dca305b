use vstd::prelude::*;
use vstd::string::*;

use crate::client::{
    bucket_url, buckets_url, error_message, event_count_url, events_url, ActivityWatchClient,
    ApiError,
};
use crate::constants::{CHARACTER_LIMIT, DEFAULT_EVENTS_LIMIT};
use crate::models::{
    bucket_markdown, entries_text, event_markdown, opt_text_line, timestamp_text, Bucket, Event,
    ResponseFormat,
};
use crate::text::{int_text, nat_text, push_int, push_nat};

verus! {

/// Input of the bucket listing.
#[derive(Debug, Clone)]
pub struct ListBucketsParams {
    pub response_format: ResponseFormat,
}

/// Input of the single-bucket lookup.
#[derive(Debug, Clone)]
pub struct GetBucketParams {
    pub bucket_id: String,
    pub response_format: ResponseFormat,
}

/// Input of the event query.
#[derive(Debug, Clone)]
pub struct GetEventsParams {
    pub bucket_id: String,
    pub limit: Option<i32>,
    pub start: Option<String>,
    pub end: Option<String>,
    pub response_format: ResponseFormat,
}

/// Input of the event count.
#[derive(Debug, Clone)]
pub struct GetEventCountParams {
    pub bucket_id: String,
    pub start: Option<String>,
    pub end: Option<String>,
}

/// The text a tool hands back, marked as a success or as an error.
#[derive(Debug, Clone)]
pub struct ToolResult {
    pub is_error: bool,
    pub text: String,
}

/// Characters with the Unicode White_Space property.
pub open spec fn is_white_space(c: char) -> bool {
    let u = c as u32;
    (0x9 <= u <= 0xd) || u == 0x20 || u == 0x85 || u == 0xa0 || u == 0x1680 || (0x2000 <= u
        <= 0x200a) || u == 0x2028 || u == 0x2029 || u == 0x202f || u == 0x205f || u == 0x3000
}

/// Empty, or white space only.
pub open spec fn is_blank(s: Seq<char>) -> bool {
    forall|i: int| 0 <= i < s.len() ==> is_white_space(#[trigger] s[i])
}

/// The message given for a blank bucket id.
pub open spec fn empty_id_message() -> Seq<char> {
    "Bucket ID cannot be empty"@
}

/// The limit used when the caller gives none.
pub open spec fn resolved_limit(limit: Option<i32>) -> i32 {
    match limit {
        Some(l) => l,
        None => DEFAULT_EVENTS_LIMIT,
    }
}

/// The notice appended to a cut response.
pub open spec fn truncation_notice() -> Seq<char> {
    "\n\n_Response truncated at "@ + nat_text(CHARACTER_LIMIT as nat)
        + " characters. Use more specific filters to reduce results._"@
}

/// A response cut to the character budget, with a notice, when it exceeds it.
pub open spec fn truncated(s: Seq<char>) -> Seq<char> {
    if s.len() > CHARACTER_LIMIT {
        s.subrange(0, CHARACTER_LIMIT as int) + truncation_notice()
    } else {
        s
    }
}

/// Each bucket's section, between blank lines.
pub open spec fn bucket_sections(bs: Seq<Bucket>) -> Seq<char>
    decreases bs.len(),
{
    if bs.len() == 0 {
        Seq::empty()
    } else {
        bucket_sections(bs.drop_last()) + "\n"@ + bucket_markdown(bs.last()) + "\n"@
    }
}

/// Each event's section, between blank lines.
pub open spec fn event_sections(es: Seq<Event>) -> Seq<char>
    decreases es.len(),
{
    if es.len() == 0 {
        Seq::empty()
    } else {
        event_sections(es.drop_last()) + "\n"@ + event_markdown(es.last()) + "\n"@
    }
}

/// The markdown listing of all buckets, before truncation.
pub open spec fn buckets_report(bs: Seq<Bucket>) -> Seq<char> {
    "# ActivityWatch Buckets\n\nFound "@ + nat_text(bs.len()) + " buckets:\n"@ + bucket_sections(
        bs,
    )
}

/// The markdown description of one bucket.
pub open spec fn bucket_report(b: Bucket) -> Seq<char> {
    "# Bucket Details\n\n"@ + bucket_markdown(b)
}

/// Whether a query returned as many events as it was allowed to.
pub open spec fn limit_reached(count: nat, limit: i32) -> bool {
    count >= limit
}

/// The markdown listing of a bucket's events, before truncation.
pub open spec fn events_report(id: Seq<char>, es: Seq<Event>, limit: i32) -> Seq<char> {
    "# Events from "@ + id + "\n\nShowing "@ + nat_text(es.len()) + " events:\n"@ + event_sections(
        es,
    ) + (if limit_reached(es.len(), limit) {
        "\n_Limit of "@ + int_text(limit as int) + " reached. Use pagination to see more._"@
    } else {
        Seq::empty()
    })
}

/// The summary of a bucket's event count, echoing the filters given.
pub open spec fn event_count_report(
    id: Seq<char>,
    count: int,
    start: Option<String>,
    end: Option<String>,
) -> Seq<char> {
    "# Event Count for "@ + id + "\n\n**Total Events**: "@ + int_text(count) + opt_text_line(
        "\n**From**: "@,
        start,
    ) + opt_text_line("\n**To**: "@, end)
}

/// The error text of a failed tool call: what failed, then why.
pub open spec fn failure_text(what: Seq<char>, e: ApiError) -> Seq<char> {
    "Failed to "@ + what + ": "@ + error_message(e)
}

/// Whether a character has the Unicode White_Space property.
pub fn is_white_space_char(c: char) -> (r: bool)
    ensures
        r == is_white_space(c),
{
    let u = c as u32;
    (0x9 <= u && u <= 0xd) || u == 0x20 || u == 0x85 || u == 0xa0 || u == 0x1680 || (0x2000 <= u
        && u <= 0x200a) || u == 0x2028 || u == 0x2029 || u == 0x202f || u == 0x205f || u == 0x3000
}

/// Whether `s` is empty or holds white space only.
pub fn is_blank_str(s: &str) -> (r: bool)
    ensures
        r == is_blank(s@),
{
    let n = s.unicode_len();
    let mut i: usize = 0;
    while i < n
        invariant
            n == s@.len(),
            i <= n,
            forall|j: int| 0 <= j < i ==> is_white_space(#[trigger] s@[j]),
        decreases n - i,
    {
        if !is_white_space_char(s.get_char(i)) {
            return false;
        }
        i = i + 1;
    }
    true
}

/// Rejects a blank bucket id with the error result that callers receive.
pub fn validate_bucket_id(bucket_id: &str) -> (r: Option<ToolResult>)
    ensures
        is_blank(bucket_id@) <==> r is Some,
        r matches Some(e) ==> e.is_error && e.text@ == empty_id_message(),
{
    if is_blank_str(bucket_id) {
        Some(ToolResult { is_error: true, text: String::from_str("Bucket ID cannot be empty") })
    } else {
        None
    }
}

/// The event limit to use: the caller's, else the default.
pub fn resolve_limit(limit: Option<i32>) -> (r: i32)
    ensures
        r == resolved_limit(limit),
        limit is None ==> r == 100,
{
    match limit {
        Some(l) => l,
        None => DEFAULT_EVENTS_LIMIT,
    }
}

/// Cuts a response that exceeds the character budget and says where it was cut.
/// The cut falls between characters, never inside one.
pub fn truncate_response(response: String) -> (r: String)
    ensures
        r@ == truncated(response@),
{
    let n = response.as_str().unicode_len();
    if n > CHARACTER_LIMIT {
        let kept = response.as_str().substring_char(0, CHARACTER_LIMIT);
        let mut s = String::from_str(kept);
        s.append("\n\n_Response truncated at ");
        push_nat(&mut s, CHARACTER_LIMIT as u64);
        s.append(" characters. Use more specific filters to reduce results._");
        assert(s@ =~= truncated(response@));
        s
    } else {
        response
    }
}

fn success(text: String) -> (r: ToolResult)
    ensures
        !r.is_error,
        r.text == text,
{
    ToolResult { is_error: false, text }
}

fn failure(what: &str, e: &ApiError) -> (r: ToolResult)
    ensures
        r.is_error,
        r.text@ == failure_text(what@, *e),
{
    let mut s = String::from_str("Failed to ");
    s.append(what);
    s.append(": ");
    let m = e.message();
    s.append(m.as_str());
    ToolResult { is_error: true, text: s }
}

/// The markdown listing of all buckets, before truncation.
pub fn render_buckets(buckets: &Vec<Bucket>) -> (r: String)
    ensures
        r@ == buckets_report(buckets@),
{
    let mut s = String::from_str("# ActivityWatch Buckets\n\nFound ");
    push_nat(&mut s, buckets.len() as u64);
    s.append(" buckets:\n");
    let ghost head = "# ActivityWatch Buckets\n\nFound "@ + nat_text(buckets@.len()) + " buckets:\n"@;
    let mut i: usize = 0;
    while i < buckets.len()
        invariant
            i <= buckets@.len(),
            s@ == head + bucket_sections(buckets@.subrange(0, i as int)),
        decreases buckets@.len() - i,
    {
        s.append("\n");
        let section = buckets[i].to_markdown();
        s.append(section.as_str());
        s.append("\n");
        proof {
            let sub = buckets@.subrange(0, i as int + 1);
            assert(sub.drop_last() =~= buckets@.subrange(0, i as int));
        }
        i = i + 1;
        assert(s@ =~= head + bucket_sections(buckets@.subrange(0, i as int)));
    }
    assert(buckets@.subrange(0, buckets@.len() as int) =~= buckets@);
    assert(s@ =~= buckets_report(buckets@));
    s
}

/// The markdown listing of a bucket's events, before truncation: a notice closes
/// it when as many events came back as the limit allowed.
pub fn render_events(bucket_id: &str, events: &Vec<Event>, limit: i32) -> (r: String)
    ensures
        r@ == events_report(bucket_id@, events@, limit),
{
    let mut s = String::from_str("# Events from ");
    s.append(bucket_id);
    s.append("\n\nShowing ");
    push_nat(&mut s, events.len() as u64);
    s.append(" events:\n");
    let ghost head = "# Events from "@ + bucket_id@ + "\n\nShowing "@ + nat_text(events@.len())
        + " events:\n"@;
    let mut i: usize = 0;
    while i < events.len()
        invariant
            i <= events@.len(),
            s@ == head + event_sections(events@.subrange(0, i as int)),
        decreases events@.len() - i,
    {
        s.append("\n");
        let section = events[i].to_markdown();
        s.append(section.as_str());
        s.append("\n");
        proof {
            let sub = events@.subrange(0, i as int + 1);
            assert(sub.drop_last() =~= events@.subrange(0, i as int));
        }
        i = i + 1;
        assert(s@ =~= head + event_sections(events@.subrange(0, i as int)));
    }
    assert(events@.subrange(0, events@.len() as int) =~= events@);
    if limit <= 0 || events.len() >= limit as usize {
        s.append("\n_Limit of ");
        push_int(&mut s, limit as i64);
        s.append(" reached. Use pagination to see more._");
    }
    assert(s@ =~= events_report(bucket_id@, events@, limit));
    s
}

/// The summary of a bucket's event count.
pub fn render_event_count(
    bucket_id: &str,
    count: i64,
    start: &Option<String>,
    end: &Option<String>,
) -> (r: String)
    ensures
        r@ == event_count_report(bucket_id@, count as int, *start, *end),
{
    let mut s = String::from_str("# Event Count for ");
    s.append(bucket_id);
    s.append("\n\n**Total Events**: ");
    push_int(&mut s, count);
    let ghost head = s@;
    if let Some(x) = start {
        s.append("\n**From**: ");
        s.append(x.as_str());
    }
    assert(s@ =~= head + opt_text_line("\n**From**: "@, *start));
    let ghost mid = s@;
    if let Some(x) = end {
        s.append("\n**To**: ");
        s.append(x.as_str());
    }
    assert(s@ =~= mid + opt_text_line("\n**To**: "@, *end));
    assert(s@ =~= event_count_report(bucket_id@, count as int, *start, *end));
    s
}

/// Address for the bucket listing, which takes no input to check.
pub fn list_buckets_request(client: &ActivityWatchClient) -> (r: String)
    ensures
        r@ == buckets_url(client.base()),
{
    client.buckets_url()
}

/// The request for one bucket, or the error result when the id is blank.
pub fn get_bucket_request(client: &ActivityWatchClient, params: &GetBucketParams) -> (r: Result<
    String,
    ToolResult,
>)
    ensures
        is_blank(params.bucket_id@) <==> r is Err,
        r matches Err(e) ==> e.is_error && e.text@ == empty_id_message(),
        r matches Ok(url) ==> url@ == bucket_url(client.base(), params.bucket_id@),
{
    match validate_bucket_id(params.bucket_id.as_str()) {
        Some(e) => Err(e),
        None => Ok(client.bucket_url(params.bucket_id.as_str())),
    }
}

/// The request for a bucket's events, with the resolved limit, or the error
/// result when the id is blank.
pub fn get_events_request(client: &ActivityWatchClient, params: &GetEventsParams) -> (r: Result<
    String,
    ToolResult,
>)
    ensures
        is_blank(params.bucket_id@) <==> r is Err,
        r matches Err(e) ==> e.is_error && e.text@ == empty_id_message(),
        r matches Ok(url) ==> url@ == events_url(
            client.base(),
            params.bucket_id@,
            Some(resolved_limit(params.limit)),
            params.start,
            params.end,
        ),
{
    match validate_bucket_id(params.bucket_id.as_str()) {
        Some(e) => Err(e),
        None => {
            let limit = resolve_limit(params.limit);
            Ok(client.events_url(params.bucket_id.as_str(), Some(limit), &params.start, &params.end))
        },
    }
}

/// The request for a bucket's event count, or the error result when the id is blank.
pub fn get_event_count_request(client: &ActivityWatchClient, params: &GetEventCountParams) -> (r:
    Result<String, ToolResult>)
    ensures
        is_blank(params.bucket_id@) <==> r is Err,
        r matches Err(e) ==> e.is_error && e.text@ == empty_id_message(),
        r matches Ok(url) ==> url@ == event_count_url(
            client.base(),
            params.bucket_id@,
            params.start,
            params.end,
        ),
{
    match validate_bucket_id(params.bucket_id.as_str()) {
        Some(e) => Err(e),
        None => Ok(client.event_count_url(params.bucket_id.as_str(), &params.start, &params.end)),
    }
}

/// The result of the bucket listing. `structured` is the JSON text of the
/// buckets, handed back unchanged when JSON was asked for.
pub fn list_buckets_result(
    params: &ListBucketsParams,
    outcome: &Result<Vec<Bucket>, ApiError>,
    structured: &String,
) -> (r: ToolResult)
    ensures
        *outcome is Err <==> r.is_error,
        *outcome matches Err(e) ==> r.text@ == failure_text("list buckets"@, e),
        *outcome matches Ok(bs) ==> r.text@ == (match params.response_format {
            ResponseFormat::Markdown => truncated(buckets_report(bs@)),
            ResponseFormat::Json => structured@,
        }),
{
    match outcome {
        Err(e) => failure("list buckets", e),
        Ok(buckets) => match params.response_format {
            ResponseFormat::Markdown => success(truncate_response(render_buckets(buckets))),
            ResponseFormat::Json => success(structured.clone()),
        },
    }
}

/// The result of the single-bucket lookup. `structured` is the JSON text of
/// the bucket, handed back unchanged when JSON was asked for.
pub fn get_bucket_result(
    params: &GetBucketParams,
    outcome: &Result<Bucket, ApiError>,
    structured: &String,
) -> (r: ToolResult)
    ensures
        *outcome is Err <==> r.is_error,
        *outcome matches Err(e) ==> r.text@ == failure_text("get bucket"@, e),
        *outcome matches Ok(b) ==> r.text@ == (match params.response_format {
            ResponseFormat::Markdown => bucket_report(b),
            ResponseFormat::Json => structured@,
        }),
{
    match outcome {
        Err(e) => failure("get bucket", e),
        Ok(bucket) => match params.response_format {
            ResponseFormat::Markdown => {
                let mut s = String::from_str("# Bucket Details\n\n");
                let section = bucket.to_markdown();
                s.append(section.as_str());
                success(s)
            },
            ResponseFormat::Json => success(structured.clone()),
        },
    }
}

/// The result of the event query. `structured` is the JSON text of the
/// events, handed back unchanged when JSON was asked for.
pub fn get_events_result(
    params: &GetEventsParams,
    outcome: &Result<Vec<Event>, ApiError>,
    structured: &String,
) -> (r: ToolResult)
    ensures
        *outcome is Err <==> r.is_error,
        *outcome matches Err(e) ==> r.text@ == failure_text("get events"@, e),
        *outcome matches Ok(es) ==> r.text@ == (match params.response_format {
            ResponseFormat::Markdown => truncated(
                events_report(params.bucket_id@, es@, resolved_limit(params.limit)),
            ),
            ResponseFormat::Json => structured@,
        }),
{
    match outcome {
        Err(e) => failure("get events", e),
        Ok(events) => match params.response_format {
            ResponseFormat::Markdown => {
                let limit = resolve_limit(params.limit);
                success(truncate_response(render_events(params.bucket_id.as_str(), events, limit)))
            },
            ResponseFormat::Json => success(structured.clone()),
        },
    }
}

/// The result of the event count.
pub fn get_event_count_result(params: &GetEventCountParams, outcome: &Result<i64, ApiError>) -> (r:
    ToolResult)
    ensures
        *outcome is Err <==> r.is_error,
        *outcome matches Err(e) ==> r.text@ == failure_text("get event count"@, e),
        *outcome matches Ok(n) ==> r.text@ == event_count_report(
            params.bucket_id@,
            n as int,
            params.start,
            params.end,
        ),
{
    match outcome {
        Err(e) => failure("get event count", e),
        Ok(n) => success(
            render_event_count(params.bucket_id.as_str(), *n, &params.start, &params.end),
        ),
    }
}

/// Whether `t` occurs in `s`.
pub open spec fn contains(s: Seq<char>, t: Seq<char>) -> bool {
    exists|i: int| 0 <= i && i + t.len() <= s.len() && #[trigger] s.subrange(i, i + t.len()) == t
}

proof fn lemma_contains_at(s: Seq<char>, t: Seq<char>, i: int)
    requires
        0 <= i,
        i + t.len() <= s.len(),
        s.subrange(i, i + t.len()) =~= t,
    ensures
        contains(s, t),
{
}

/// Each optional field of a bucket contributes one labelled line when present and
/// nothing at all when absent, after the id heading and in a fixed order.
pub proof fn lemma_bucket_fields(b: Bucket)
    ensures
        bucket_markdown(b) == "## "@ + b.id@ + (if b.client is Some {
            "\n- **Client**: "@ + b.client->0@
        } else {
            Seq::empty()
        }) + (if b.bucket_type is Some {
            "\n- **Type**: "@ + b.bucket_type->0@
        } else {
            Seq::empty()
        }) + (if b.hostname is Some {
            "\n- **Hostname**: "@ + b.hostname->0@
        } else {
            Seq::empty()
        }) + (if b.created is Some {
            "\n- **Created**: "@ + timestamp_text(b.created->0)
        } else {
            Seq::empty()
        }) + (if b.data is Some {
            "\n- **Data**: "@ + "{"@ + entries_text(b.data->0@) + "}"@
        } else {
            Seq::empty()
        }) + (if b.last_updated is Some {
            "\n- **Last Updated**: "@ + timestamp_text(b.last_updated->0)
        } else {
            Seq::empty()
        }),
{
    reveal(bucket_markdown);
}

/// A bucket whose optional fields are all absent renders as its heading alone.
pub proof fn lemma_bare_bucket_markdown(b: Bucket)
    requires
        b.client is None,
        b.bucket_type is None,
        b.hostname is None,
        b.created is None,
        b.data is None,
        b.last_updated is None,
    ensures
        bucket_markdown(b) == "## "@ + b.id@,
{
    lemma_bucket_fields(b);
    assert(bucket_markdown(b) =~= "## "@ + b.id@);
}

/// Without a limit from the caller the limit is 100, and the event listing ends
/// with the limit notice exactly when at least 100 events came back.
pub proof fn lemma_default_limit(id: Seq<char>, es: Seq<Event>)
    ensures
        resolved_limit(None) == 100,
        events_report(id, es, resolved_limit(None)) == "# Events from "@ + id + "\n\nShowing "@
            + nat_text(es.len()) + " events:\n"@ + event_sections(es) + (if es.len() >= 100 {
            "\n_Limit of "@ + int_text(100) + " reached. Use pagination to see more._"@
        } else {
            Seq::empty()
        }),
{
}

/// A response over the character budget keeps exactly its first 25000 characters,
/// followed by the notice; one within the budget is left as it is.
pub proof fn lemma_truncation(s: Seq<char>)
    ensures
        s.len() > 25000 ==> truncated(s) == s.subrange(0, 25000) + truncation_notice(),
        s.len() > 25000 ==> truncated(s).subrange(0, 25000) == s.subrange(0, 25000),
        s.len() <= 25000 ==> truncated(s) == s,
{
    if s.len() > 25000 {
        assert(truncated(s).subrange(0, 25000) =~= s.subrange(0, 25000));
    }
}

/// A lookup answered with status 404 reports "not found" together with the body
/// the server sent; one answered with status 500 reports a "server error".
pub proof fn lemma_status_reported(reason: String, body: String)
    ensures
        contains(
            failure_text("get bucket"@, ApiError::Status { code: 404, reason, body }),
            "not found"@,
        ),
        contains(failure_text("get bucket"@, ApiError::Status { code: 404, reason, body }), body@),
        contains(
            failure_text("get bucket"@, ApiError::Status { code: 500, reason, body }),
            "server error"@,
        ),
{
    reveal_strlit("Failed to ");
    reveal_strlit("get bucket");
    reveal_strlit(": ");
    reveal_strlit("Resource not found. Please check the bucket ID. Details: ");
    reveal_strlit("ActivityWatch server error: ");
    reveal_strlit("not found");
    reveal_strlit("server error");
    let nf = failure_text("get bucket"@, ApiError::Status { code: 404, reason, body });
    let pre = "Failed to "@ + "get bucket"@ + ": "@;
    let msg = "Resource not found. Please check the bucket ID. Details: "@;
    assert(nf =~= pre + msg + body@);
    lemma_contains_at(nf, "not found"@, (pre.len() + 9) as int);
    lemma_contains_at(nf, body@, (pre.len() + msg.len()) as int);
    let se = failure_text("get bucket"@, ApiError::Status { code: 500, reason, body });
    assert(se =~= pre + "ActivityWatch server error: "@ + body@);
    lemma_contains_at(se, "server error"@, (pre.len() + 14) as int);
}

} // verus!
