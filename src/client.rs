use vstd::prelude::*;
use vstd::string::*;

use crate::text::{int_text, nat_text, push_int, push_nat};

verus! {

/// Where the activity server lives; requests are addressed from here.
#[derive(Debug, Clone)]
pub struct ActivityWatchClient {
    base_url: String,
}

/// Why a request to the activity server failed.
#[derive(Debug, Clone, PartialEq, Eq)]
pub enum ApiError {
    /// The request timed out.
    Timeout,
    /// No connection could be made to the server.
    ConnectionFailure,
    /// Any other transport failure, with its description.
    Network(String),
    /// The server answered with a status outside 200..=299.
    Status { code: u16, reason: String, body: String },
    /// A success response whose body did not have the expected shape.
    Decode(String),
}

/// `s` without the slashes at its end.
pub open spec fn trim_trailing_slashes(s: Seq<char>) -> Seq<char>
    decreases s.len(),
{
    if s.len() > 0 && s.last() == '/' {
        trim_trailing_slashes(s.drop_last())
    } else {
        s
    }
}

/// Query parameters joined as `?a&b&c`; nothing when there are none.
pub open spec fn query_text(parts: Seq<Seq<char>>) -> Seq<char>
    decreases parts.len(),
{
    if parts.len() == 0 {
        Seq::empty()
    } else {
        query_text(parts.drop_last()) + (if parts.len() == 1 {
            seq!['?']
        } else {
            seq!['&']
        }) + parts.last()
    }
}

/// `key=value` when the value is present.
pub open spec fn opt_param(key: Seq<char>, v: Option<String>) -> Seq<Seq<char>> {
    match v {
        Some(s) => seq![key + s@],
        None => Seq::empty(),
    }
}

/// The query parameters of an events request, in the order limit, start, end.
pub open spec fn events_params(limit: Option<i32>, start: Option<String>, end: Option<String>) -> Seq<
    Seq<char>,
> {
    (match limit {
        Some(l) => seq!["limit="@ + int_text(l as int)],
        None => Seq::empty(),
    }) + opt_param("start="@, start) + opt_param("end="@, end)
}

/// Address of the bucket listing.
pub open spec fn buckets_url(base: Seq<char>) -> Seq<char> {
    base + "/buckets/"@
}

/// Address of one bucket.
pub open spec fn bucket_url(base: Seq<char>, id: Seq<char>) -> Seq<char> {
    base + "/buckets/"@ + id
}

/// Address of a bucket's events, with the filters that are present.
pub open spec fn events_url(
    base: Seq<char>,
    id: Seq<char>,
    limit: Option<i32>,
    start: Option<String>,
    end: Option<String>,
) -> Seq<char> {
    base + "/buckets/"@ + id + "/events"@ + query_text(events_params(limit, start, end))
}

/// Address of a bucket's event count, with the filters that are present.
pub open spec fn event_count_url(
    base: Seq<char>,
    id: Seq<char>,
    start: Option<String>,
    end: Option<String>,
) -> Seq<char> {
    base + "/buckets/"@ + id + "/events/count"@ + query_text(
        opt_param("start="@, start) + opt_param("end="@, end),
    )
}

/// Whether a status code means success.
pub open spec fn is_success(code: u16) -> bool {
    200 <= code <= 299
}

/// What a caller is told about a failed request.
pub open spec fn error_message(e: ApiError) -> Seq<char> {
    match e {
        ApiError::Timeout => "Request timed out. Please try again."@,
        ApiError::ConnectionFailure => "Failed to connect to ActivityWatch. Is aw-server running?"@,
        ApiError::Network(d) => "Network error: "@ + d@,
        ApiError::Status { code, reason, body } => if code == 404 {
            "Resource not found. Please check the bucket ID. Details: "@ + body@
        } else if code == 400 {
            "Bad request. Please check your parameters. Details: "@ + body@
        } else if code == 500 {
            "ActivityWatch server error: "@ + body@
        } else {
            "API request failed with status "@ + nat_text(code as nat) + " "@ + reason@ + ": "@
                + body@
        },
        ApiError::Decode(d) => "Failed to parse API response: "@ + d@,
    }
}

/// Appends `key=value` to a query that already holds `*count` parameters.
fn push_param(url: &mut String, count: &mut usize, key: &str, value: &str)
    requires
        *old(count) < usize::MAX,
    ensures
        final(url)@ == old(url)@ + (if *old(count) == 0 {
            seq!['?']
        } else {
            seq!['&']
        }) + key@ + value@,
        *final(count) == *old(count) + 1,
{
    proof {
        reveal_strlit("?");
        reveal_strlit("&");
    }
    if *count == 0 {
        url.append("?");
    } else {
        url.append("&");
    }
    url.append(key);
    url.append(value);
    *count = *count + 1;
}

proof fn lemma_query_push(parts: Seq<Seq<char>>, p: Seq<char>)
    ensures
        query_text(parts.push(p)) == query_text(parts) + (if parts.len() == 0 {
            seq!['?']
        } else {
            seq!['&']
        }) + p,
{
    assert(parts.push(p).drop_last() =~= parts);
}

impl ActivityWatchClient {
    /// The server's base address as used in requests.
    pub closed spec fn base(&self) -> Seq<char> {
        self.base_url@
    }

    /// A client for the server at `base_url`; slashes at its end are dropped.
    pub fn new(base_url: &str) -> (r: Self)
        ensures
            r.base() == trim_trailing_slashes(base_url@),
    {
        let mut n = base_url.unicode_len();
        assert(base_url@.subrange(0, n as int) =~= base_url@);
        while n > 0 && base_url.get_char(n - 1) == '/'
            invariant
                n <= base_url@.len(),
                trim_trailing_slashes(base_url@.subrange(0, n as int)) == trim_trailing_slashes(
                    base_url@,
                ),
            decreases n,
        {
            assert(base_url@.subrange(0, n as int).drop_last() =~= base_url@.subrange(
                0,
                n as int - 1,
            ));
            n = n - 1;
        }
        let kept = base_url.substring_char(0, n);
        ActivityWatchClient { base_url: String::from_str(kept) }
    }

    /// Address of the bucket listing.
    pub fn buckets_url(&self) -> (r: String)
        ensures
            r@ == buckets_url(self.base()),
    {
        let mut s = self.base_url.clone();
        s.append("/buckets/");
        s
    }

    /// Address of one bucket.
    pub fn bucket_url(&self, bucket_id: &str) -> (r: String)
        ensures
            r@ == bucket_url(self.base(), bucket_id@),
    {
        let mut s = self.base_url.clone();
        s.append("/buckets/");
        s.append(bucket_id);
        s
    }

    /// Address of a bucket's events; limit, start and end are passed on verbatim.
    pub fn events_url(
        &self,
        bucket_id: &str,
        limit: Option<i32>,
        start: &Option<String>,
        end: &Option<String>,
    ) -> (r: String)
        ensures
            r@ == events_url(self.base(), bucket_id@, limit, *start, *end),
    {
        let mut s = self.base_url.clone();
        s.append("/buckets/");
        s.append(bucket_id);
        s.append("/events");
        let ghost head = s@;
        let ghost mut parts: Seq<Seq<char>> = Seq::empty();
        let mut count: usize = 0;
        if let Some(l) = limit {
            let mut v = String::new();
            push_int(&mut v, l as i64);
            proof {
                lemma_query_push(parts, "limit="@ + v@);
            }
            push_param(&mut s, &mut count, "limit=", v.as_str());
            proof {
                parts = parts.push("limit="@ + v@);
            }
        }
        assert(s@ =~= head + query_text(parts));
        if let Some(x) = start {
            proof {
                lemma_query_push(parts, "start="@ + x@);
            }
            push_param(&mut s, &mut count, "start=", x.as_str());
            proof {
                parts = parts.push("start="@ + x@);
            }
        }
        assert(s@ =~= head + query_text(parts));
        if let Some(x) = end {
            proof {
                lemma_query_push(parts, "end="@ + x@);
            }
            push_param(&mut s, &mut count, "end=", x.as_str());
            proof {
                parts = parts.push("end="@ + x@);
            }
        }
        assert(s@ =~= head + query_text(parts));
        assert(parts =~= events_params(limit, *start, *end));
        s
    }

    /// Address of a bucket's event count; start and end are passed on verbatim.
    pub fn event_count_url(&self, bucket_id: &str, start: &Option<String>, end: &Option<String>) -> (r:
        String)
        ensures
            r@ == event_count_url(self.base(), bucket_id@, *start, *end),
    {
        let mut s = self.base_url.clone();
        s.append("/buckets/");
        s.append(bucket_id);
        s.append("/events/count");
        let ghost head = s@;
        let ghost mut parts: Seq<Seq<char>> = Seq::empty();
        let mut count: usize = 0;
        if let Some(x) = start {
            proof {
                lemma_query_push(parts, "start="@ + x@);
            }
            push_param(&mut s, &mut count, "start=", x.as_str());
            proof {
                parts = parts.push("start="@ + x@);
            }
        }
        assert(s@ =~= head + query_text(parts));
        if let Some(x) = end {
            proof {
                lemma_query_push(parts, "end="@ + x@);
            }
            push_param(&mut s, &mut count, "end=", x.as_str());
            proof {
                parts = parts.push("end="@ + x@);
            }
        }
        assert(s@ =~= head + query_text(parts));
        assert(parts =~= opt_param("start="@, *start) + opt_param("end="@, *end));
        s
    }
}

/// Accepts a response status, or turns it into an error that carries the body.
pub fn handle_response(code: u16, reason: String, body: String) -> (r: Result<(), ApiError>)
    ensures
        is_success(code) <==> r is Ok,
        !is_success(code) ==> r == Err::<(), ApiError>(ApiError::Status { code, reason, body }),
{
    if 200 <= code && code <= 299 {
        Ok(())
    } else {
        Err(ApiError::Status { code, reason, body })
    }
}

/// Classifies a transport failure: a timeout first, then a failed connection,
/// else a generic network error that keeps the transport's description.
pub fn handle_api_error(is_timeout: bool, is_connect: bool, detail: String) -> (r: ApiError)
    ensures
        is_timeout ==> r == ApiError::Timeout,
        !is_timeout && is_connect ==> r == ApiError::ConnectionFailure,
        !is_timeout && !is_connect ==> r == ApiError::Network(detail),
{
    if is_timeout {
        ApiError::Timeout
    } else if is_connect {
        ApiError::ConnectionFailure
    } else {
        ApiError::Network(detail)
    }
}

impl ApiError {
    /// What a caller is told about this failure.
    pub fn message(&self) -> (r: String)
        ensures
            r@ == error_message(*self),
    {
        match self {
            ApiError::Timeout => String::from_str("Request timed out. Please try again."),
            ApiError::ConnectionFailure => String::from_str(
                "Failed to connect to ActivityWatch. Is aw-server running?",
            ),
            ApiError::Network(d) => {
                let mut s = String::from_str("Network error: ");
                s.append(d.as_str());
                s
            },
            ApiError::Status { code, reason, body } => {
                let mut s = if *code == 404 {
                    String::from_str("Resource not found. Please check the bucket ID. Details: ")
                } else if *code == 400 {
                    String::from_str("Bad request. Please check your parameters. Details: ")
                } else if *code == 500 {
                    String::from_str("ActivityWatch server error: ")
                } else {
                    let mut t = String::from_str("API request failed with status ");
                    push_nat(&mut t, *code as u64);
                    t.append(" ");
                    t.append(reason.as_str());
                    t.append(": ");
                    t
                };
                s.append(body.as_str());
                s
            },
            ApiError::Decode(d) => {
                let mut s = String::from_str("Failed to parse API response: ");
                s.append(d.as_str());
                s
            },
        }
    }
}

} // verus!
