use vstd::prelude::*;
use vstd::string::*;

use crate::text::{nat_text, padded_text, digit_char, push_nat, push_padded};

verus! {

/// How a tool renders its result.
#[derive(Debug, Clone, Copy, PartialEq, Eq, Structural)]
pub enum ResponseFormat {
    /// Human-readable markdown.
    Markdown,
    /// Machine-readable JSON.
    Json,
}

impl Default for ResponseFormat {
    fn default() -> (r: Self)
        ensures
            r == ResponseFormat::Markdown,
    {
        ResponseFormat::Markdown
    }
}

/// A UTC instant, broken down into its calendar fields.
///
/// `second` is the second as displayed, so a leap second reads 60.
#[derive(Debug, Clone, Copy, PartialEq, Eq, Structural)]
pub struct Timestamp {
    pub year: i32,
    pub month: u32,
    pub day: u32,
    pub hour: u32,
    pub minute: u32,
    pub second: u32,
    pub nanosecond: u32,
}

/// A value of a free-form data mapping.
#[derive(Debug, Clone, PartialEq, Eq)]
pub enum DataValue {
    /// A JSON string, held without quotes.
    Str(String),
    /// Any other JSON value, held as its canonical compact JSON text.
    Json(String),
}

/// A container of events, as the activity server describes it.
#[derive(Debug, Clone, PartialEq, Eq)]
pub struct Bucket {
    /// Unique bucket identifier.
    pub id: String,
    /// Name of the watcher that created the bucket.
    pub client: Option<String>,
    /// Kind of events stored, such as "currentwindow".
    pub bucket_type: Option<String>,
    /// Host on which the bucket was created.
    pub hostname: Option<String>,
    /// When the bucket was created.
    pub created: Option<Timestamp>,
    /// Free-form metadata, in the order received.
    pub data: Option<Vec<(String, DataValue)>>,
    /// When the bucket last changed.
    pub last_updated: Option<Timestamp>,
}

/// A timestamped activity record.
#[derive(Debug, Clone, PartialEq, Eq)]
pub struct Event {
    /// Identifier assigned by the server, if stored there.
    pub id: Option<i64>,
    /// When the activity started.
    pub timestamp: Timestamp,
    /// How long it lasted, in microseconds.
    pub duration_micros: i64,
    /// Event payload (application name, window title, ...), in the order received.
    pub data: Vec<(String, DataValue)>,
}

/// The year as `%Y` shows it: four digits inside 0..=9999, else signed.
pub open spec fn year_text(y: int) -> Seq<char> {
    if 0 <= y <= 9999 {
        padded_text(y as nat, 4)
    } else if y < 0 {
        seq!['-'] + padded_text((-y) as nat, 4)
    } else {
        seq!['+'] + padded_text(y as nat, 4)
    }
}

/// The instant as `%Y-%m-%d %H:%M:%S` shows it.
pub open spec fn timestamp_text(t: Timestamp) -> Seq<char> {
    year_text(t.year as int) + seq!['-'] + padded_text(t.month as nat, 2) + seq!['-']
        + padded_text(t.day as nat, 2) + seq![' '] + padded_text(t.hour as nat, 2) + seq![':']
        + padded_text(t.minute as nat, 2) + seq![':'] + padded_text(t.second as nat, 2)
}

/// A magnitude in microseconds rounded to tenths of a second, ties to even.
pub open spec fn rounded_tenths(m: nat) -> nat {
    let q = m / 100000;
    let r = m % 100000;
    if r > 50000 || (r == 50000 && q % 2 == 1) {
        q + 1
    } else {
        q
    }
}

/// A duration in microseconds, as seconds with one decimal place.
pub open spec fn duration_text(micros: int) -> Seq<char> {
    let t = rounded_tenths(if micros < 0 { (-micros) as nat } else { micros as nat });
    (if micros < 0 { seq!['-'] } else { Seq::empty() }) + nat_text(t / 10) + seq!['.']
        + seq![digit_char(t % 10)]
}

/// A labelled line for an optional text field; nothing when the field is absent.
pub open spec fn opt_text_line(label: Seq<char>, v: Option<String>) -> Seq<char> {
    match v {
        Some(s) => label + s@,
        None => Seq::empty(),
    }
}

/// A labelled line for an optional instant; nothing when it is absent.
pub open spec fn opt_time_line(label: Seq<char>, v: Option<Timestamp>) -> Seq<char> {
    match v {
        Some(t) => label + timestamp_text(t),
        None => Seq::empty(),
    }
}

/// A data value as shown to a reader: strings bare, everything else as JSON.
pub open spec fn value_text(v: DataValue) -> Seq<char> {
    match v {
        DataValue::Str(s) => s@,
        DataValue::Json(j) => j@,
    }
}

/// One line per data entry, each preceded by a newline.
pub open spec fn data_lines(d: Seq<(String, DataValue)>) -> Seq<char>
    decreases d.len(),
{
    if d.len() == 0 {
        Seq::empty()
    } else {
        data_lines(d.drop_last()) + "\n- **"@ + d.last().0@ + "**: "@ + value_text(d.last().1)
    }
}

/// Data entries as `key: value` pairs, separated by commas.
pub open spec fn entries_text(d: Seq<(String, DataValue)>) -> Seq<char>
    decreases d.len(),
{
    if d.len() == 0 {
        Seq::empty()
    } else {
        entries_text(d.drop_last()) + (if d.len() == 1 {
            Seq::empty()
        } else {
            ", "@
        }) + d.last().0@ + ": "@ + value_text(d.last().1)
    }
}

/// A labelled line for optional metadata, its entries between braces; nothing
/// when the metadata is absent.
pub open spec fn opt_data_line(label: Seq<char>, v: Option<Vec<(String, DataValue)>>) -> Seq<char> {
    match v {
        Some(d) => label + "{"@ + entries_text(d@) + "}"@,
        None => Seq::empty(),
    }
}

/// The markdown section of a bucket.
#[verifier::opaque]
pub open spec fn bucket_markdown(b: Bucket) -> Seq<char> {
    "## "@ + b.id@ + opt_text_line("\n- **Client**: "@, b.client) + opt_text_line(
        "\n- **Type**: "@,
        b.bucket_type,
    ) + opt_text_line("\n- **Hostname**: "@, b.hostname) + opt_time_line(
        "\n- **Created**: "@,
        b.created,
    ) + opt_data_line("\n- **Data**: "@, b.data) + opt_time_line(
        "\n- **Last Updated**: "@,
        b.last_updated,
    )
}

/// The markdown section of an event.
#[verifier::opaque]
pub open spec fn event_markdown(e: Event) -> Seq<char> {
    "### "@ + timestamp_text(e.timestamp) + " ("@ + duration_text(e.duration_micros as int) + "s)"@
        + data_lines(e.data@)
}

fn push_char(s: &mut String, c: char)
    requires
        c == '-' || c == '+' || c == ' ' || c == ':' || c == '.',
    ensures
        final(s)@ == old(s)@ + seq![c],
{
    proof {
        reveal_strlit("-");
        reveal_strlit("+");
        reveal_strlit(" ");
        reveal_strlit(":");
        reveal_strlit(".");
    }
    if c == '-' {
        s.append("-");
    } else if c == '+' {
        s.append("+");
    } else if c == ' ' {
        s.append(" ");
    } else if c == ':' {
        s.append(":");
    } else {
        s.append(".");
    }
}

/// Appends the text of a timestamp.
pub fn push_timestamp(s: &mut String, t: &Timestamp)
    ensures
        final(s)@ == old(s)@ + timestamp_text(*t),
{
    let ghost s0 = s@;
    let y = t.year;
    if 0 <= y && y <= 9999 {
        push_padded(s, y as u64, 4);
    } else if y < 0 {
        push_char(s, '-');
        let m: u64 = (-(y as i64)) as u64;
        push_padded(s, m, 4);
    } else {
        push_char(s, '+');
        push_padded(s, y as u64, 4);
    }
    assert(s@ =~= s0 + year_text(t.year as int));
    push_char(s, '-');
    push_padded(s, t.month as u64, 2);
    push_char(s, '-');
    push_padded(s, t.day as u64, 2);
    push_char(s, ' ');
    push_padded(s, t.hour as u64, 2);
    push_char(s, ':');
    push_padded(s, t.minute as u64, 2);
    push_char(s, ':');
    push_padded(s, t.second as u64, 2);
    assert(s@ =~= s0 + timestamp_text(*t));
}

/// Appends a duration given in microseconds as seconds with one decimal place.
pub fn push_duration(s: &mut String, micros: i64)
    ensures
        final(s)@ == old(s)@ + duration_text(micros as int),
{
    let ghost s0 = s@;
    let m: u64 = if micros < 0 {
        (-(micros as i128)) as u64
    } else {
        micros as u64
    };
    let q = m / 100000;
    let r = m % 100000;
    let t: u64 = if r > 50000 || (r == 50000 && q % 2 == 1) {
        q + 1
    } else {
        q
    };
    assert(t == rounded_tenths(if micros < 0 { (-micros) as nat } else { micros as nat }));
    if micros < 0 {
        push_char(s, '-');
    }
    push_nat(s, t / 10);
    push_char(s, '.');
    push_nat(s, t % 10);
    assert(nat_text((t % 10) as nat) == seq![digit_char((t % 10) as nat)]);
    assert(s@ =~= s0 + duration_text(micros as int));
}

fn push_opt_text(s: &mut String, label: &str, v: &Option<String>)
    ensures
        final(s)@ == old(s)@ + opt_text_line(label@, *v),
{
    match v {
        Some(x) => {
            s.append(label);
            s.append(x.as_str());
            assert(final(s)@ =~= old(s)@ + opt_text_line(label@, *v));
        },
        None => {
            assert(final(s)@ =~= old(s)@ + opt_text_line(label@, *v));
        },
    }
}

fn push_opt_time(s: &mut String, label: &str, v: &Option<Timestamp>)
    ensures
        final(s)@ == old(s)@ + opt_time_line(label@, *v),
{
    match v {
        Some(t) => {
            s.append(label);
            push_timestamp(s, t);
            assert(final(s)@ =~= old(s)@ + opt_time_line(label@, *v));
        },
        None => {
            assert(final(s)@ =~= old(s)@ + opt_time_line(label@, *v));
        },
    }
}

fn push_opt_data(s: &mut String, label: &str, v: &Option<Vec<(String, DataValue)>>)
    ensures
        final(s)@ == old(s)@ + opt_data_line(label@, *v),
{
    match v {
        Some(d) => {
            s.append(label);
            s.append("{");
            let ghost head = s@;
            let mut i: usize = 0;
            while i < d.len()
                invariant
                    i <= d@.len(),
                    s@ == head + entries_text(d@.subrange(0, i as int)),
                decreases d@.len() - i,
            {
                if i > 0 {
                    s.append(", ");
                }
                let entry = &d[i];
                s.append(entry.0.as_str());
                s.append(": ");
                match &entry.1 {
                    DataValue::Str(x) => s.append(x.as_str()),
                    DataValue::Json(x) => s.append(x.as_str()),
                }
                proof {
                    let sub = d@.subrange(0, i as int + 1);
                    assert(sub.drop_last() =~= d@.subrange(0, i as int));
                    assert(sub.last() == d@[i as int]);
                }
                i = i + 1;
                assert(s@ =~= head + entries_text(d@.subrange(0, i as int)));
            }
            assert(d@.subrange(0, d@.len() as int) =~= d@);
            s.append("}");
            assert(final(s)@ =~= old(s)@ + opt_data_line(label@, *v));
        },
        None => {
            assert(final(s)@ =~= old(s)@ + opt_data_line(label@, *v));
        },
    }
}

impl Bucket {
    /// The bucket as a markdown section: the id as heading, then one line for each
    /// field that is present.
    pub fn to_markdown(&self) -> (r: String)
        ensures
            r@ == bucket_markdown(*self),
    {
        let mut s = String::from_str("## ");
        s.append(self.id.as_str());
        push_opt_text(&mut s, "\n- **Client**: ", &self.client);
        push_opt_text(&mut s, "\n- **Type**: ", &self.bucket_type);
        push_opt_text(&mut s, "\n- **Hostname**: ", &self.hostname);
        push_opt_time(&mut s, "\n- **Created**: ", &self.created);
        push_opt_data(&mut s, "\n- **Data**: ", &self.data);
        push_opt_time(&mut s, "\n- **Last Updated**: ", &self.last_updated);
        proof {
            reveal(bucket_markdown);
        }
        assert(s@ =~= bucket_markdown(*self));
        s
    }
}

impl Event {
    /// The event as a markdown section: instant and duration as heading, then one
    /// line for each data entry.
    pub fn to_markdown(&self) -> (r: String)
        ensures
            r@ == event_markdown(*self),
    {
        let mut s = String::from_str("### ");
        push_timestamp(&mut s, &self.timestamp);
        s.append(" (");
        push_duration(&mut s, self.duration_micros);
        s.append("s)");
        let ghost head = s@;
        let mut i: usize = 0;
        while i < self.data.len()
            invariant
                i <= self.data@.len(),
                s@ == head + data_lines(self.data@.subrange(0, i as int)),
            decreases self.data@.len() - i,
        {
            let entry = &self.data[i];
            s.append("\n- **");
            s.append(entry.0.as_str());
            s.append("**: ");
            match &entry.1 {
                DataValue::Str(v) => s.append(v.as_str()),
                DataValue::Json(v) => s.append(v.as_str()),
            }
            proof {
                let sub = self.data@.subrange(0, i as int + 1);
                assert(sub.drop_last() =~= self.data@.subrange(0, i as int));
                assert(sub.last() == self.data@[i as int]);
            }
            i = i + 1;
            assert(s@ =~= head + data_lines(self.data@.subrange(0, i as int)));
        }
        assert(self.data@.subrange(0, self.data@.len() as int) =~= self.data@);
        proof {
            reveal(event_markdown);
        }
        assert(s@ =~= event_markdown(*self));
        s
    }
}

} // verus!
