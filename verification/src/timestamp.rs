//! Points in time as the daemon writes them.

use chrono::{DateTime, FixedOffset};
use vstd::prelude::*;
use vstd::string::StringExecFns;

verus! {

/// A point in time: the text that the daemon sent, and the instant that the
/// text denotes, as seconds since the Unix epoch and nanoseconds since the last
/// full second.
#[derive(Clone, Debug, PartialEq, Eq)]
pub struct Timestamp {
    pub text: String,
    pub seconds: i64,
    pub nanos: u32,
}

pub ghost struct TimestampView {
    pub text: Seq<char>,
    pub seconds: i64,
    pub nanos: u32,
}

impl View for Timestamp {
    type V = TimestampView;

    open spec fn view(&self) -> TimestampView {
        TimestampView { text: self.text@, seconds: self.seconds, nanos: self.nanos }
    }
}

/// The instant that `chrono` reads from a text: seconds since the Unix epoch,
/// leap seconds not counted, and nanoseconds since the last full second;
/// nothing where it refuses the text.
pub uninterp spec fn instant_of(text: Seq<char>) -> Option<(i64, u32)>;

/// The timestamp that a text stands for.
pub open spec fn timestamp_of(text: Seq<char>) -> Option<TimestampView> {
    match instant_of(text) {
        Some((seconds, nanos)) => Some(TimestampView { text, seconds, nanos }),
        None => None,
    }
}

/// `DateTime::<FixedOffset>::from_str` of `chrono`, reached through
/// `str::parse`: it reads a date and time with an offset, in RFC 3339 form or
/// close to it. `DateTime::timestamp` and `DateTime::timestamp_subsec_nanos`
/// then give the instant. What is read depends on the text alone; the contract
/// names it `instant_of` and says nothing else about it.
#[verifier::external_body]
fn parse_instant(text: &str) -> (r: Option<(i64, u32)>)
    ensures
        r == instant_of(text@),
{
    match text.parse::<DateTime<FixedOffset>>() {
        Ok(t) => Some((t.timestamp(), t.timestamp_subsec_nanos())),
        Err(_) => None,
    }
}

impl Timestamp {
    /// Whether the instant is the one that the text denotes.
    pub open spec fn consistent(v: TimestampView) -> bool {
        timestamp_of(v.text) == Some(v)
    }

    /// Reads a timestamp. `None` means that the text is not a date and time.
    pub fn parse(text: &str) -> (r: Option<Timestamp>)
        ensures
            match r {
                Some(t) => timestamp_of(text@) == Some(t@),
                None => timestamp_of(text@) is None,
            },
    {
        match parse_instant(text) {
            Some((seconds, nanos)) => Some(
                Timestamp { text: String::from_str(text), seconds, nanos },
            ),
            None => None,
        }
    }
}

} // verus!
