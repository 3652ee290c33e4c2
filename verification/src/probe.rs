//! The freshness prober: from what a remote dump reports of itself to the
//! time of its last change, or to nothing where the dump holds no data.

use crate::text::{decimal_exceeds, signed_value, slice_of, text_of};
use crate::timestamp::Timestamp;
use vstd::prelude::*;

verus! {

/// The size in bytes of the document that the source publishes on days
/// without new data. A dump of this size or less holds nothing, whatever
/// time it carries.
pub const PLACEHOLDER_SIZE: u32 = 211;

/// What came back from asking a dump for its metadata.
#[derive(Clone, Debug, PartialEq, Eq)]
pub enum Probe {
    /// The request failed; the dump gives no signal.
    Unreachable,
    /// The dump answered with these two headers, each as far as it was
    /// there.
    Reply { content_length: Option<String>, last_modified: Option<String> },
}

/// The instant that `text` writes as an internet message date, as
/// `chrono::DateTime::parse_from_rfc2822` reads it: the seconds and the
/// nanoseconds of the instant; `None` where it refuses.
pub uninterp spec fn message_date(text: Seq<char>) -> Option<Timestamp>;

/// Reads an internet message date with
/// `chrono::DateTime::parse_from_rfc2822`. The call answers with the
/// instant, whose seconds since the epoch and nanoseconds are handed on, or
/// refuses; the answer depends on the text alone.
#[verifier::external_body]
pub(crate) fn parse_message_date(text: &str) -> (r: Option<Timestamp>)
    ensures
        r == message_date(text@),
{
    match chrono::DateTime::parse_from_rfc2822(text) {
        Ok(t) => Some(Timestamp { secs: t.timestamp(), nanos: t.timestamp_subsec_nanos() }),
        Err(_) => None,
    }
}

/// The size that a dump reports: the decimal number in its size header,
/// and zero where the header is absent or writes no number.
pub open spec fn reported_size(content_length: Option<Seq<char>>) -> int {
    match content_length {
        Some(text) => match signed_value(text, 10, true) {
            Some(n) => n,
            None => 0,
        },
        None => 0,
    }
}

/// The time of a dump's last change, given the size that it reports and
/// the time that it carries: nothing for a dump no larger than the
/// placeholder, whatever its time.
pub open spec fn fresh(size: int, modified: Option<Timestamp>) -> Option<Timestamp> {
    if size <= PLACEHOLDER_SIZE {
        None
    } else {
        modified
    }
}

/// The time of a dump's last change, given its two headers.
pub open spec fn last_updated(
    content_length: Option<Seq<char>>,
    last_modified: Option<Seq<char>>,
) -> Option<Timestamp> {
    fresh(
        reported_size(content_length),
        match last_modified {
            Some(text) => message_date(text),
            None => None,
        },
    )
}

impl Probe {
    /// What the probe says of its dump: nothing where the request failed,
    /// else what the two headers say.
    pub open spec fn signal(self) -> Option<Timestamp> {
        match self {
            Probe::Unreachable => None,
            Probe::Reply { content_length, last_modified } => last_updated(
                text_of(content_length),
                text_of(last_modified),
            ),
        }
    }

    /// The time of the dump's last change, as far as the probe shows one.
    /// A failed request counts as no signal and stops nothing.
    pub fn result(&self) -> (r: Option<Timestamp>)
        ensures
            r == self.signal(),
    {
        match self {
            Probe::Unreachable => None,
            Probe::Reply { content_length, last_modified } => {
                let size = match content_length {
                    Some(text) => Some(text.as_str()),
                    None => None,
                };
                let modified = match last_modified {
                    Some(text) => Some(text.as_str()),
                    None => None,
                };
                get_last_updated_header(size, modified)
            },
        }
    }
}

/// Whether a dump with this size header is larger than the placeholder.
pub fn exceeds_placeholder(content_length: Option<&str>) -> (b: bool)
    ensures
        b == (reported_size(slice_of(content_length)) > PLACEHOLDER_SIZE),
{
    match content_length {
        Some(text) => decimal_exceeds(text, PLACEHOLDER_SIZE),
        None => false,
    }
}

/// The time of a dump's last change, given its size header and the time
/// that it carries: nothing for a dump no larger than the placeholder,
/// whatever its time.
pub fn fresh_timestamp(content_length: Option<&str>, modified: Option<Timestamp>) -> (r: Option<
    Timestamp,
>)
    ensures
        r == fresh(reported_size(slice_of(content_length)), modified),
{
    if exceeds_placeholder(content_length) {
        modified
    } else {
        None
    }
}

/// The time of a dump's last change, from the two headers of its reply:
/// nothing where the size header is absent or reports no more than the
/// placeholder's size, and nothing where the time header is absent or
/// unreadable. No time is ever made up.
pub fn get_last_updated_header(content_length: Option<&str>, last_modified: Option<&str>) -> (r:
    Option<Timestamp>)
    ensures
        r == last_updated(slice_of(content_length), slice_of(last_modified)),
{
    let modified = match last_modified {
        Some(text) => parse_message_date(text),
        None => None,
    };
    fresh_timestamp(content_length, modified)
}

/// A placeholder is never taken for an update: a reply that reports no
/// more than the placeholder's size gives nothing, whatever its time header
/// holds.
pub proof fn lemma_placeholder_suppressed(
    content_length: Option<Seq<char>>,
    last_modified: Option<Seq<char>>,
)
    requires
        reported_size(content_length) <= PLACEHOLDER_SIZE,
    ensures
        last_updated(content_length, last_modified) is None,
{
}

} // verus!
