//! Points in time, read and written by `chrono`.
//!
//! The functions of this module are the only places where `chrono` is
//! called; what they promise is taken from its source and not proved.

use crate::text::optional_text;
use vstd::prelude::*;

verus! {

/// A point in time: whole seconds since 1970-01-01 00:00:00 UTC, and the
/// nanoseconds since the last whole second.
#[derive(Debug, Clone, Copy, PartialEq, Eq)]
pub struct Timestamp {
    pub seconds: i64,
    pub nanos: u32,
}

/// What `chrono` writes for the time `seconds` after the epoch under a
/// `strftime` pattern; `None` where it cannot represent the time or cannot
/// write it under the pattern.
pub uninterp spec fn utc_formatted(seconds: int, pattern: Seq<char>) -> Option<Seq<char>>;

/// What `DateTime::to_rfc3339` writes for a point in time; `None` where
/// `chrono` cannot represent it.
pub uninterp spec fn utc_rfc3339(seconds: int, nanos: int) -> Option<Seq<char>>;

/// The points in time that `chrono` can hold: those that
/// `DateTime::from_timestamp` accepts, and `to_rfc3339` therefore writes.
pub open spec fn representable(t: Timestamp) -> bool {
    utc_rfc3339(t.seconds as int, t.nanos as int) is Some
}

/// Calls `chrono::Utc::now` and takes the result apart with `timestamp` and
/// `timestamp_subsec_nanos`. Trusted: `DateTime::from_timestamp` accepts
/// the two numbers again, as `chrono` documents of every `DateTime`. Which
/// time is read is the clock's affair. `Utc::now` does not return where the
/// system clock stands before 1970.
#[verifier::external_body]
pub(crate) fn read_clock() -> (now: Timestamp)
    ensures
        representable(now),
{
    let t = chrono::Utc::now();
    Timestamp { seconds: t.timestamp(), nanos: t.timestamp_subsec_nanos() }
}

/// Calls `chrono::DateTime::from_timestamp` on whole seconds, then
/// `DateTime::format` under the pattern and `DelayedFormat::write_to`.
/// Trusted: the outcome is a function of the seconds and the pattern alone,
/// named [`utc_formatted`].
#[verifier::external_body]
pub(crate) fn format_utc(seconds: i64, pattern: &str) -> (text: Option<String>)
    ensures
        optional_text(text) == utc_formatted(seconds as int, pattern@),
{
    let t = chrono::DateTime::from_timestamp(seconds, 0)?;
    let mut text = String::new();
    t.format(pattern).write_to(&mut text).ok()?;
    Some(text)
}

/// Calls `chrono::DateTime::from_timestamp` and `DateTime::to_rfc3339`.
/// Trusted: the outcome is a function of the seconds and nanoseconds alone,
/// named [`utc_rfc3339`].
#[verifier::external_body]
pub(crate) fn rfc3339_utc(seconds: i64, nanos: u32) -> (text: Option<String>)
    ensures
        optional_text(text) == utc_rfc3339(seconds as int, nanos as int),
{
    let t = chrono::DateTime::from_timestamp(seconds, nanos)?;
    Some(t.to_rfc3339())
}

/// The `strftime` pattern of the second-granular stamp in a backup's file
/// name: year, month, day, an underscore, hour, minute, second.
pub open spec fn compact_pattern() -> Seq<char> {
    "%Y%m%d_%H%M%S"@
}

/// A point in time in the two written forms a backup needs.
#[derive(Debug, PartialEq, Eq)]
pub struct Moment {
    rfc3339: String,
    compact: String,
}

/// Mathematical value of a [`Moment`].
pub struct MomentView {
    pub rfc3339: Seq<char>,
    pub compact: Seq<char>,
}

impl View for Moment {
    type V = MomentView;

    closed spec fn view(&self) -> MomentView {
        MomentView { rfc3339: self.rfc3339@, compact: self.compact@ }
    }
}

/// The written forms of a point in time: RFC 3339 with its fraction of a
/// second, and the compact stamp of its whole second. `None` where `chrono`
/// cannot write one of them.
pub open spec fn moment_at(t: Timestamp) -> Option<MomentView> {
    match (
        utc_rfc3339(t.seconds as int, t.nanos as int),
        utc_formatted(t.seconds as int, compact_pattern()),
    ) {
        (Some(rfc3339), Some(compact)) => Some(MomentView { rfc3339, compact }),
        _ => None,
    }
}

/// An optional moment as its optional mathematical value.
pub open spec fn moment_view(moment: Option<Moment>) -> Option<MomentView> {
    match moment {
        Some(m) => Some(m@),
        None => None,
    }
}

impl Timestamp {
    /// Reads the system clock. Which time comes back depends on the clock;
    /// it is always one that `chrono` can hold and write in RFC 3339 form.
    pub fn now() -> (now: Timestamp)
        ensures
            representable(now),
    {
        read_clock()
    }
}

impl Moment {
    /// Writes a point in time in both forms.
    pub fn at(t: Timestamp) -> (moment: Option<Moment>)
        ensures
            moment_view(moment) == moment_at(t),
    {
        match rfc3339_utc(t.seconds, t.nanos) {
            Some(rfc3339) => match format_utc(t.seconds, "%Y%m%d_%H%M%S") {
                Some(compact) => Some(Moment { rfc3339, compact }),
                None => None,
            },
            None => None,
        }
    }

    /// Reads the system clock and writes the time in both forms. Which time
    /// that is depends on the clock; the forms belong to one and the same
    /// point in time, its RFC 3339 form exists, and there is no moment only
    /// where its second cannot be stamped.
    pub fn now() -> (moment: Option<Moment>)
        ensures
            exists|t: Timestamp|
                representable(t) && moment_view(moment) == #[trigger] moment_at(t),
    {
        let t: Timestamp = Timestamp::now();
        Moment::at(t)
    }

    /// The time in RFC 3339 form.
    pub fn rfc3339(&self) -> (text: &str)
        ensures
            text@ == self@.rfc3339,
    {
        self.rfc3339.as_str()
    }

    /// The time as a compact stamp of its whole second.
    pub fn compact(&self) -> (text: &str)
        ensures
            text@ == self@.compact,
    {
        self.compact.as_str()
    }
}

/// Two points in time within the same second have the same compact stamp:
/// where both can be written, the stamps are equal, and one can be stamped
/// exactly if the other can.
pub proof fn lemma_same_second_same_stamp(a: Timestamp, b: Timestamp)
    requires
        a.seconds == b.seconds,
    ensures
        utc_formatted(a.seconds as int, compact_pattern()) == utc_formatted(
            b.seconds as int,
            compact_pattern(),
        ),
        moment_at(a) matches Some(m) ==> (moment_at(b) matches Some(n) ==> m.compact == n.compact),
{
}

} // verus!
