//! Instants of UTC time and their RFC 3339 texts.
use vstd::prelude::*;
use crate::system_clock::is_clock_reading;
use crate::system_clock::read_clock;

verus! {

/// An instant: whole seconds since the Unix epoch and the nanoseconds past them.
#[derive(Clone, Copy, Debug, PartialEq, Eq, Structural)]
pub struct Instant {
    pub secs: i64,
    pub nanos: u32,
}

/// Whether instant `(s1, n1)` is not later than `(s2, n2)`.
pub open spec fn not_later(a: (int, int), b: (int, int)) -> bool {
    a.0 < b.0 || (a.0 == b.0 && a.1 <= b.1)
}

/// The pair of an instant.
pub open spec fn instant_pair(i: Instant) -> (int, int) {
    (i.secs as int, i.nanos as int)
}

/// The instant that an RFC 3339 text denotes, as `chrono::DateTime::parse_from_rfc3339`
/// reads it (seconds since the epoch and nanoseconds past them), or none where it does not parse.
pub uninterp spec fn rfc3339_instant(text: Seq<char>) -> Option<(int, int)>;

/// The RFC 3339 text, in whole seconds with a `Z` suffix, that `chrono` writes for the
/// instant `secs` seconds after the epoch, or none where `chrono` cannot represent it.
pub uninterp spec fn rfc3339_seconds_text(secs: int) -> Option<Seq<char>>;

/// `chrono::DateTime::parse_from_rfc3339`, giving the parsed instant.
#[verifier::external_body]
pub(crate) fn parse_rfc3339(text: &str) -> (r: Option<Instant>)
    ensures
        r is Some <==> rfc3339_instant(text@) is Some,
        r matches Some(i) ==> rfc3339_instant(text@) == Some(instant_pair(i)),
{
    chrono::DateTime::parse_from_rfc3339(text).ok().map(
        |t| Instant { secs: t.timestamp(), nanos: t.timestamp_subsec_nanos() },
    )
}

/// `chrono::DateTime::from_timestamp` followed by `to_rfc3339_opts(SecondsFormat::Secs, true)`.
#[verifier::external_body]
pub(crate) fn format_rfc3339_seconds(secs: i64) -> (r: Option<String>)
    ensures
        r is Some <==> rfc3339_seconds_text(secs as int) is Some,
        r matches Some(t) ==> rfc3339_seconds_text(secs as int) == Some(t@),
{
    chrono::DateTime::from_timestamp(secs, 0).map(
        |t| t.to_rfc3339_opts(chrono::SecondsFormat::Secs, true),
    )
}

/// A reading of the clock with its RFC 3339 text in whole seconds.
#[derive(Clone, Debug, PartialEq, Eq)]
pub struct Moment {
    pub instant: Instant,
    pub text: String,
}

/// Whether `m`'s text is the RFC 3339 text of its instant.
pub open spec fn moment_consistent(m: Moment) -> bool {
    rfc3339_seconds_text(m.instant.secs as int) == Some(m.text@)
}

/// The RFC 3339 text of the instant `i`, in whole seconds.
pub fn moment_at(i: Instant) -> (m: Option<Moment>)
    ensures
        m is Some <==> rfc3339_seconds_text(i.secs as int) is Some,
        m matches Some(x) ==> x.instant == i && moment_consistent(x),
{
    match format_rfc3339_seconds(i.secs) {
        Some(text) => Some(Moment { instant: i, text }),
        None => None,
    }
}

/// Reads the clock: the current instant and its RFC 3339 text.
pub fn moment() -> (m: Moment)
    ensures
        moment_consistent(m),
        is_clock_reading(m.instant),
{
    let i = read_clock();
    proof {
        crate::system_clock::lemma_clock_reading_is_writable(i);
    }
    match format_rfc3339_seconds(i.secs) {
        Some(text) => Moment { instant: i, text },
        None => {
            assert(false);
            Moment { instant: i, text: String::new() }
        },
    }
}

/// The current time as RFC 3339 text in whole seconds with a `Z` suffix.
pub fn now() -> (t: String)
    ensures
        exists|i: Instant| is_clock_reading(i) && rfc3339_seconds_text(i.secs as int) == Some(t@),
{
    let m = moment();
    assert(is_clock_reading(m.instant) && rfc3339_seconds_text(m.instant.secs as int) == Some(m.text@));
    m.text
}

/// Seconds in the seven years of 365 days for which evidence is retained.
pub open spec fn retention_secs() -> int {
    220752000int
}

/// The RFC 3339 text of the instant seven 365-day years after `from`, in whole seconds;
/// none where that instant cannot be written.
pub fn retention_until(from: Instant) -> (t: Option<String>)
    ensures
        from.secs + retention_secs() > i64::MAX ==> t is None,
        from.secs + retention_secs() <= i64::MAX ==> (t is Some <==> rfc3339_seconds_text(
            from.secs + retention_secs(),
        ) is Some),
        t matches Some(x) ==> rfc3339_seconds_text(from.secs + retention_secs()) == Some(x@),
{
    if from.secs > i64::MAX - 220752000 {
        return None;
    }
    format_rfc3339_seconds(from.secs + 220752000)
}

} // verus!
