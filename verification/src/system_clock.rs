//! The system clock: the only source of instants that are readings of it.
use vstd::prelude::*;
use crate::clock::rfc3339_seconds_text;
use crate::clock::Instant;

verus! {

/// `chrono::Utc::now`: the current instant. Nothing is stated of which instant it is, but
/// that `chrono` can write it back as text, as it can every instant it produces.
#[verifier::external_body]
fn clock_now() -> (r: Instant)
    ensures
        rfc3339_seconds_text(r.secs as int) is Some,
{
    let t = chrono::Utc::now();
    Instant { secs: t.timestamp(), nanos: t.timestamp_subsec_nanos() }
}

/// Whether `i` is an instant that the clock gave, through `read_clock`. What is known of such
/// an instant is only that `chrono` can write it as text; the definition is closed, so that
/// outside this module (which holds nothing but the clock itself) the predicate holds only of
/// instants that `read_clock` returned.
pub closed spec fn is_clock_reading(i: Instant) -> bool {
    rfc3339_seconds_text(i.secs as int) is Some
}

/// Reads the clock: the current instant.
pub fn read_clock() -> (i: Instant)
    ensures
        is_clock_reading(i),
{
    clock_now()
}

/// An instant the clock gave can be written as RFC 3339 text.
pub proof fn lemma_clock_reading_is_writable(i: Instant)
    requires
        is_clock_reading(i),
    ensures
        rfc3339_seconds_text(i.secs as int) is Some,
{
}

} // verus!
