//! The entitlement of a Dock site, which decides whether its records can be written.
use vstd::prelude::*;
use crate::clock::Instant;
use crate::system_clock::is_clock_reading;
use crate::system_clock::read_clock;
use crate::clock::instant_pair;
use crate::clock::not_later;
use crate::clock::parse_rfc3339;
use crate::clock::rfc3339_instant;
use crate::problem::Problem;
use crate::text::text_equals;

verus! {

/// A site's stored entitlement: its status and optional expiry (RFC 3339).
#[derive(Clone, Debug, PartialEq, Eq)]
pub struct EntitlementRecord {
    pub status: String,
    pub expires_at: Option<String>,
}

/// The plain values of a stored entitlement.
pub open spec fn record_view(r: Option<EntitlementRecord>) -> Option<(Seq<char>, Option<Seq<char>>)> {
    match r {
        None => None,
        Some(e) => Some(
            (
                e.status@,
                match e.expires_at {
                    Some(x) => Some(x@),
                    None => None,
                },
            ),
        ),
    }
}

/// The effective status of a site's entitlement at `now`: `unavailable` without a record;
/// `expired` for an active record whose expiry parses and is not later than `now`;
/// the stored status otherwise.
pub open spec fn status_at(record: Option<(Seq<char>, Option<Seq<char>>)>, now: (int, int)) -> Seq<
    char,
> {
    match record {
        None => "unavailable"@,
        Some((status, expires_at)) => {
            if status == "active"@ && expires_at is Some && rfc3339_instant(expires_at->0) is Some
                && not_later(rfc3339_instant(expires_at->0)->0, now) {
                "expired"@
            } else {
                status
            }
        },
    }
}

/// The effective status of a stored `status` whose expiry, where it has one that parses,
/// is the instant `expiry`: an active status whose expiry is not later than `now` has expired.
pub fn status_with_expiry(status: String, expiry: Option<Instant>, now: Instant) -> (s: String)
    ensures
        s@ == (if status@ == "active"@ && expiry is Some && not_later(
            instant_pair(expiry->0),
            instant_pair(now),
        ) {
            "expired"@
        } else {
            status@
        }),
{
    match expiry {
        Some(t) => {
            if text_equals(status.as_str(), "active") && (t.secs < now.secs || (t.secs == now.secs
                && t.nanos <= now.nanos)) {
                String::from_str("expired")
            } else {
                status
            }
        },
        None => status,
    }
}

/// The effective status of a site's entitlement at the instant `now`.
pub fn entitlement_status_at(record: Option<EntitlementRecord>, now: Instant) -> (s: String)
    ensures
        s@ == status_at(record_view(record), instant_pair(now)),
{
    match record {
        None => String::from_str("unavailable"),
        Some(e) => {
            let expiry = match &e.expires_at {
                Some(x) => parse_rfc3339(x.as_str()),
                None => None,
            };
            status_with_expiry(e.status, expiry, now)
        },
    }
}

/// The effective status of a site's entitlement now, read from the clock.
pub fn entitlement_status(record: Option<EntitlementRecord>) -> (s: String)
    ensures
        exists|now: Instant|
            #![trigger is_clock_reading(now)]
            is_clock_reading(now) && s@ == status_at(record_view(record), instant_pair(now)),
{
    let now = read_clock();
    entitlement_status_at(record, now)
}

/// Writes go through only for a site whose effective status is `active`; any other site
/// is read-only.
pub fn require_active_entitlement(status: &str) -> (r: Result<(), Problem>)
    ensures
        r == (if status@ == "active"@ {
            Ok::<(), Problem>(())
        } else {
            Err::<(), Problem>(Problem::SiteReadOnly)
        }),
{
    if text_equals(status, "active") {
        Ok(())
    } else {
        Err(Problem::SiteReadOnly)
    }
}

/// Once an entitlement has expired it stays expired: a status that reads `expired` at one
/// instant reads `expired` at every later instant.
pub proof fn lemma_expiry_is_permanent(
    record: Option<(Seq<char>, Option<Seq<char>>)>,
    earlier: (int, int),
    later: (int, int),
)
    requires
        not_later(earlier, later),
        status_at(record, earlier) == "expired"@,
    ensures
        status_at(record, later) == "expired"@,
{
}

/// An entitlement without an expiry never changes its status with time.
pub proof fn lemma_status_without_expiry_is_stable(
    status: Seq<char>,
    t1: (int, int),
    t2: (int, int),
)
    ensures
        status_at(Some((status, None)), t1) == status,
        status_at(Some((status, None)), t1) == status_at(Some((status, None)), t2),
{
}

/// An active entitlement takes writes until its expiry, judged at the clock: the status
/// `entitlement_status` gives is, at the instant the clock gave, `active` for an active record
/// whose expiry is missing, unreadable or later than that instant, `expired` for one whose
/// expiry that instant has reached, `unavailable` without a record, and the stored status
/// for any other.
pub proof fn law_entitlement_status_follows_the_clock(record: Option<EntitlementRecord>, s: String)
    requires
        exists|now: Instant|
            #![trigger is_clock_reading(now)]
            is_clock_reading(now) && s@ == status_at(record_view(record), instant_pair(now)),
    ensures
        exists|now: Instant|
            #![trigger is_clock_reading(now)]
            is_clock_reading(now) && match record {
                None => s@ == "unavailable"@,
                Some(r) => if r.status@ != "active"@ {
                    s@ == r.status@
                } else {
                    match r.expires_at {
                        None => s@ == "active"@,
                        Some(x) => match rfc3339_instant(x@) {
                            None => s@ == "active"@,
                            Some(expiry) => if not_later(expiry, instant_pair(now)) {
                                s@ == "expired"@
                            } else {
                                s@ == "active"@
                            },
                        },
                    }
                },
            },
{
    let now = choose|now: Instant|
        #![trigger is_clock_reading(now)]
        is_clock_reading(now) && s@ == status_at(record_view(record), instant_pair(now));
    assert(is_clock_reading(now));
}

} // verus!
