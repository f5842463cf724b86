//! Admission of every site request: the caller's team is provisioned on first visit,
//! the site must belong to a team the caller is a member of, and writes need an active
//! entitlement. A machine names each storage step for the caller to perform.
use vstd::prelude::*;
use crate::clock::Instant;
use crate::clock::instant_pair;
use crate::system_clock::is_clock_reading;
use crate::clock::not_later;
use crate::clock::rfc3339_instant;
use crate::entitlement::EntitlementRecord;
use crate::entitlement::entitlement_status;
use crate::entitlement::record_view;
use crate::entitlement::require_active_entitlement;
use crate::entitlement::status_at;
use crate::identity::Identity;
use crate::problem::Problem;
use crate::tenancy::own_site;
use crate::tenancy::own_tenant;
use crate::tenancy::provision_plan;
use crate::tenancy::site_access;
use crate::tenancy::ProvisionPlan;

verus! {

/// What a request needs of the site.
#[derive(Clone, Copy, Debug, PartialEq, Eq, Structural)]
pub enum SiteNeed {
    /// The caller's own team and site, provisioned if need be.
    Profile,
    /// Reading a site the caller is a member of.
    Read,
    /// Writing to a site the caller is a member of, whose entitlement is active.
    Write,
}

/// Where a request stands in admission.
#[derive(Clone, Debug, PartialEq, Eq)]
pub enum AdmissionState {
    Start,
    AwaitTeam,
    AwaitCreated { plan: ProvisionPlan },
    AwaitSite,
    AwaitEntitlement { tenant: String, site: String },
    Finished,
}

/// What the caller reports back after performing an action.
#[derive(Clone, Debug, PartialEq, Eq)]
pub enum AdmissionInput {
    Begin,
    /// The caller's first team and site (owner teams first), if the lookup succeeded.
    Team(Option<Option<(String, String)>>),
    /// Whether the new team, site and owner membership were stored.
    Created(bool),
    /// The requested site with its tenant, if the caller is a member of that tenant.
    Site(Option<(String, String)>),
    /// The site's stored entitlement, if any.
    Entitlement(Option<EntitlementRecord>),
}

/// What the caller is to do next.
#[derive(Debug, PartialEq, Eq)]
pub enum AdmissionAction {
    LookupTeam,
    /// Store the team, its receiving site and the caller's owner membership.
    CreateTeam { plan: ProvisionPlan },
    /// Look the requested site up among the tenants the caller is a member of.
    FindSite,
    LoadEntitlement { tenant: String, site: String },
    /// Stop with the tenant and site the request may use, or a refusal.
    Done(Result<(String, String), Problem>),
}

/// The refusal when the caller's team cannot be provisioned.
pub open spec fn provision_problem(need: SiteNeed) -> Problem {
    if need == SiteNeed::Profile {
        Problem::ProvisionFailed
    } else {
        Problem::SiteUnavailable
    }
}

/// Whether admission has finished with `r`.
pub open spec fn ends(next: AdmissionState, a: AdmissionAction, r: Result<(String, String), Problem>) -> bool {
    next == AdmissionState::Finished && a == AdmissionAction::Done(r)
}

/// The step after the caller's team is known to exist.
pub open spec fn after_team(need: SiteNeed, team: (String, String), next: AdmissionState, a: AdmissionAction) -> bool {
    if need == SiteNeed::Profile {
        ends(next, a, Ok(team))
    } else {
        next == AdmissionState::AwaitSite && a == AdmissionAction::FindSite
    }
}

/// One step of admission for `user`.
pub open spec fn admission_transition(
    user: Identity,
    need: SiteNeed,
    s: AdmissionState,
    i: AdmissionInput,
    next: AdmissionState,
    a: AdmissionAction,
) -> bool {
    match (s, i) {
        (AdmissionState::Start, AdmissionInput::Begin) => next == AdmissionState::AwaitTeam && a
            == AdmissionAction::LookupTeam,
        (AdmissionState::AwaitTeam, AdmissionInput::Team(found)) => match found {
            None => ends(next, a, Err(provision_problem(need))),
            Some(Some(team)) => after_team(need, team, next, a),
            Some(None) => next matches AdmissionState::AwaitCreated { plan } && a == (AdmissionAction::CreateTeam {
                plan,
            }) && plan.tenant@ == own_tenant(user.oid@) && plan.site@ == own_site(user.oid@)
                && plan.team_name@ == user.name@ + "'s team"@,
        },
        (AdmissionState::AwaitCreated { plan }, AdmissionInput::Created(stored)) => if stored {
            after_team(need, (plan.tenant, plan.site), next, a)
        } else {
            ends(next, a, Err(provision_problem(need)))
        },
        (AdmissionState::AwaitSite, AdmissionInput::Site(found)) => match found {
            None => ends(next, a, Err(Problem::SiteForbidden)),
            Some(x) => if need == SiteNeed::Write {
                next == (AdmissionState::AwaitEntitlement { tenant: x.0, site: x.1 }) && a == (
                AdmissionAction::LoadEntitlement { tenant: x.0, site: x.1 })
            } else {
                ends(next, a, Ok(x))
            },
        },
        (AdmissionState::AwaitEntitlement { tenant, site }, AdmissionInput::Entitlement(record)) => if need
            != SiteNeed::Write {
            ends(next, a, Err(provision_problem(need)))
        } else {
            next == AdmissionState::Finished && exists|now: Instant|
                is_clock_reading(now) && a == AdmissionAction::Done(
                    if status_at(record_view(record), #[trigger] instant_pair(now)) == "active"@ {
                        Ok((tenant, site))
                    } else {
                        Err(Problem::SiteReadOnly)
                    },
                )
        },
        _ => ends(next, a, Err(provision_problem(need))),
    }
}

impl ProvisionPlan {
    /// A copy of the plan.
    pub fn duplicate(&self) -> (c: ProvisionPlan)
        ensures
            c == *self,
    {
        ProvisionPlan {
            tenant: self.tenant.clone(),
            site: self.site.clone(),
            team_name: self.team_name.clone(),
        }
    }
}

fn past_team(need: SiteNeed, team: (String, String)) -> (r: (AdmissionState, AdmissionAction))
    ensures
        after_team(need, team, r.0, r.1),
{
    match need {
        SiteNeed::Profile => (AdmissionState::Finished, AdmissionAction::Done(Ok(team))),
        _ => (AdmissionState::AwaitSite, AdmissionAction::FindSite),
    }
}

fn provision_failure(need: SiteNeed) -> (p: Problem)
    ensures
        p == provision_problem(need),
{
    match need {
        SiteNeed::Profile => Problem::ProvisionFailed,
        _ => Problem::SiteUnavailable,
    }
}

/// Takes one step of admission for `user`.
pub fn admission_step(user: &Identity, need: SiteNeed, state: AdmissionState, input: AdmissionInput) -> (r: (
    AdmissionState,
    AdmissionAction,
))
    ensures
        admission_transition(*user, need, state, input, r.0, r.1),
{
    match (state, input) {
        (AdmissionState::Start, AdmissionInput::Begin) => (AdmissionState::AwaitTeam, AdmissionAction::LookupTeam),
        (AdmissionState::AwaitTeam, AdmissionInput::Team(found)) => match found {
            None => (AdmissionState::Finished, AdmissionAction::Done(Err(provision_failure(need)))),
            Some(Some(team)) => past_team(need, team),
            Some(None) => {
                let plan = provision_plan(user);
                let stored = plan.duplicate();
                (AdmissionState::AwaitCreated { plan: stored }, AdmissionAction::CreateTeam { plan })
            },
        },
        (AdmissionState::AwaitCreated { plan }, AdmissionInput::Created(stored)) => {
            if stored {
                past_team(need, (plan.tenant, plan.site))
            } else {
                (AdmissionState::Finished, AdmissionAction::Done(Err(provision_failure(need))))
            }
        },
        (AdmissionState::AwaitSite, AdmissionInput::Site(found)) => {
            let provisioned_access = site_access(true, found);
            match provisioned_access {
                Err(p) => (AdmissionState::Finished, AdmissionAction::Done(Err(p))),
                Ok(x) => match need {
                    SiteNeed::Write => {
                        let tenant = x.0.clone();
                        let site = x.1.clone();
                        (
                            AdmissionState::AwaitEntitlement { tenant, site },
                            AdmissionAction::LoadEntitlement { tenant: x.0, site: x.1 },
                        )
                    },
                    _ => (AdmissionState::Finished, AdmissionAction::Done(Ok(x))),
                },
            }
        },
        (AdmissionState::AwaitEntitlement { tenant, site }, AdmissionInput::Entitlement(record)) => {
            if need != SiteNeed::Write {
                return (AdmissionState::Finished, AdmissionAction::Done(Err(provision_failure(need))));
            }
            let status = entitlement_status(record);
            match require_active_entitlement(status.as_str()) {
                Ok(()) => (AdmissionState::Finished, AdmissionAction::Done(Ok((tenant, site)))),
                Err(p) => (AdmissionState::Finished, AdmissionAction::Done(Err(p))),
            }
        },
        _ => (AdmissionState::Finished, AdmissionAction::Done(Err(provision_failure(need)))),
    }
}

/// A write is allowed only for a site whose entitlement reads `active`, and a read
/// or write only for a site found among the caller's memberships.
pub proof fn lemma_admission_grants_only_member_sites(
    user: Identity,
    need: SiteNeed,
    s: AdmissionState,
    i: AdmissionInput,
    next: AdmissionState,
    granted: (String, String),
)
    requires
        need != SiteNeed::Profile,
        admission_transition(user, need, s, i, next, AdmissionAction::Done(Ok(granted))),
    ensures
        need == SiteNeed::Read ==> s == AdmissionState::AwaitSite && i == AdmissionInput::Site(Some(granted)),
        need == SiteNeed::Write ==> s == (AdmissionState::AwaitEntitlement {
            tenant: granted.0,
            site: granted.1,
        }) && (i matches AdmissionInput::Entitlement(record) && exists|now: Instant|
            is_clock_reading(now) && status_at(record_view(record), #[trigger] instant_pair(now))
                == "active"@),
{
}

/// A write request reaches the entitlement check only for the site just found among the
/// caller's memberships.
pub proof fn lemma_entitlement_checked_for_found_site(
    user: Identity,
    s: AdmissionState,
    i: AdmissionInput,
    tenant: String,
    site: String,
    a: AdmissionAction,
)
    requires
        admission_transition(
            user,
            SiteNeed::Write,
            s,
            i,
            AdmissionState::AwaitEntitlement { tenant, site },
            a,
        ),
    ensures
        s == AdmissionState::AwaitSite,
        i == AdmissionInput::Site(Some((tenant, site))),
{
}

/// The entitlement is never consulted for reads or profiles: those requests never wait
/// on it.
pub proof fn lemma_reads_skip_entitlement(
    user: Identity,
    need: SiteNeed,
    s: AdmissionState,
    i: AdmissionInput,
    next: AdmissionState,
    a: AdmissionAction,
)
    requires
        need != SiteNeed::Write,
        admission_transition(user, need, s, i, next, a),
    ensures
        !(next is AwaitEntitlement),
        !(a is LoadEntitlement),
{
}

/// Provisioning happens only on a first visit: the machine asks to create a team only when
/// the lookup found none for the caller, and then always the caller's own tenant and
/// site; a visit whose lookup finds a team goes on with that team and creates nothing.
pub proof fn lemma_team_created_only_on_first_visit(
    user: Identity,
    need: SiteNeed,
    s: AdmissionState,
    i: AdmissionInput,
    next: AdmissionState,
    a: AdmissionAction,
)
    requires
        admission_transition(user, need, s, i, next, a),
    ensures
        a is CreateTeam ==> s == AdmissionState::AwaitTeam && i == AdmissionInput::Team(Some(None))
            && a->plan.tenant@ == own_tenant(user.oid@) && a->plan.site@ == own_site(user.oid@),
        s == AdmissionState::AwaitTeam ==> (i matches AdmissionInput::Team(Some(Some(team)))
            ==> !(a is CreateTeam) && (need == SiteNeed::Profile ==> a == AdmissionAction::Done(
            Ok(team),
        ))),
{
}

/// Provisioning twice gives the same team: a first visit creates the caller's own tenant
/// and site and, once they are stored, answers that pair; a later visit whose lookup finds
/// the stored pair answers the same pair and creates nothing.
pub proof fn lemma_second_visit_answers_the_same_team(
    user: Identity,
    created: AdmissionState,
    create: AdmissionAction,
    after_first: AdmissionState,
    first: AdmissionAction,
    after_second: AdmissionState,
    second: AdmissionAction,
)
    requires
        admission_transition(
            user,
            SiteNeed::Profile,
            AdmissionState::AwaitTeam,
            AdmissionInput::Team(Some(None)),
            created,
            create,
        ),
        admission_transition(
            user,
            SiteNeed::Profile,
            created,
            AdmissionInput::Created(true),
            after_first,
            first,
        ),
        admission_transition(
            user,
            SiteNeed::Profile,
            AdmissionState::AwaitTeam,
            AdmissionInput::Team(Some(Some((create->plan.tenant, create->plan.site)))),
            after_second,
            second,
        ),
    ensures
        create is CreateTeam,
        create->plan.tenant@ == own_tenant(user.oid@),
        create->plan.site@ == own_site(user.oid@),
        first == AdmissionAction::Done(Ok((create->plan.tenant, create->plan.site))),
        second == first,
{
}

/// A site whose entitlement is active takes writes until the expiry, judged at the clock:
/// for an active record, the write is allowed where the record has no expiry, an unreadable
/// one, or one later than the instant the clock gave, and refused as read-only once that
/// instant has reached the expiry.
pub proof fn law_active_entitlement_takes_writes_until_expiry(
    user: Identity,
    tenant: String,
    site: String,
    record: EntitlementRecord,
    next: AdmissionState,
    a: AdmissionAction,
)
    requires
        admission_transition(
            user,
            SiteNeed::Write,
            AdmissionState::AwaitEntitlement { tenant, site },
            AdmissionInput::Entitlement(Some(record)),
            next,
            a,
        ),
        record.status@ == "active"@,
    ensures
        exists|now: Instant|
            #![trigger is_clock_reading(now)]
            is_clock_reading(now) && match record.expires_at {
                Some(x) if rfc3339_instant(x@) is Some && not_later(
                    rfc3339_instant(x@)->0,
                    instant_pair(now),
                ) => a == AdmissionAction::Done(Err(Problem::SiteReadOnly)),
                _ => a == AdmissionAction::Done(Ok((tenant, site))),
            },
{
    reveal_strlit("active");
    reveal_strlit("expired");
    let now = choose|now: Instant|
        is_clock_reading(now) && a == AdmissionAction::Done(
            if status_at(record_view(Some(record)), #[trigger] instant_pair(now)) == "active"@ {
                Ok((tenant, site))
            } else {
                Err(Problem::SiteReadOnly)
            },
        );
    assert(is_clock_reading(now));
    match record.expires_at {
        Some(x) => {
            assert(record_view(Some(record)) == Some((record.status@, Some(x@))));
            if rfc3339_instant(x@) is Some && not_later(rfc3339_instant(x@)->0, instant_pair(now)) {
                assert(status_at(record_view(Some(record)), instant_pair(now)) == "expired"@);
            } else {
                assert(status_at(record_view(Some(record)), instant_pair(now)) == "active"@);
            }
        },
        None => {
            assert(status_at(record_view(Some(record)), instant_pair(now)) == "active"@);
        },
    }
}

} // verus!
