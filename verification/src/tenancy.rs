//! Teams, sites and memberships: who may open which receiving site.
use vstd::prelude::*;
use vstd::string::StringExecFns;
use crate::identity::Identity;
use crate::problem::Problem;
use crate::text::blank;
use crate::text::is_blank;
use crate::text::text_equals;

verus! {

/// The role a new member gets when none is named.
pub fn receiver_role() -> (r: String)
    ensures
        r@ == "receiver"@,
{
    String::from_str("receiver")
}

/// The team, site and team name created for a user who belongs to no team yet.
#[derive(Clone, Debug, PartialEq, Eq)]
pub struct ProvisionPlan {
    pub tenant: String,
    pub site: String,
    pub team_name: String,
}

/// The tenant id of the team created for the user `oid`.
pub open spec fn own_tenant(oid: Seq<char>) -> Seq<char> {
    "tenant-"@ + oid
}

/// The site id of the receiving site created for the user `oid`.
pub open spec fn own_site(oid: Seq<char>) -> Seq<char> {
    "site-"@ + oid
}

/// The team, site and team name that a first visit of `user` creates.
pub fn provision_plan(user: &Identity) -> (p: ProvisionPlan)
    ensures
        p.tenant@ == own_tenant(user.oid@),
        p.site@ == own_site(user.oid@),
        p.team_name@ == user.name@ + "'s team"@,
{
    let mut tenant = String::from_str("tenant-");
    tenant.append(user.oid.as_str());
    let mut site = String::from_str("site-");
    site.append(user.oid.as_str());
    let mut team_name = String::from_str(user.name.as_str());
    team_name.append("'s team");
    ProvisionPlan { tenant, site, team_name }
}

/// Teams created on first visit never collide: distinct users get distinct tenants and sites.
pub proof fn lemma_own_teams_are_distinct(a: Seq<char>, b: Seq<char>)
    requires
        a != b,
    ensures
        own_tenant(a) != own_tenant(b),
        own_site(a) != own_site(b),
{
    reveal_strlit("tenant-");
    reveal_strlit("site-");
    let ta = own_tenant(a);
    let tb = own_tenant(b);
    if ta == tb {
        assert(a =~= ta.skip(7));
        assert(b =~= tb.skip(7));
    }
    let sa = own_site(a);
    let sb = own_site(b);
    if sa == sb {
        assert(a =~= sa.skip(5));
        assert(b =~= sb.skip(5));
    }
}

/// Whether the caller may open the site: the team had to be provisioned, and the site
/// must belong to a tenant in which the caller holds a membership (`found`).
pub fn site_access(provisioned: bool, found: Option<(String, String)>) -> (r: Result<
    (String, String),
    Problem,
>)
    ensures
        !provisioned ==> r == Err::<(String, String), Problem>(Problem::SiteUnavailable),
        provisioned && found is None ==> r == Err::<(String, String), Problem>(
            Problem::SiteForbidden,
        ),
        provisioned && found is Some ==> r == Ok::<(String, String), Problem>(found->0),
{
    if !provisioned {
        return Err(Problem::SiteUnavailable);
    }
    match found {
        Some(x) => Ok(x),
        None => Err(Problem::SiteForbidden),
    }
}

/// The roles a member can hold.
pub open spec fn is_known_role(role: Seq<char>) -> bool {
    role == "owner"@ || role == "manager"@ || role == "receiver"@ || role == "viewer"@
}

/// A new member needs an object id and one of the known roles.
pub fn validate_member(oid: &str, role: &str) -> (r: Result<(), Problem>)
    ensures
        r == (if is_blank(oid@) || !is_known_role(role@) {
            Err::<(), Problem>(Problem::InvalidMember)
        } else {
            Ok::<(), Problem>(())
        }),
{
    if blank(oid) {
        return Err(Problem::InvalidMember);
    }
    if text_equals(role, "owner") || text_equals(role, "manager") || text_equals(role, "receiver")
        || text_equals(role, "viewer") {
        Ok(())
    } else {
        Err(Problem::InvalidMember)
    }
}

/// Only an owner or a manager of the team may add staff.
pub fn staff_permission(caller_role: Option<&str>) -> (r: Result<(), Problem>)
    ensures
        r == (if caller_role matches Some(x) && (x@ == "owner"@ || x@ == "manager"@) {
            Ok::<(), Problem>(())
        } else {
            Err::<(), Problem>(Problem::MemberForbidden)
        }),
{
    match caller_role {
        Some(x) => {
            if text_equals(x, "owner") || text_equals(x, "manager") {
                Ok(())
            } else {
                Err(Problem::MemberForbidden)
            }
        },
        None => Err(Problem::MemberForbidden),
    }
}

} // verus!
