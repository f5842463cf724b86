use intake_desk_api::identity::{
    bearer_token, discovery_url, identity_from_claims, keys_are_fresh, select_signing_key,
    signing_key, signing_key_for, Claims, JwkKey,
};
use intake_desk_api::problem::Problem;
use intake_desk_api::tenancy::{
    provision_plan, receiver_role, site_access, staff_permission, validate_member,
};
use intake_desk_api::admission::{admission_step, AdmissionAction, AdmissionInput, AdmissionState, SiteNeed};
use intake_desk_api::identity::Identity;
use intake_desk_api::entitlement::EntitlementRecord;
use rusqlite::{Connection, OptionalExtension};

fn key(kid: &str, kty: &str) -> JwkKey {
    JwkKey {
        kid: kid.into(),
        n: "n".into(),
        e: "AQAB".into(),
        kty: kty.into(),
    }
}

#[test]
fn bearer_tokens_are_taken_after_the_scheme() {
    assert_eq!(bearer_token(Some("Bearer abc.def")), Ok("abc.def".to_string()));
    assert_eq!(bearer_token(Some("Bearer ")), Ok(String::new()));
    assert_eq!(bearer_token(Some("bearer abc")), Err(Problem::Unauthorized));
    assert_eq!(bearer_token(Some("Basic abc")), Err(Problem::Unauthorized));
    assert_eq!(bearer_token(None), Err(Problem::Unauthorized));
}

#[test]
fn provider_keys_are_cached_for_an_hour() {
    assert!(keys_are_fresh(0));
    assert!(keys_are_fresh(3599));
    assert!(!keys_are_fresh(3600));
}

#[test]
fn discovery_address_names_subdomain_and_tenant() {
    assert_eq!(
        discovery_url("sociobotcustomers", "t-1"),
        "https://sociobotcustomers.ciamlogin.com/t-1/v2.0/.well-known/openid-configuration"
    );
}

#[test]
fn signing_key_is_the_first_rsa_key_with_the_key_id() {
    let keys = vec![key("a", "EC"), key("b", "RSA"), key("a", "RSA"), key("a", "RSA")];
    assert_eq!(select_signing_key(&keys, Some("a")), Some(2));
    assert_eq!(select_signing_key(&keys, Some("b")), Some(1));
    assert_eq!(select_signing_key(&keys, Some("c")), None);
    assert_eq!(select_signing_key(&keys, None), None);
    assert_eq!(signing_key_for(None, &keys), Err(Problem::TokenMalformed));
    assert_eq!(signing_key_for(Some(None), &keys), Err(Problem::KeyNotRecognized));
    assert_eq!(signing_key_for(Some(Some("b".into())), &keys), Ok(1));
}

#[test]
fn signing_key_reads_the_token_header() {
    // Header {"alg":"RS256","kid":"k1"} in Base64url, then empty payload and signature.
    let token = "eyJhbGciOiJSUzI1NiIsImtpZCI6ImsxIn0.e30.c2ln";
    let keys = vec![key("k0", "RSA"), key("k1", "RSA")];
    assert_eq!(signing_key(token, &keys), Ok(1));
    assert_eq!(signing_key("not-a-token", &keys), Err(Problem::TokenMalformed));
    let unknown = vec![key("k9", "RSA")];
    assert_eq!(signing_key(token, &unknown), Err(Problem::KeyNotRecognized));
}

#[test]
fn identity_comes_from_claims_of_the_tenant() {
    let claims = Claims {
        oid: "u1".into(),
        tid: "tenant-x".into(),
        name: None,
        email: Some("a@b.c".into()),
    };
    let id = identity_from_claims(claims.clone(), "tenant-x").expect("same tenant");
    assert_eq!(id.oid, "u1");
    assert_eq!(id.name, "Receiving team member");
    assert_eq!(id.email.as_deref(), Some("a@b.c"));
    let named = Claims {
        name: Some("Ann".into()),
        ..claims.clone()
    };
    assert_eq!(identity_from_claims(named, "tenant-x").expect("named").name, "Ann");
    assert_eq!(identity_from_claims(claims, "tenant-y"), Err(Problem::ForeignTenant));
}

#[test]
fn first_visit_provisions_an_own_team() {
    let user = Identity {
        oid: "alex".into(),
        name: "Alex".into(),
        email: None,
    };
    let plan = provision_plan(&user);
    assert_eq!(plan.tenant, "tenant-alex");
    assert_eq!(plan.site, "site-alex");
    assert_eq!(plan.team_name, "Alex's team");
    assert_eq!(receiver_role(), "receiver");
}

#[test]
fn site_access_needs_membership() {
    let found = Some(("tenant-a".to_string(), "site-a".to_string()));
    assert_eq!(site_access(true, found.clone()), Ok(found.clone().unwrap()));
    assert_eq!(site_access(true, None), Err(Problem::SiteForbidden));
    assert_eq!(site_access(false, found), Err(Problem::SiteUnavailable));
}

#[test]
fn members_need_an_id_and_a_known_role() {
    assert_eq!(validate_member("u2", "viewer"), Ok(()));
    assert_eq!(validate_member("u2", "manager"), Ok(()));
    assert_eq!(validate_member("  ", "viewer"), Err(Problem::InvalidMember));
    assert_eq!(validate_member("u2", "admin"), Err(Problem::InvalidMember));
    assert_eq!(validate_member("u2", "Owner"), Err(Problem::InvalidMember));
    assert_eq!(staff_permission(Some("owner")), Ok(()));
    assert_eq!(staff_permission(Some("manager")), Ok(()));
    assert_eq!(staff_permission(Some("receiver")), Err(Problem::MemberForbidden));
    assert_eq!(staff_permission(None), Err(Problem::MemberForbidden));
}

fn run_admission(db: &Connection, user: &Identity, site: &str, need: SiteNeed) -> Result<(String, String), Problem> {
    let mut machine = AdmissionState::Start;
    let mut input = AdmissionInput::Begin;
    loop {
        let (next, action) = admission_step(user, need, machine, input);
        machine = next;
        input = match action {
            AdmissionAction::LookupTeam => AdmissionInput::Team(
                db.query_row(
                    "SELECT m.tenant_id,s.id FROM memberships m JOIN sites s ON s.tenant_id=m.tenant_id WHERE m.oid=?1 ORDER BY CASE m.role WHEN 'owner' THEN 0 ELSE 1 END,s.id LIMIT 1",
                    (&user.oid,),
                    |row| Ok((row.get::<_, String>(0)?, row.get::<_, String>(1)?)),
                )
                .optional()
                .ok(),
            ),
            AdmissionAction::CreateTeam { plan } => {
                let stored = db
                    .execute(
                        "INSERT OR IGNORE INTO tenants VALUES(?1,?2,'2026-01-01T00:00:00Z')",
                        (&plan.tenant, &plan.team_name),
                    )
                    .and_then(|_| {
                        db.execute(
                            "INSERT OR IGNORE INTO sites VALUES(?1,?2,'Receiving site')",
                            (&plan.site, &plan.tenant),
                        )
                    })
                    .and_then(|_| {
                        db.execute(
                            "INSERT OR IGNORE INTO memberships VALUES(?1,?2,'owner')",
                            (&plan.tenant, &user.oid),
                        )
                    })
                    .is_ok();
                AdmissionInput::Created(stored)
            }
            AdmissionAction::FindSite => AdmissionInput::Site(
                db.query_row(
                    "SELECT s.tenant_id,s.id FROM sites s JOIN memberships m ON m.tenant_id=s.tenant_id WHERE s.id=?1 AND m.oid=?2",
                    (site, &user.oid),
                    |r| Ok((r.get(0)?, r.get(1)?)),
                )
                .optional()
                .unwrap_or(None),
            ),
            AdmissionAction::LoadEntitlement { .. } => AdmissionInput::Entitlement(None),
            AdmissionAction::Done(result) => return result,
        };
    }
}

fn provision(db: &Connection, user: &Identity) -> Result<(String, String), Problem> {
    run_admission(db, user, "", SiteNeed::Profile)
}

fn allowed_site(db: &Connection, user: &Identity, site: &str) -> Result<(String, String), Problem> {
    run_admission(db, user, site, SiteNeed::Read)
}

#[test]
fn tenant_membership_cannot_cross_to_another_site() {
    let db = Connection::open_in_memory().expect("memory database");
    db.execute_batch("CREATE TABLE tenants(id TEXT PRIMARY KEY,name TEXT,created_at TEXT); CREATE TABLE sites(id TEXT PRIMARY KEY,tenant_id TEXT,name TEXT); CREATE TABLE memberships(tenant_id TEXT,oid TEXT,role TEXT,PRIMARY KEY(tenant_id,oid));").expect("schema");
    let alex = Identity {
        oid: "alex".into(),
        name: "Alex".into(),
        email: None,
    };
    let blair = Identity {
        oid: "blair".into(),
        name: "Blair".into(),
        email: None,
    };
    let (_, alex_site) = provision(&db, &alex).expect("alex site");
    let (_, blair_site) = provision(&db, &blair).expect("blair site");
    assert!(allowed_site(&db, &alex, &alex_site).is_ok());
    assert!(allowed_site(&db, &alex, &blair_site).is_err());
}

#[test]
fn distinct_users_get_distinct_own_teams() {
    let a = provision_plan(&Identity { oid: "ab".into(), name: "A".into(), email: None });
    let b = provision_plan(&Identity { oid: "a".into(), name: "A".into(), email: None });
    assert_ne!(a.tenant, b.tenant);
    assert_ne!(a.site, b.site);
}

#[test]
fn admission_provisions_checks_membership_and_entitlement() {
    let user = Identity { oid: "u1".into(), name: "Uma".into(), email: None };
    let (s, a) = admission_step(&user, SiteNeed::Write, AdmissionState::Start, AdmissionInput::Begin);
    assert_eq!(a, AdmissionAction::LookupTeam);
    let (s, a) = admission_step(&user, SiteNeed::Write, s, AdmissionInput::Team(Some(None)));
    let AdmissionAction::CreateTeam { plan } = a else {
        panic!("expected a new team");
    };
    assert_eq!(plan.tenant, "tenant-u1");
    assert_eq!(plan.team_name, "Uma's team");
    let (s, a) = admission_step(&user, SiteNeed::Write, s, AdmissionInput::Created(true));
    assert_eq!(a, AdmissionAction::FindSite);
    let found = Some(("tenant-u1".to_string(), "site-u1".to_string()));
    let (waiting, a) = admission_step(&user, SiteNeed::Write, s.clone(), AdmissionInput::Site(found.clone()));
    assert_eq!(
        a,
        AdmissionAction::LoadEntitlement { tenant: "tenant-u1".into(), site: "site-u1".into() }
    );
    let active = Some(EntitlementRecord { status: "active".into(), expires_at: None });
    let (_, a) = admission_step(&user, SiteNeed::Write, waiting.clone(), AdmissionInput::Entitlement(active));
    assert_eq!(a, AdmissionAction::Done(Ok(found.clone().unwrap())));
    let (_, a) = admission_step(&user, SiteNeed::Write, waiting.clone(), AdmissionInput::Entitlement(None));
    assert_eq!(a, AdmissionAction::Done(Err(Problem::SiteReadOnly)));
    let expired = Some(EntitlementRecord {
        status: "active".into(),
        expires_at: Some("2020-01-01T00:00:00Z".into()),
    });
    let (_, a) = admission_step(&user, SiteNeed::Write, waiting, AdmissionInput::Entitlement(expired));
    assert_eq!(a, AdmissionAction::Done(Err(Problem::SiteReadOnly)));
    let (_, a) = admission_step(&user, SiteNeed::Read, s.clone(), AdmissionInput::Site(found.clone()));
    assert_eq!(a, AdmissionAction::Done(Ok(found.unwrap())));
    let (_, a) = admission_step(&user, SiteNeed::Read, s, AdmissionInput::Site(None));
    assert_eq!(a, AdmissionAction::Done(Err(Problem::SiteForbidden)));
}

#[test]
fn admission_reports_provisioning_failures() {
    let user = Identity { oid: "u1".into(), name: "Uma".into(), email: None };
    let (_, a) = admission_step(&user, SiteNeed::Read, AdmissionState::AwaitTeam, AdmissionInput::Team(None));
    assert_eq!(a, AdmissionAction::Done(Err(Problem::SiteUnavailable)));
    let (_, a) = admission_step(&user, SiteNeed::Profile, AdmissionState::AwaitTeam, AdmissionInput::Team(None));
    assert_eq!(a, AdmissionAction::Done(Err(Problem::ProvisionFailed)));
    let existing = ("tenant-t".to_string(), "site-s".to_string());
    let (_, a) = admission_step(
        &user,
        SiteNeed::Profile,
        AdmissionState::AwaitTeam,
        AdmissionInput::Team(Some(Some(existing.clone()))),
    );
    assert_eq!(a, AdmissionAction::Done(Ok(existing)));
}
