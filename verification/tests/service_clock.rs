use intake_desk_api::clock::{moment, moment_at, now, retention_until, Instant};
use intake_desk_api::entitlement::{
    entitlement_status, entitlement_status_at, require_active_entitlement, status_with_expiry,
    EntitlementRecord,
};
use intake_desk_api::problem::{challenge_for, fail, Problem};
use intake_desk_api::service::{
    build_sha, cache_control, known, needs_wal_switch, parse_u16, policy_status, read_port,
};
use intake_desk_api::text::{integer_string, lower_hex_string, text_equals, trimmed};

fn record(status: &str, expires_at: Option<&str>) -> Option<EntitlementRecord> {
    Some(EntitlementRecord {
        status: status.into(),
        expires_at: expires_at.map(String::from),
    })
}

const NEW_YEAR_2026: Instant = Instant {
    secs: 1767225600,
    nanos: 0,
};

#[test]
fn entitlement_status_reads_expiry() {
    assert_eq!(entitlement_status_at(None, NEW_YEAR_2026), "unavailable");
    assert_eq!(
        entitlement_status_at(record("active", Some("2020-01-01T00:00:00Z")), NEW_YEAR_2026),
        "expired"
    );
    assert_eq!(
        entitlement_status_at(record("active", Some("2026-01-01T00:00:00Z")), NEW_YEAR_2026),
        "expired"
    );
    assert_eq!(
        entitlement_status_at(record("active", Some("2026-01-01T00:00:01Z")), NEW_YEAR_2026),
        "active"
    );
    assert_eq!(
        entitlement_status_at(record("active", Some("not a date")), NEW_YEAR_2026),
        "active"
    );
    assert_eq!(entitlement_status_at(record("active", None), NEW_YEAR_2026), "active");
    assert_eq!(
        entitlement_status_at(record("revoked", Some("2020-01-01T00:00:00Z")), NEW_YEAR_2026),
        "revoked"
    );
    assert_eq!(entitlement_status(record("active", Some("2020-01-01T00:00:00Z"))), "expired");
    assert_eq!(entitlement_status(record("revoked", None)), "revoked");
}

#[test]
fn only_active_sites_take_writes() {
    assert_eq!(require_active_entitlement("active"), Ok(()));
    for status in ["expired", "revoked", "unavailable", "Active"] {
        let refused = require_active_entitlement(status);
        assert_eq!(refused, Err(Problem::SiteReadOnly));
        let failure = Problem::SiteReadOnly.failure();
        assert_eq!(failure.status, 402);
        assert_eq!(failure.code, "site_read_only");
    }
}

#[test]
fn refusals_carry_status_code_and_challenge() {
    assert_eq!(
        Problem::Unauthorized.failure(),
        fail(401, "unauthorized", "Sign in to access this site.", "sign_in")
    );
    assert_eq!(Problem::ReceiptAlreadyFinalized.failure().message, "This receipt was already finalized.");
    assert_eq!(challenge_for(401), Some("Bearer realm=\"Intake Desk\""));
    assert_eq!(challenge_for(403), None);
}

#[test]
fn clock_texts_are_rfc3339_seconds() {
    let m = moment_at(NEW_YEAR_2026).expect("in range");
    assert_eq!(m.text, "2026-01-01T00:00:00Z");
    assert_eq!(retention_until(NEW_YEAR_2026).as_deref(), Some("2032-12-30T00:00:00Z"));
    assert_eq!(
        retention_until(Instant { secs: 0, nanos: 5 }).as_deref(),
        Some("1976-12-30T00:00:00Z")
    );
    assert_eq!(retention_until(Instant { secs: i64::MAX, nanos: 0 }), None);
    let current = moment();
    assert_eq!(current.text.len(), 20);
    assert!(current.text.ends_with('Z'));
    assert_eq!(now().len(), 20);
}

#[test]
fn known_paths_and_status_policy() {
    for path in ["/", "/health", "/demo", "/auth/callback", "/api/v1/me", "/assets/app.js", "/sw.js"] {
        assert!(known(path), "{path}");
    }
    for path in ["/admin", "/demo2", "/api", "/index.htm", ""] {
        assert!(!known(path), "{path}");
    }
    assert_eq!(policy_status(200, "/admin"), 404);
    assert_eq!(policy_status(200, "/start"), 200);
    assert_eq!(policy_status(500, "/admin"), 500);
}

#[test]
fn cache_policy_by_path() {
    assert_eq!(cache_control("/api/v1/me"), "no-cache, no-store, must-revalidate");
    assert_eq!(cache_control("/start"), "no-cache, no-store, must-revalidate");
    assert_eq!(cache_control("/index.html"), "no-cache, no-store, must-revalidate");
    assert_eq!(cache_control("/assets/app.1234.js"), "public, max-age=31536000, immutable");
    assert_eq!(cache_control("/fonts/inter.woff2"), "public, max-age=31536000, immutable");
    assert_eq!(cache_control("/favicon.svg"), "public, max-age=3600");
}

#[test]
fn build_identity_prefers_the_first_set_commit() {
    assert_eq!(build_sha(Some("abc"), Some("def"), None), "abc");
    assert_eq!(build_sha(Some(""), Some("def"), Some("ghi")), "def");
    assert_eq!(build_sha(None, Some(""), Some("ghi")), "ghi");
    assert_eq!(build_sha(None, None, None), "dev");
    assert_eq!(build_sha(Some(""), Some(""), Some("")), "dev");
}

#[test]
fn port_setting_falls_back_to_8080() {
    assert_eq!(read_port(None), (8080, "default"));
    assert_eq!(read_port(Some("3000")), (3000, "supplied"));
    assert_eq!(read_port(Some("+65535")), (65535, "supplied"));
    assert_eq!(read_port(Some("65536")), (8080, "invalid-fallback"));
    assert_eq!(read_port(Some("")), (8080, "invalid-fallback"));
    assert_eq!(read_port(Some("80a")), (8080, "invalid-fallback"));
    for text in ["0", "007", "+1", "-1", "+", " 80", "99999999999"] {
        assert_eq!(parse_u16(text), text.parse::<u16>().ok(), "{text}");
    }
}

#[test]
fn journal_mode_switches_unless_wal() {
    assert!(!needs_wal_switch("wal"));
    assert!(!needs_wal_switch("WAL"));
    assert!(!needs_wal_switch("Wal"));
    assert!(needs_wal_switch("delete"));
    assert!(needs_wal_switch("wal2"));
}

#[test]
fn text_helpers() {
    assert_eq!(trimmed("\u{a0} x y \u{2029}").into_iter().collect::<String>(), "x y");
    assert_eq!(integer_string(0), "0");
    assert_eq!(integer_string(-5), "-5");
    assert_eq!(integer_string(1234567), "1234567");
    assert_eq!(integer_string(i64::MIN), i64::MIN.to_string());
    assert_eq!(lower_hex_string(&[0x00, 0xab, 0x0f]), "00ab0f");
    assert!(text_equals("a€", "a€"));
    assert!(!text_equals("a", "ab"));
}

#[test]
fn refusals_use_error_statuses() {
    for problem in [
        Problem::Unauthorized,
        Problem::SiteReadOnly,
        Problem::NotReady,
        Problem::CheckoutUnavailable,
        Problem::ReceiptAlreadyFinalized,
        Problem::AttachmentMissing,
    ] {
        let status = problem.failure().status;
        assert!((400..=599).contains(&status));
    }
    assert_eq!(Problem::NotReady.failure().status, 503);
    assert_eq!(Problem::ReceiptNotFinalized.failure().code, "receipt_not_finalized");
}

#[test]
fn expiry_not_later_than_now_expires_active_status() {
    let earlier = Instant { secs: 100, nanos: 5 };
    let now = Instant { secs: 100, nanos: 6 };
    assert_eq!(status_with_expiry("active".into(), Some(earlier), now), "expired");
    assert_eq!(status_with_expiry("active".into(), Some(now), now), "expired");
    assert_eq!(status_with_expiry("active".into(), Some(now), earlier), "active");
    assert_eq!(status_with_expiry("active".into(), None, now), "active");
    assert_eq!(status_with_expiry("paused".into(), Some(earlier), now), "paused");
}

#[test]
fn refusals_carry_the_challenge_only_on_401() {
    let r = Problem::Unauthorized.refusal();
    assert_eq!(r.failure, Problem::Unauthorized.failure());
    assert_eq!(r.challenge, Some("Bearer realm=\"Intake Desk\""));
    assert_eq!(Problem::SiteForbidden.refusal().challenge, None);
    let answer = intake_desk_api::problem::fail_answer(401, "invalid_token", "m", "sign_in");
    assert_eq!(answer.failure.status, 401);
    assert_eq!(answer.failure.code, "invalid_token");
    assert_eq!(answer.challenge, Some("Bearer realm=\"Intake Desk\""));
    assert_eq!(intake_desk_api::problem::fail_answer(503, "c", "m", "a").challenge, None);
}
