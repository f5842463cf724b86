use intake_desk_api::audit::{
    audit_hash, canonical_record, correction_allowed, correction_link, event_id, finalization_previous_hash,
    finalization_update, finalize_start, links_to_predecessor, next_sequence, plan_correction,
    plan_finalization, repeat_finalization, FinalizeStart, RecordedFinalization,
};
use intake_desk_api::digest::{digest, digest_bytes};

fn digest_text(text: &str) -> String {
    digest(&[text])
}
use intake_desk_api::problem::Problem;

#[test]
fn event_hash_is_tamper_evident() {
    assert_ne!(digest(&["a", "1"]), digest(&["a", "2"]));
}

#[test]
fn digest_matches_known_sha256_vectors() {
    assert_eq!(
        digest(&["abc"]),
        "ba7816bf8f01cfea414140de5dae2223b00361a396177a9cb410ff61f20015ad"
    );
    assert_eq!(digest(&["a", "bc"]), digest(&["abc"]));
    assert_eq!(
        digest_bytes(&[]),
        "e3b0c44298fc1c149afbf4c8996fb92427ae41e4649b934ca495991b7852b855"
    );
}

#[test]
fn audit_hash_covers_the_canonical_event_text() {
    let hash = audit_hash(
        "r-1:event-1",
        1,
        "finalized",
        "2026-01-01T00:00:00Z",
        "Ann",
        "Receipt finalized.",
        "GENESIS",
    );
    assert_eq!(
        hash,
        "2d2d133d17ee74c970be4a95284f64b8ac8a85f91b82f9bc6b7ee4bf242bb627"
    );
    let expected = digest_text(
        "{\"id\":\"r-1:event-1\",\"sequence\":1,\"type\":\"finalized\",\"at\":\"2026-01-01T00:00:00Z\",\"actor\":\"Ann \\\"Q\\\"\",\"summary\":\"Receipt finalized.\",\"previousHash\":\"GENESIS\"}",
    );
    let quoted = audit_hash(
        "r-1:event-1",
        1,
        "finalized",
        "2026-01-01T00:00:00Z",
        "Ann \"Q\"",
        "Receipt finalized.",
        "GENESIS",
    );
    assert_eq!(quoted, expected);
    let negative = audit_hash("x", -12, "t", "a", "b", "c", "d");
    let negative_expected = digest_text(
        "{\"id\":\"x\",\"sequence\":-12,\"type\":\"t\",\"at\":\"a\",\"actor\":\"b\",\"summary\":\"c\",\"previousHash\":\"d\"}",
    );
    assert_eq!(negative, negative_expected);
}

#[test]
fn event_ids_and_sequences() {
    assert_eq!(event_id("receipt-7", 3), "receipt-7:event-3");
    assert_eq!(next_sequence(None), 1);
    assert_eq!(next_sequence(Some(0)), 1);
    assert_eq!(next_sequence(Some(4)), 5);
    assert!(!links_to_predecessor(1));
    assert!(links_to_predecessor(2));
}

#[test]
fn finalization_links_to_its_predecessor() {
    assert_eq!(finalization_previous_hash(1, Some("abc".into())), "GENESIS");
    assert_eq!(finalization_previous_hash(2, Some("abc".into())), "abc");
    assert_eq!(finalization_previous_hash(2, None), "GENESIS");
}

#[test]
fn finalization_event_uses_receipt_fields_or_defaults() {
    let event = plan_finalization("r-1", 1, "GENESIS", "2026-01-01T00:00:00Z", Some("Ann"), None);
    assert_eq!(event.id, "r-1:event-1");
    assert_eq!(event.actor, "Ann");
    assert_eq!(event.summary, "Receipt finalized.");
    assert_eq!(event.event_type, "finalized");
    assert_eq!(
        event.hash,
        "2d2d133d17ee74c970be4a95284f64b8ac8a85f91b82f9bc6b7ee4bf242bb627"
    );
    let generic = plan_finalization("r-1", 2, "prev", "t", None, Some("Counted 4 pallets"));
    assert_eq!(generic.actor, "Receiving team member");
    assert_eq!(generic.summary, "Counted 4 pallets");
    assert_eq!(generic.previous_hash, "prev");
}

#[test]
fn correction_event_follows_the_latest_event() {
    let first = plan_finalization("r-1", 1, "GENESIS", "t0", None, None);
    let (sequence, previous) = correction_link(Some((2, first.hash.clone())));
    let correction = plan_correction("r-1", sequence, &previous, "t1", None, "Ann receiver", "Miscount");
    assert_eq!(correction.sequence, 2);
    assert_eq!(correction.previous_hash, first.hash);
    assert_eq!(correction.actor, "Ann receiver");
    assert_eq!(correction.summary, "Correction recorded: Miscount");
    assert_eq!(correction.event_type, "corrected");
    assert_eq!(correction.id, "r-1:event-2");
    let by_receiver = plan_correction("r-1", 3, "h", "t", Some("Dock lead"), "Ann", "x");
    assert_eq!(by_receiver.actor, "Dock lead");
    assert_eq!(correction_link(None), (1, "GENESIS".to_string()));
}

#[test]
fn finalize_steps() {
    assert_eq!(finalize_start(None), Err(Problem::ReceiptNotFound));
    assert_eq!(finalize_start(Some("draft")), Ok(FinalizeStart::Fresh));
    assert_eq!(finalize_start(Some("finalized")), Ok(FinalizeStart::Repeat));
    let stored = RecordedFinalization {
        hash: "h".into(),
        sequence: 1,
        created_at: "t".into(),
    };
    assert_eq!(
        repeat_finalization(false, Some(stored.clone())),
        Err(Problem::FinalizedBackupFailed)
    );
    assert_eq!(repeat_finalization(true, None), Err(Problem::AuditMissing));
    assert_eq!(repeat_finalization(true, Some(stored.clone())), Ok(stored));
    assert_eq!(finalization_update(0), Err(Problem::ReceiptAlreadyFinalized));
    assert_eq!(finalization_update(1), Ok(()));
}

#[test]
fn corrections_need_a_finalized_receipt() {
    assert_eq!(correction_allowed(Some("finalized")), Ok(()));
    assert_eq!(correction_allowed(Some("draft")), Err(Problem::ReceiptNotFinalized));
    assert_eq!(correction_allowed(None), Err(Problem::ReceiptNotFinalized));
}

#[test]
fn canonical_record_lays_out_the_quoted_fields() {
    assert_eq!(
        canonical_record("\"r:event-2\"", 2, "\"corrected\"", "\"t\"", "\"Ann\"", "\"s\"", "\"h1\""),
        "{\"id\":\"r:event-2\",\"sequence\":2,\"type\":\"corrected\",\"at\":\"t\",\"actor\":\"Ann\",\"summary\":\"s\",\"previousHash\":\"h1\"}"
    );
}

#[test]
fn audit_hash_escapes_fields_as_json_strings() {
    let hash = audit_hash("a\"b", -3, "t\n", "\u{1f}\u{8}", "x\\", "é", "p");
    assert_eq!(hash, "4a3426a3ccc43f5f6ba5f00b9e4f577150316089a47c153b6215186e801268ab");
    assert_ne!(hash, audit_hash("a\"b", -3, "t\n", "\u{1f}\u{8}", "x\\", "é", "q"));
    assert_ne!(audit_hash("a", 1, "b", "", "", "", ""), audit_hash("a\",\"sequence\":1", 1, "b", "", "", "", ""));
}
