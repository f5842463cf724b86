use intake_desk_api::clock::{moment_at, Instant};
use intake_desk_api::evidence::{
    evidence_after_store, accept_evidence, attachment_id, check_evidence, content_disposition, content_matches_type,
    download_url, object_key, requested_attachment_id,
};
use intake_desk_api::problem::Problem;
use intake_desk_api::records::{
    license_outcome, readiness, receipt_save_check, validate_correction, validate_purchase_order,
};

const PNG: [u8; 8] = [0x89, 0x50, 0x4e, 0x47, 0x0d, 0x0a, 0x1a, 0x0a];

#[test]
fn evidence_of_accepted_types_with_their_signature_is_kept() {
    // "iVBORw0KGgo=" is the Base64 text of the eight-byte PNG signature.
    assert_eq!(check_evidence("image/png", "iVBORw0KGgo="), Ok(PNG.to_vec()));
    // "JVBERi0xLjc=" is "%PDF-1.7".
    assert_eq!(
        check_evidence("application/pdf", "JVBERi0xLjc="),
        Ok(b"%PDF-1.7".to_vec())
    );
    assert_eq!(check_evidence("image/jpeg", "/9j/"), Ok(vec![0xff, 0xd8, 0xff]));
}

#[test]
fn evidence_of_other_types_is_refused_before_decoding() {
    assert_eq!(check_evidence("image/gif", "iVBORw0KGgo="), Err(Problem::UnsupportedEvidence));
    assert_eq!(check_evidence("image/gif", "%%%"), Err(Problem::UnsupportedEvidence));
}

#[test]
fn evidence_that_is_not_base64_or_too_large_is_invalid() {
    assert_eq!(check_evidence("image/png", "%%%"), Err(Problem::InvalidEvidence));
    let mut big = PNG.to_vec();
    big.resize(5 * 1024 * 1024 + 1, 0);
    assert_eq!(accept_evidence("image/png", Some(big)), Err(Problem::InvalidEvidence));
    let mut limit = PNG.to_vec();
    limit.resize(5 * 1024 * 1024, 0);
    assert!(accept_evidence("image/png", Some(limit)).is_ok());
    assert_eq!(accept_evidence("image/png", None), Err(Problem::InvalidEvidence));
}

#[test]
fn evidence_content_must_match_its_type() {
    assert_eq!(check_evidence("image/jpeg", "iVBORw0KGgo="), Err(Problem::EvidenceMismatch));
    let webp = b"RIFF\x00\x00\x00\x00WEBPVP8 ".to_vec();
    assert!(content_matches_type("image/webp", &webp));
    assert!(!content_matches_type("image/webp", b"RIFF\x00\x00\x00\x00WEB"));
    assert!(!content_matches_type("image/webp", b"RIFX\x00\x00\x00\x00WEBP"));
    assert!(!content_matches_type("image/png", &PNG[..7]));
    assert!(!content_matches_type("text/plain", b"%PDF-"));
}

#[test]
fn attachment_ids_keep_usable_client_ids() {
    assert_eq!(attachment_id(Some("dock-evidence")), "dock-evidence");
    assert_eq!(requested_attachment_id(Some("   ")), None);
    let long = "x".repeat(129);
    assert_eq!(requested_attachment_id(Some(&long)), None);
    let edge = "x".repeat(128);
    assert_eq!(requested_attachment_id(Some(&edge)), Some(edge.clone()));
    let generated = attachment_id(None);
    assert_eq!(generated.len(), 36);
    assert_ne!(generated, attachment_id(Some("  ")));
    assert_eq!(attachment_id(Some(&long)).len(), 36);
}

#[test]
fn evidence_is_stored_and_served_by_name() {
    assert_eq!(object_key("abc123"), "objects/abc123");
    assert_eq!(
        content_disposition("dock \"1\"\r\n.png"),
        "attachment; filename=\"dock _1___.png\""
    );
    assert_eq!(
        download_url("site-a", "receipt-1", "att-9"),
        "/api/v1/sites/site-a/receipts/receipt-1/attachments/att-9"
    );
}

#[test]
fn purchase_orders_need_id_and_number() {
    assert_eq!(validate_purchase_order("po-1", "PO-1"), Ok(()));
    assert_eq!(validate_purchase_order(" \t", "PO-1"), Err(Problem::InvalidPurchaseOrder));
    assert_eq!(validate_purchase_order("po-1", "\u{3000}"), Err(Problem::InvalidPurchaseOrder));
}

#[test]
fn finalized_receipts_cannot_be_saved_again() {
    assert_eq!(receipt_save_check(true, None), Ok(()));
    assert_eq!(receipt_save_check(true, Some("draft")), Ok(()));
    assert_eq!(receipt_save_check(true, Some("finalized")), Err(Problem::ReceiptFinalized));
    assert_eq!(receipt_save_check(false, None), Err(Problem::PurchaseOrderForbidden));
}

#[test]
fn correction_reasons_are_trimmed_and_bounded() {
    assert_eq!(validate_correction("  Miscount \n"), Ok("Miscount".to_string()));
    assert_eq!(validate_correction("   "), Err(Problem::InvalidCorrection));
    let exact = "a".repeat(1000);
    assert_eq!(validate_correction(&format!(" {exact} ")), Ok(exact.clone()));
    assert_eq!(validate_correction(&"a".repeat(1001)), Err(Problem::InvalidCorrection));
    // 334 three-byte characters are 1002 bytes, though only 334 characters.
    assert_eq!(validate_correction(&"€".repeat(334)), Err(Problem::InvalidCorrection));
    assert!(validate_correction(&"€".repeat(333)).is_ok());
}

#[test]
fn license_attachment_is_never_accepted() {
    assert_eq!(license_outcome(""), Problem::InvalidLicense);
    assert_eq!(license_outcome("  "), Problem::InvalidLicense);
    assert_eq!(license_outcome("token-1"), Problem::CheckoutUnavailable);
    assert_eq!(license_outcome("token-1").failure().status, 503);
}

#[test]
fn readiness_needs_the_database() {
    assert_eq!(readiness(true, true), Ok(()));
    assert_eq!(readiness(false, true), Err(Problem::NotReady));
    assert_eq!(readiness(true, false), Err(Problem::NotReady));
    assert_eq!(readiness(false, false), Err(Problem::NotReady));
}

#[test]
fn evidence_objects_are_named_by_their_content() {
    let a = object_key(&intake_desk_api::digest::digest_bytes(&PNG));
    let b = object_key(&intake_desk_api::digest::digest_bytes(&PNG.to_vec()));
    let c = object_key(&intake_desk_api::digest::digest_bytes(&[0xff, 0xd8, 0xff]));
    assert_eq!(a, b);
    assert_ne!(a, c);
    assert_eq!(
        a,
        "objects/4c4b6a3be1314ab86138bef4314dde022e600960d8689a2c8f8631802d20dab6"
    );
}

#[test]
fn stored_evidence_record_is_retained_seven_years() {
    let created = moment_at(Instant { secs: 0, nanos: 0 }).expect("epoch is writable");
    assert_eq!(created.text, "1970-01-01T00:00:00Z");
    let record = evidence_after_store("c".repeat(64), "objects/c".into(), 8, "att-1".into(), created)
        .expect("retention date is writable");
    assert_eq!(record.id, "att-1");
    assert_eq!(record.checksum, "c".repeat(64));
    assert_eq!(record.object_key, "objects/c");
    assert_eq!(record.size, 8);
    assert_eq!(record.created_at, "1970-01-01T00:00:00Z");
    assert_eq!(record.retention_until, "1976-12-30T00:00:00Z");
}

#[test]
fn evidence_whose_retention_date_cannot_be_written_is_refused() {
    let late = moment_at(Instant { secs: 8210266876799 - 1000, nanos: 0 })
        .expect("the last writable year is writable");
    assert_eq!(
        evidence_after_store("c".into(), "objects/c".into(), 1, "x".into(), late),
        Err(Problem::EvidenceLinkFailed)
    );
}

#[test]
fn fresh_attachment_ids_are_version_4_uuids() {
    let id = attachment_id(None);
    let chars: Vec<char> = id.chars().collect();
    assert_eq!(chars.len(), 36);
    for (i, c) in chars.iter().enumerate() {
        if [8, 13, 18, 23].contains(&i) {
            assert_eq!(*c, '-');
        } else {
            assert!(c.is_ascii_hexdigit() && !c.is_ascii_uppercase());
        }
    }
    assert_eq!(chars[14], '4');
    assert!(['8', '9', 'a', 'b'].contains(&chars[19]));
}
