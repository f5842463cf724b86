//! The refusals the service answers with, each with its HTTP status, code, message and action.
use vstd::prelude::*;

verus! {

/// An error answer: HTTP status, machine code, message for people, and suggested action.
#[derive(Clone, Copy, Debug, PartialEq, Eq)]
pub struct Failure {
    pub status: u16,
    pub code: &'static str,
    pub message: &'static str,
    pub action: &'static str,
}

/// Every refusal the service gives.
#[derive(Clone, Copy, Debug, PartialEq, Eq, Structural)]
pub enum Problem {
    /// No bearer token came with the request.
    Unauthorized,
    /// The identity provider's keys could not be fetched.
    IdentityUnavailable,
    /// The token header could not be decoded.
    TokenMalformed,
    /// No RSA key of the provider has the token's key id.
    KeyNotRecognized,
    /// The provider's key components could not be used.
    KeyInvalid,
    /// The token failed signature or claim validation.
    TokenRejected,
    /// The token was issued for another directory tenant.
    ForeignTenant,
    /// The user's team could not be provisioned.
    SiteUnavailable,
    /// The user has no membership in the site's tenant.
    SiteForbidden,
    /// The site's entitlement is not active.
    SiteReadOnly,
    /// The database file is absent.
    NotReady,
    /// The profile's team could not be provisioned.
    ProvisionFailed,
    /// The purchase order listing could not be prepared.
    PurchaseOrdersUnavailable,
    /// The purchase order ID or number is blank.
    InvalidPurchaseOrder,
    /// The purchase order could not be stored.
    PurchaseOrderConflict,
    /// No such purchase order in the site.
    PurchaseOrderNotFound,
    /// A receipt names a purchase order outside the site.
    PurchaseOrderForbidden,
    /// A finalized receipt was to be overwritten.
    ReceiptFinalized,
    /// The receipt could not be stored.
    ReceiptConflict,
    /// No such receipt in the site.
    ReceiptNotFound,
    /// The backup after a repeated finalization failed.
    FinalizedBackupFailed,
    /// A finalized receipt has no finalization event.
    AuditMissing,
    /// The finalization could not be written.
    FinalizeFailed,
    /// Another request finalized the receipt first.
    ReceiptAlreadyFinalized,
    /// The finalization event could not be written.
    AuditWriteFailed,
    /// The finalization could not be committed.
    FinalizeCommitFailed,
    /// The backup after finalization failed.
    BackupFailed,
    /// The evidence media type is not accepted.
    UnsupportedEvidence,
    /// The evidence is not Base64 or is larger than 5 MiB.
    InvalidEvidence,
    /// The evidence bytes lack their media type's signature.
    EvidenceMismatch,
    /// Evidence names a receipt outside the site.
    ReceiptForbidden,
    /// The evidence file could not be written.
    EvidenceStoreFailed,
    /// The evidence record could not be stored.
    EvidenceLinkFailed,
    /// The license token is blank.
    InvalidLicense,
    /// License attachment is not offered.
    CheckoutUnavailable,
    /// The member id is blank or the role unknown.
    InvalidMember,
    /// The caller is neither owner nor manager.
    MemberForbidden,
    /// The membership could not be stored.
    MemberSaveFailed,
    /// The trimmed reason is empty or longer than 1000 bytes.
    InvalidCorrection,
    /// Corrections need a finalized receipt.
    ReceiptNotFinalized,
    /// The correction event could not be stored.
    CorrectionFailed,
    /// No such evidence record in the site.
    AttachmentNotFound,
    /// The evidence object could not be read.
    AttachmentMissing,
}

/// The answer that the service gives for each refusal.
pub open spec fn failure_of(p: Problem) -> Failure {
    match p {
        Problem::Unauthorized => Failure { status: 401, code: "unauthorized", message: "Sign in to access this site.", action: "sign_in" },
        Problem::IdentityUnavailable => Failure { status: 401, code: "identity_unavailable", message: "Identity verification is temporarily unavailable.", action: "retry" },
        Problem::TokenMalformed => Failure { status: 401, code: "invalid_token", message: "The sign-in token is malformed.", action: "sign_in" },
        Problem::KeyNotRecognized => Failure { status: 401, code: "invalid_token", message: "The sign-in key is not recognized.", action: "sign_in" },
        Problem::KeyInvalid => Failure { status: 401, code: "invalid_token", message: "The sign-in key is invalid.", action: "sign_in" },
        Problem::TokenRejected => Failure { status: 401, code: "invalid_token", message: "Your sign-in has expired. Sign in again.", action: "sign_in" },
        Problem::ForeignTenant => Failure { status: 401, code: "invalid_token", message: "This token belongs to another tenant.", action: "sign_in" },
        Problem::SiteUnavailable => Failure { status: 500, code: "storage_error", message: "Could not open the receiving site.", action: "retry" },
        Problem::SiteForbidden => Failure { status: 403, code: "site_forbidden", message: "You do not have access to this receiving site.", action: "choose_site" },
        Problem::SiteReadOnly => Failure { status: 402, code: "site_read_only", message: "This Dock site is read-only because checkout is not active.", action: "export_records" },
        Problem::NotReady => Failure { status: 503, code: "not_ready", message: "Storage is not ready.", action: "retry" },
        Problem::ProvisionFailed => Failure { status: 500, code: "storage_error", message: "Could not provision your team.", action: "retry" },
        Problem::PurchaseOrdersUnavailable => Failure { status: 500, code: "storage_error", message: "Could not list purchase orders.", action: "retry" },
        Problem::InvalidPurchaseOrder => Failure { status: 400, code: "invalid_purchase_order", message: "A purchase order ID and number are required.", action: "fix_fields" },
        Problem::PurchaseOrderConflict => Failure { status: 409, code: "purchase_order_conflict", message: "This purchase order could not be saved to this site.", action: "retry" },
        Problem::PurchaseOrderNotFound => Failure { status: 404, code: "purchase_order_not_found", message: "This purchase order is not in your site.", action: "open_inbox" },
        Problem::PurchaseOrderForbidden => Failure { status: 403, code: "purchase_order_forbidden", message: "That purchase order is not in your site.", action: "open_inbox" },
        Problem::ReceiptFinalized => Failure { status: 409, code: "receipt_finalized", message: "Finalized receipts cannot be changed. Add a correction event.", action: "create_correction" },
        Problem::ReceiptConflict => Failure { status: 409, code: "receipt_conflict", message: "This receipt could not be saved to this site.", action: "retry" },
        Problem::ReceiptNotFound => Failure { status: 404, code: "receipt_not_found", message: "This receipt is not in your site.", action: "open_inbox" },
        Problem::FinalizedBackupFailed => Failure { status: 500, code: "backup_error", message: "The finalized receipt is safe, but its backup still could not be completed.", action: "retry" },
        Problem::AuditMissing => Failure { status: 500, code: "audit_missing", message: "The receipt is finalized, but its audit event is missing.", action: "contact_support" },
        Problem::FinalizeFailed => Failure { status: 500, code: "storage_error", message: "Could not finalize the receipt.", action: "retry" },
        Problem::ReceiptAlreadyFinalized => Failure { status: 409, code: "receipt_finalized", message: "This receipt was already finalized.", action: "open_receipt" },
        Problem::AuditWriteFailed => Failure { status: 500, code: "storage_error", message: "Could not write the receipt audit event.", action: "retry" },
        Problem::FinalizeCommitFailed => Failure { status: 500, code: "storage_error", message: "Could not commit the finalized receipt.", action: "retry" },
        Problem::BackupFailed => Failure { status: 500, code: "backup_error", message: "The receipt was finalized, but its backup could not be completed.", action: "retry" },
        Problem::UnsupportedEvidence => Failure { status: 400, code: "invalid_attachment", message: "Only JPEG, PNG, WebP, and PDF evidence is accepted.", action: "choose_file" },
        Problem::InvalidEvidence => Failure { status: 400, code: "invalid_attachment", message: "The evidence file is invalid or exceeds 5 MB.", action: "choose_file" },
        Problem::EvidenceMismatch => Failure { status: 400, code: "invalid_attachment", message: "The evidence file content does not match its file type.", action: "choose_file" },
        Problem::ReceiptForbidden => Failure { status: 403, code: "receipt_forbidden", message: "That receipt is not in your site.", action: "open_inbox" },
        Problem::EvidenceStoreFailed => Failure { status: 500, code: "storage_error", message: "Could not retain the evidence file.", action: "retry" },
        Problem::EvidenceLinkFailed => Failure { status: 500, code: "storage_error", message: "The evidence file was retained, but its receipt link could not be saved.", action: "retry" },
        Problem::InvalidLicense => Failure { status: 400, code: "invalid_license", message: "Paste a license token first.", action: "paste_license" },
        Problem::CheckoutUnavailable => Failure { status: 503, code: "checkout_unavailable", message: "Dock checkout and license attachment are unavailable until the Sociobot product mapping is complete.", action: "use_local_workspace" },
        Problem::InvalidMember => Failure { status: 400, code: "invalid_member", message: "Provide a member object ID and supported role.", action: "fix_fields" },
        Problem::MemberForbidden => Failure { status: 403, code: "member_forbidden", message: "Only an owner or manager can add staff.", action: "ask_owner" },
        Problem::MemberSaveFailed => Failure { status: 500, code: "storage_error", message: "The staff member could not be saved.", action: "retry" },
        Problem::InvalidCorrection => Failure { status: 400, code: "invalid_correction", message: "Add a correction reason of 1 to 1,000 characters.", action: "fix_fields" },
        Problem::ReceiptNotFinalized => Failure { status: 409, code: "receipt_not_finalized", message: "Finalize this receipt before recording a correction.", action: "finalize_receipt" },
        Problem::CorrectionFailed => Failure { status: 500, code: "storage_error", message: "The correction could not be added.", action: "retry" },
        Problem::AttachmentNotFound => Failure { status: 404, code: "attachment_not_found", message: "This evidence file is not in your site.", action: "open_receipt" },
        Problem::AttachmentMissing => Failure { status: 404, code: "attachment_missing", message: "The retained evidence file could not be found.", action: "contact_support" },
    }
}

/// Builds an error answer from its parts.
pub fn fail(status: u16, code: &'static str, message: &'static str, action: &'static str) -> (f: Failure)
    ensures
        f == (Failure { status, code, message, action }),
{
    Failure { status, code, message, action }
}

impl Problem {
    /// The error answer for this refusal.
    pub fn failure(&self) -> (f: Failure)
        ensures
            f == failure_of(*self),
    {
        match self {
            Problem::Unauthorized => fail(401, "unauthorized", "Sign in to access this site.", "sign_in"),
            Problem::IdentityUnavailable => fail(401, "identity_unavailable", "Identity verification is temporarily unavailable.", "retry"),
            Problem::TokenMalformed => fail(401, "invalid_token", "The sign-in token is malformed.", "sign_in"),
            Problem::KeyNotRecognized => fail(401, "invalid_token", "The sign-in key is not recognized.", "sign_in"),
            Problem::KeyInvalid => fail(401, "invalid_token", "The sign-in key is invalid.", "sign_in"),
            Problem::TokenRejected => fail(401, "invalid_token", "Your sign-in has expired. Sign in again.", "sign_in"),
            Problem::ForeignTenant => fail(401, "invalid_token", "This token belongs to another tenant.", "sign_in"),
            Problem::SiteUnavailable => fail(500, "storage_error", "Could not open the receiving site.", "retry"),
            Problem::SiteForbidden => fail(403, "site_forbidden", "You do not have access to this receiving site.", "choose_site"),
            Problem::SiteReadOnly => fail(402, "site_read_only", "This Dock site is read-only because checkout is not active.", "export_records"),
            Problem::NotReady => fail(503, "not_ready", "Storage is not ready.", "retry"),
            Problem::ProvisionFailed => fail(500, "storage_error", "Could not provision your team.", "retry"),
            Problem::PurchaseOrdersUnavailable => fail(500, "storage_error", "Could not list purchase orders.", "retry"),
            Problem::InvalidPurchaseOrder => fail(400, "invalid_purchase_order", "A purchase order ID and number are required.", "fix_fields"),
            Problem::PurchaseOrderConflict => fail(409, "purchase_order_conflict", "This purchase order could not be saved to this site.", "retry"),
            Problem::PurchaseOrderNotFound => fail(404, "purchase_order_not_found", "This purchase order is not in your site.", "open_inbox"),
            Problem::PurchaseOrderForbidden => fail(403, "purchase_order_forbidden", "That purchase order is not in your site.", "open_inbox"),
            Problem::ReceiptFinalized => fail(409, "receipt_finalized", "Finalized receipts cannot be changed. Add a correction event.", "create_correction"),
            Problem::ReceiptConflict => fail(409, "receipt_conflict", "This receipt could not be saved to this site.", "retry"),
            Problem::ReceiptNotFound => fail(404, "receipt_not_found", "This receipt is not in your site.", "open_inbox"),
            Problem::FinalizedBackupFailed => fail(500, "backup_error", "The finalized receipt is safe, but its backup still could not be completed.", "retry"),
            Problem::AuditMissing => fail(500, "audit_missing", "The receipt is finalized, but its audit event is missing.", "contact_support"),
            Problem::FinalizeFailed => fail(500, "storage_error", "Could not finalize the receipt.", "retry"),
            Problem::ReceiptAlreadyFinalized => fail(409, "receipt_finalized", "This receipt was already finalized.", "open_receipt"),
            Problem::AuditWriteFailed => fail(500, "storage_error", "Could not write the receipt audit event.", "retry"),
            Problem::FinalizeCommitFailed => fail(500, "storage_error", "Could not commit the finalized receipt.", "retry"),
            Problem::BackupFailed => fail(500, "backup_error", "The receipt was finalized, but its backup could not be completed.", "retry"),
            Problem::UnsupportedEvidence => fail(400, "invalid_attachment", "Only JPEG, PNG, WebP, and PDF evidence is accepted.", "choose_file"),
            Problem::InvalidEvidence => fail(400, "invalid_attachment", "The evidence file is invalid or exceeds 5 MB.", "choose_file"),
            Problem::EvidenceMismatch => fail(400, "invalid_attachment", "The evidence file content does not match its file type.", "choose_file"),
            Problem::ReceiptForbidden => fail(403, "receipt_forbidden", "That receipt is not in your site.", "open_inbox"),
            Problem::EvidenceStoreFailed => fail(500, "storage_error", "Could not retain the evidence file.", "retry"),
            Problem::EvidenceLinkFailed => fail(500, "storage_error", "The evidence file was retained, but its receipt link could not be saved.", "retry"),
            Problem::InvalidLicense => fail(400, "invalid_license", "Paste a license token first.", "paste_license"),
            Problem::CheckoutUnavailable => fail(503, "checkout_unavailable", "Dock checkout and license attachment are unavailable until the Sociobot product mapping is complete.", "use_local_workspace"),
            Problem::InvalidMember => fail(400, "invalid_member", "Provide a member object ID and supported role.", "fix_fields"),
            Problem::MemberForbidden => fail(403, "member_forbidden", "Only an owner or manager can add staff.", "ask_owner"),
            Problem::MemberSaveFailed => fail(500, "storage_error", "The staff member could not be saved.", "retry"),
            Problem::InvalidCorrection => fail(400, "invalid_correction", "Add a correction reason of 1 to 1,000 characters.", "fix_fields"),
            Problem::ReceiptNotFinalized => fail(409, "receipt_not_finalized", "Finalize this receipt before recording a correction.", "finalize_receipt"),
            Problem::CorrectionFailed => fail(500, "storage_error", "The correction could not be added.", "retry"),
            Problem::AttachmentNotFound => fail(404, "attachment_not_found", "This evidence file is not in your site.", "open_receipt"),
            Problem::AttachmentMissing => fail(404, "attachment_missing", "The retained evidence file could not be found.", "contact_support"),
        }
    }
}

/// The `WWW-Authenticate` challenge that goes with an answer of the given status:
/// a bearer challenge for 401, none otherwise.
pub fn challenge_for(status: u16) -> (c: Option<&'static str>)
    ensures
        c is Some <==> status == 401,
        c matches Some(v) ==> v@ == "Bearer realm=\"Intake Desk\""@,
{
    if status == 401 {
        Some("Bearer realm=\"Intake Desk\"")
    } else {
        None
    }
}

/// A whole error answer: the failure and the `WWW-Authenticate` challenge sent with it.
#[derive(Clone, Copy, Debug, PartialEq, Eq)]
pub struct Refusal {
    pub failure: Failure,
    pub challenge: Option<&'static str>,
}

/// Whether `c` is the challenge an answer of `status` carries: the bearer challenge of the
/// service for 401, none otherwise.
pub open spec fn is_challenge_for(status: u16, c: Option<&'static str>) -> bool {
    &&& (c is Some <==> status == 401)
    &&& (c matches Some(v) ==> v@ == "Bearer realm=\"Intake Desk\""@)
}

/// Builds a whole error answer from its parts, with the bearer challenge on a 401.
pub fn fail_answer(status: u16, code: &'static str, message: &'static str, action: &'static str) -> (r: Refusal)
    ensures
        r.failure == (Failure { status, code, message, action }),
        is_challenge_for(status, r.challenge),
{
    Refusal { failure: fail(status, code, message, action), challenge: challenge_for(status) }
}

impl Problem {
    /// The whole error answer for this refusal.
    pub fn refusal(&self) -> (r: Refusal)
        ensures
            r.failure == failure_of(*self),
            is_challenge_for(failure_of(*self).status, r.challenge),
    {
        let f = self.failure();
        Refusal { failure: f, challenge: challenge_for(f.status) }
    }
}

/// Every refusal is answered with a client or server error status, never with a success.
pub proof fn lemma_refusals_are_errors(p: Problem)
    ensures
        400 <= failure_of(p).status <= 599,
{
}

} // verus!
