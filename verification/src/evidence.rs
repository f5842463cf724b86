//! Evidence files attached to receipts: which are accepted, and how they are named and served.
use base64::Engine;
use vstd::prelude::*;
use vstd::string::StringExecFns;
use crate::clock::moment;
use crate::clock::Instant;
use crate::clock::Moment;
use crate::clock::moment_consistent;
use crate::system_clock::is_clock_reading;
use crate::clock::retention_secs;
use crate::clock::retention_until;
use crate::clock::rfc3339_seconds_text;
use crate::digest::digest_bytes;
use crate::digest::sha256;
use crate::problem::Problem;
use crate::text::lower_hex;
use crate::text::blank;
use crate::text::chars_of;
use crate::text::is_blank;
use crate::text::string_from_chars;
use crate::text::text_equals;

verus! {

/// The media types accepted as evidence.
pub open spec fn is_accepted_media_type(m: Seq<char>) -> bool {
    m == "image/jpeg"@ || m == "image/png"@ || m == "image/webp"@ || m == "application/pdf"@
}

/// The largest evidence file accepted, in bytes (5 MiB).
pub open spec fn max_evidence_bytes() -> nat {
    5242880
}

/// Whether `bytes` holds `pattern` from index `start` on.
pub open spec fn bytes_at(bytes: Seq<u8>, start: int, pattern: Seq<u8>) -> bool {
    start + pattern.len() <= bytes.len() && bytes.subrange(start, start + pattern.len()) == pattern
}

/// Whether the file content starts with the signature of its media type.
pub open spec fn signature_matches(media: Seq<char>, bytes: Seq<u8>) -> bool {
    if media == "image/png"@ {
        bytes_at(bytes, 0, seq![0x89u8, 0x50u8, 0x4eu8, 0x47u8, 0x0du8, 0x0au8, 0x1au8, 0x0au8])
    } else if media == "image/jpeg"@ {
        bytes_at(bytes, 0, seq![0xffu8, 0xd8u8, 0xffu8])
    } else if media == "image/webp"@ {
        bytes_at(bytes, 0, seq![0x52u8, 0x49u8, 0x46u8, 0x46u8]) && bytes_at(
            bytes,
            8,
            seq![0x57u8, 0x45u8, 0x42u8, 0x50u8],
        )
    } else if media == "application/pdf"@ {
        bytes_at(bytes, 0, seq![0x25u8, 0x50u8, 0x44u8, 0x46u8, 0x2du8])
    } else {
        false
    }
}

/// The bytes that standard Base64 (with padding) decodes `text` into, as the `base64`
/// crate's `STANDARD` engine decodes it; none where the text is not valid Base64.
pub uninterp spec fn base64_standard_decode(text: Seq<char>) -> Option<Seq<u8>>;

/// `base64::engine::general_purpose::STANDARD.decode`.
#[verifier::external_body]
fn decode_base64(text: &str) -> (r: Option<Vec<u8>>)
    ensures
        r is Some <==> base64_standard_decode(text@) is Some,
        r matches Some(v) ==> base64_standard_decode(text@) == Some(v@),
{
    base64::engine::general_purpose::STANDARD.decode(text).ok()
}

/// Whether `media_type` is accepted as evidence.
pub fn accepted_media_type(media_type: &str) -> (r: bool)
    ensures
        r == is_accepted_media_type(media_type@),
{
    text_equals(media_type, "image/jpeg") || text_equals(media_type, "image/png") || text_equals(
        media_type,
        "image/webp",
    ) || text_equals(media_type, "application/pdf")
}

fn png_signature(b: &[u8]) -> (r: bool)
    ensures
        r == bytes_at(b@, 0, seq![0x89u8, 0x50u8, 0x4eu8, 0x47u8, 0x0du8, 0x0au8, 0x1au8, 0x0au8]),
{
    let r = b.len() >= 8 && b[0] == 0x89 && b[1] == 0x50 && b[2] == 0x4e && b[3] == 0x47 && b[4]
        == 0x0d && b[5] == 0x0a && b[6] == 0x1a && b[7] == 0x0a;
    proof {
        if b@.len() >= 8 {
            let p = seq![0x89u8, 0x50u8, 0x4eu8, 0x47u8, 0x0du8, 0x0au8, 0x1au8, 0x0au8];
            if r {
                assert(b@.subrange(0, 8) =~= p);
            } else {
                assert(exists|k: int| 0 <= k < 8 && b@.subrange(0, 8)[k] != p[k]);
            }
        }
    }
    r
}

fn jpeg_signature(b: &[u8]) -> (r: bool)
    ensures
        r == bytes_at(b@, 0, seq![0xffu8, 0xd8u8, 0xffu8]),
{
    let r = b.len() >= 3 && b[0] == 0xff && b[1] == 0xd8 && b[2] == 0xff;
    proof {
        if b@.len() >= 3 {
            let p = seq![0xffu8, 0xd8u8, 0xffu8];
            if r {
                assert(b@.subrange(0, 3) =~= p);
            } else {
                assert(exists|k: int| 0 <= k < 3 && b@.subrange(0, 3)[k] != p[k]);
            }
        }
    }
    r
}

fn webp_signature(b: &[u8]) -> (r: bool)
    ensures
        r == (bytes_at(b@, 0, seq![0x52u8, 0x49u8, 0x46u8, 0x46u8]) && bytes_at(
            b@,
            8,
            seq![0x57u8, 0x45u8, 0x42u8, 0x50u8],
        )),
{
    let riff = b.len() >= 4 && b[0] == 0x52 && b[1] == 0x49 && b[2] == 0x46 && b[3] == 0x46;
    let webp = b.len() >= 12 && b[8] == 0x57 && b[9] == 0x45 && b[10] == 0x42 && b[11] == 0x50;
    proof {
        let p = seq![0x52u8, 0x49u8, 0x46u8, 0x46u8];
        let q = seq![0x57u8, 0x45u8, 0x42u8, 0x50u8];
        if b@.len() >= 4 {
            if riff {
                assert(b@.subrange(0, 4) =~= p);
            } else {
                assert(exists|k: int| 0 <= k < 4 && b@.subrange(0, 4)[k] != p[k]);
            }
        }
        if b@.len() >= 12 {
            if webp {
                assert(b@.subrange(8, 12) =~= q);
            } else {
                assert(exists|k: int| 0 <= k < 4 && b@.subrange(8, 12)[k] != q[k]);
            }
        }
    }
    riff && webp
}

fn pdf_signature(b: &[u8]) -> (r: bool)
    ensures
        r == bytes_at(b@, 0, seq![0x25u8, 0x50u8, 0x44u8, 0x46u8, 0x2du8]),
{
    let r = b.len() >= 5 && b[0] == 0x25 && b[1] == 0x50 && b[2] == 0x44 && b[3] == 0x46 && b[4]
        == 0x2d;
    proof {
        if b@.len() >= 5 {
            let p = seq![0x25u8, 0x50u8, 0x44u8, 0x46u8, 0x2du8];
            if r {
                assert(b@.subrange(0, 5) =~= p);
            } else {
                assert(exists|k: int| 0 <= k < 5 && b@.subrange(0, 5)[k] != p[k]);
            }
        }
    }
    r
}

/// Whether `bytes` starts with the signature of `media_type`.
pub fn content_matches_type(media_type: &str, bytes: &[u8]) -> (r: bool)
    ensures
        r == signature_matches(media_type@, bytes@),
{
    if text_equals(media_type, "image/png") {
        png_signature(bytes)
    } else if text_equals(media_type, "image/jpeg") {
        jpeg_signature(bytes)
    } else if text_equals(media_type, "image/webp") {
        webp_signature(bytes)
    } else if text_equals(media_type, "application/pdf") {
        pdf_signature(bytes)
    } else {
        false
    }
}

/// Judges evidence of type `media_type` whose Base64 text decoded to `decoded`: the type must
/// be accepted, the text valid and at most 5 MiB once decoded, and the content must carry
/// its type's signature.
pub fn accept_evidence(media_type: &str, decoded: Option<Vec<u8>>) -> (r: Result<Vec<u8>, Problem>)
    ensures
        !is_accepted_media_type(media_type@) ==> r == Err::<Vec<u8>, Problem>(
            Problem::UnsupportedEvidence,
        ),
        is_accepted_media_type(media_type@) ==> match decoded {
            None => r == Err::<Vec<u8>, Problem>(Problem::InvalidEvidence),
            Some(b) => if b@.len() > max_evidence_bytes() {
                r == Err::<Vec<u8>, Problem>(Problem::InvalidEvidence)
            } else if !signature_matches(media_type@, b@) {
                r == Err::<Vec<u8>, Problem>(Problem::EvidenceMismatch)
            } else {
                r == Ok::<Vec<u8>, Problem>(b)
            },
        },
{
    if !accepted_media_type(media_type) {
        return Err(Problem::UnsupportedEvidence);
    }
    match decoded {
        None => Err(Problem::InvalidEvidence),
        Some(b) => {
            if b.len() > 5242880 {
                Err(Problem::InvalidEvidence)
            } else if !content_matches_type(media_type, b.as_slice()) {
                Err(Problem::EvidenceMismatch)
            } else {
                Ok(b)
            }
        },
    }
}

/// Checks submitted evidence: its type first, then its Base64 text, size and signature.
pub fn check_evidence(media_type: &str, data_base64: &str) -> (r: Result<Vec<u8>, Problem>)
    ensures
        !is_accepted_media_type(media_type@) ==> r == Err::<Vec<u8>, Problem>(
            Problem::UnsupportedEvidence,
        ),
        is_accepted_media_type(media_type@) ==> match base64_standard_decode(data_base64@) {
            None => r == Err::<Vec<u8>, Problem>(Problem::InvalidEvidence),
            Some(b) => if b.len() > max_evidence_bytes() {
                r == Err::<Vec<u8>, Problem>(Problem::InvalidEvidence)
            } else if !signature_matches(media_type@, b) {
                r == Err::<Vec<u8>, Problem>(Problem::EvidenceMismatch)
            } else {
                r matches Ok(v) && v@ == b
            },
        },
{
    if !accepted_media_type(media_type) {
        return Err(Problem::UnsupportedEvidence);
    }
    let decoded = decode_base64(data_base64);
    accept_evidence(media_type, decoded)
}

/// Accepted evidence always carries the signature of its type, fits in 5 MiB, and has an
/// accepted type.
pub proof fn lemma_accepted_evidence_is_well_typed(
    media_type: &str,
    decoded: Option<Vec<u8>>,
    r: Result<Vec<u8>, Problem>,
)
    requires
        !is_accepted_media_type(media_type@) ==> r == Err::<Vec<u8>, Problem>(
            Problem::UnsupportedEvidence,
        ),
        is_accepted_media_type(media_type@) ==> match decoded {
            None => r == Err::<Vec<u8>, Problem>(Problem::InvalidEvidence),
            Some(b) => if b@.len() > max_evidence_bytes() {
                r == Err::<Vec<u8>, Problem>(Problem::InvalidEvidence)
            } else if !signature_matches(media_type@, b@) {
                r == Err::<Vec<u8>, Problem>(Problem::EvidenceMismatch)
            } else {
                r == Ok::<Vec<u8>, Problem>(b)
            },
        },
    ensures
        r matches Ok(v) ==> is_accepted_media_type(media_type@) && signature_matches(
            media_type@,
            v@,
        ) && v@.len() <= max_evidence_bytes(),
{
}

/// The attachment id the client asked for, kept when it is not blank and at most
/// 128 bytes long.
pub open spec fn kept_attachment_id(requested: Option<Seq<char>>) -> Option<Seq<char>> {
    match requested {
        Some(id) => if !is_blank(id) && vstd::utf8::encode_utf8(id).len() <= 128 {
            Some(id)
        } else {
            None
        },
        None => None,
    }
}

/// The client's attachment id where it is usable.
pub fn requested_attachment_id(requested: Option<&str>) -> (r: Option<String>)
    ensures
        match kept_attachment_id(crate::audit::opt_view(requested)) {
            Some(id) => r matches Some(s) && s@ == id,
            None => r is None,
        },
{
    match requested {
        Some(id) => {
            let chars = chars_of(id);
            if !blank(id) && crate::text::utf8_len_within(chars.as_slice(), 128) {
                Some(String::from_str(id))
            } else {
                None
            }
        },
        None => None,
    }
}

/// Whether `t` is the hyphenated lower-case text of a random (version 4, RFC 4122 variant)
/// UUID: 36 characters, hyphens at 8, 13, 18 and 23, lower-case hexadecimal digits
/// elsewhere, the version digit `4` at 14 and a variant digit `8`, `9`, `a` or `b` at 19.
pub open spec fn is_uuid_v4_text(t: Seq<char>) -> bool {
    &&& t.len() == 36
    &&& forall|i: int|
        0 <= i < 36 ==> if i == 8 || i == 13 || i == 18 || i == 23 {
            #[trigger] t[i] == '-'
        } else {
            ('0' <= t[i] <= '9') || ('a' <= t[i] <= 'f')
        }
    &&& t[14] == '4'
    &&& (t[19] == '8' || t[19] == '9' || t[19] == 'a' || t[19] == 'b')
}

/// `uuid::Uuid::new_v4` written with `to_string`: the hyphenated lower-case text of a
/// random version 4 UUID. Which random value it holds is left open.
#[verifier::external_body]
fn new_uuid_text() -> (s: String)
    ensures
        is_uuid_v4_text(s@),
{
    uuid::Uuid::new_v4().to_string()
}

/// The id of a new attachment: the client's id where usable, else a fresh random UUID.
pub fn attachment_id(requested: Option<&str>) -> (r: String)
    ensures
        match kept_attachment_id(crate::audit::opt_view(requested)) {
            Some(id) => r@ == id,
            None => is_uuid_v4_text(r@),
        },
{
    match requested_attachment_id(requested) {
        Some(id) => id,
        None => new_uuid_text(),
    }
}

/// The object key under which evidence with this checksum is stored.
pub fn object_key(checksum: &str) -> (k: String)
    ensures
        k@ == "objects/"@ + checksum@,
{
    let mut k = String::from_str("objects/");
    k.append(checksum);
    k
}

/// A file name with carriage returns, line feeds and double quotes replaced by `_`.
pub open spec fn safe_file_name(name: Seq<char>) -> Seq<char> {
    Seq::new(
        name.len(),
        |i: int|
            if name[i] == '\r' || name[i] == '\n' || name[i] == '"' {
                '_'
            } else {
                name[i]
            },
    )
}

/// The `Content-Disposition` value that downloads evidence under its (made safe) name.
pub fn content_disposition(name: &str) -> (d: String)
    ensures
        d@ == "attachment; filename=\""@ + safe_file_name(name@) + "\""@,
{
    let chars = chars_of(name);
    let mut safe: Vec<char> = Vec::new();
    let mut i: usize = 0;
    while i < chars.len()
        invariant
            i <= chars@.len(),
            chars@ == name@,
            safe@ == safe_file_name(chars@).take(i as int),
        decreases chars@.len() - i,
    {
        let c = chars[i];
        if c == '\r' || c == '\n' || c == '"' {
            safe.push('_');
        } else {
            safe.push(c);
        }
        assert(safe@ =~= safe_file_name(chars@).take(i + 1));
        i = i + 1;
    }
    assert(safe@ =~= safe_file_name(name@));
    let s = string_from_chars(safe.as_slice());
    let mut d = String::from_str("attachment; filename=\"");
    d.append(s.as_str());
    d.append("\"");
    d
}

/// The address from which an attachment of a receipt is downloaded.
pub fn download_url(site: &str, receipt_id: &str, attachment_id: &str) -> (u: String)
    ensures
        u@ == "/api/v1/sites/"@ + site@ + "/receipts/"@ + receipt_id@ + "/attachments/"@
            + attachment_id@,
{
    let mut u = String::from_str("/api/v1/sites/");
    u.append(site);
    u.append("/receipts/");
    u.append(receipt_id);
    u.append("/attachments/");
    u.append(attachment_id);
    u
}

/// The stored record of an evidence file.
#[derive(Clone, Debug, PartialEq, Eq)]
pub struct EvidenceRecord {
    pub id: String,
    pub object_key: String,
    pub checksum: String,
    pub size: usize,
    pub retention_until: String,
    pub created_at: String,
}

impl EvidenceRecord {
    /// A copy of the record.
    pub fn duplicate(&self) -> (c: EvidenceRecord)
        ensures
            c == *self,
    {
        EvidenceRecord {
            id: self.id.clone(),
            object_key: self.object_key.clone(),
            checksum: self.checksum.clone(),
            size: self.size,
            retention_until: self.retention_until.clone(),
            created_at: self.created_at.clone(),
        }
    }
}

/// Where the retention of accepted evidence stands.
#[derive(Clone, Debug, PartialEq, Eq)]
pub enum EvidenceState {
    Start { content: Vec<u8>, requested_id: Option<String> },
    AwaitReceipt { content: Vec<u8>, requested_id: Option<String> },
    AwaitStored { checksum: String, key: String, size: usize, requested_id: Option<String> },
    AwaitLinked { record: EvidenceRecord },
    Finished,
}

/// What the caller reports back after performing an action.
#[derive(Clone, Debug, PartialEq, Eq)]
pub enum EvidenceInput {
    Begin,
    /// Whether the receipt is in the site.
    Receipt(bool),
    /// Whether the evidence object was written.
    Stored(bool),
    /// Whether the evidence record was stored.
    Linked(bool),
}

/// What the caller is to do next.
#[derive(Debug, PartialEq, Eq)]
pub enum EvidenceAction {
    CheckReceipt,
    /// Write `content` as the object `key` of the evidence directory.
    StoreObject { key: String, content: Vec<u8> },
    /// Store the record (unless one with its id exists) for the receipt.
    LinkRecord { record: EvidenceRecord },
    /// Stop with the stored record, or a refusal.
    Answer(Result<EvidenceRecord, Problem>),
}

/// Whether the machine has finished with the refusal `p`.
pub open spec fn evidence_refuses(next: EvidenceState, a: EvidenceAction, p: Problem) -> bool {
    next == EvidenceState::Finished && a == EvidenceAction::Answer(Err(p))
}

/// Whether `id` is the id a new attachment gets: the requested id where usable, else a
/// fresh random UUID.
pub open spec fn is_attachment_id(id: Seq<char>, requested_id: Option<String>) -> bool {
    match kept_attachment_id(crate::finalize::opt_string_view(requested_id)) {
        Some(k) => id == k,
        None => is_uuid_v4_text(id),
    }
}

/// Whether `record` is the record of evidence with this id, checksum, key and size
/// created at the clock reading `created`: its creation time is the reading's text and
/// it is retained until seven 365-day years later.
pub open spec fn is_evidence_record(
    record: EvidenceRecord,
    id: Seq<char>,
    checksum: Seq<char>,
    key: Seq<char>,
    size: usize,
    created: Moment,
) -> bool {
    &&& record.id@ == id
    &&& record.checksum@ == checksum
    &&& record.object_key@ == key
    &&& record.size == size
    &&& record.created_at@ == created.text@
    &&& rfc3339_seconds_text(created.instant.secs + retention_secs()) == Some(
        record.retention_until@,
    )
}

/// Whether the end of the retention period of evidence created at `i` cannot be written
/// as a date.
pub open spec fn retention_unwritable(i: Instant) -> bool {
    !(i.secs + retention_secs() <= i64::MAX && rfc3339_seconds_text(i.secs + retention_secs()) is Some)
}

/// What follows a stored evidence object whose record gets `id` and is created at the
/// clock reading `created`: the record is linked, unless its retention date cannot be
/// written, which is refused.
pub open spec fn after_store(
    checksum: Seq<char>,
    key: Seq<char>,
    size: usize,
    id: Seq<char>,
    created: Moment,
    next: EvidenceState,
    a: EvidenceAction,
) -> bool {
    if retention_unwritable(created.instant) {
        evidence_refuses(next, a, Problem::EvidenceLinkFailed)
    } else {
        next matches EvidenceState::AwaitLinked { record } && a == (EvidenceAction::LinkRecord {
            record,
        }) && is_evidence_record(record, id, checksum, key, size, created)
    }
}

/// The record of stored evidence created at the clock reading `created`, or the refusal
/// where its retention date cannot be written.
pub fn evidence_after_store(
    checksum: String,
    key: String,
    size: usize,
    id: String,
    created: Moment,
) -> (r: Result<EvidenceRecord, Problem>)
    requires
        moment_consistent(created),
    ensures
        r is Err <==> retention_unwritable(created.instant),
        r matches Err(p) ==> p == Problem::EvidenceLinkFailed,
        r matches Ok(record) ==> is_evidence_record(
            record,
            id@,
            checksum@,
            key@,
            size,
            created,
        ),
{
    match retention_until(created.instant) {
        None => Err(Problem::EvidenceLinkFailed),
        Some(retention) => Ok(
            EvidenceRecord {
                id,
                object_key: key,
                checksum,
                size,
                retention_until: retention,
                created_at: created.text,
            },
        ),
    }
}

/// One step of retaining accepted evidence.
pub open spec fn evidence_transition(
    s: EvidenceState,
    i: EvidenceInput,
    next: EvidenceState,
    a: EvidenceAction,
) -> bool {
    match (s, i) {
        (EvidenceState::Start { content, requested_id }, EvidenceInput::Begin) => next == (
        EvidenceState::AwaitReceipt { content, requested_id }) && a
            == EvidenceAction::CheckReceipt,
        (EvidenceState::AwaitReceipt { content, requested_id }, EvidenceInput::Receipt(found)) => if !found {
            evidence_refuses(next, a, Problem::ReceiptForbidden)
        } else {
            next matches EvidenceState::AwaitStored { checksum, key, size, requested_id: r } && a
                == (EvidenceAction::StoreObject { key, content }) && checksum@ == lower_hex(
                sha256(content@),
            ) && key@ == "objects/"@ + checksum@ && size == content@.len() && r == requested_id
        },
        (
            EvidenceState::AwaitStored { checksum, key, size, requested_id },
            EvidenceInput::Stored(ok),
        ) => if !ok {
            evidence_refuses(next, a, Problem::EvidenceStoreFailed)
        } else {
            exists|id: Seq<char>, created: Moment|
                #![trigger after_store(checksum@, key@, size, id, created, next, a)]
                moment_consistent(created) && is_clock_reading(created.instant) && is_attachment_id(
                    id,
                    requested_id,
                ) && after_store(
                    checksum@,
                    key@,
                    size,
                    id,
                    created,
                    next,
                    a,
                )
        },
        (EvidenceState::AwaitLinked { record }, EvidenceInput::Linked(ok)) => if ok {
            next == EvidenceState::Finished && a == EvidenceAction::Answer(Ok(record))
        } else {
            evidence_refuses(next, a, Problem::EvidenceLinkFailed)
        },
        _ => evidence_refuses(next, a, Problem::EvidenceLinkFailed),
    }
}

/// Takes one step of retaining accepted evidence.
pub fn evidence_step(state: EvidenceState, input: EvidenceInput) -> (r: (EvidenceState, EvidenceAction))
    ensures
        evidence_transition(state, input, r.0, r.1),
{
    match (state, input) {
        (EvidenceState::Start { content, requested_id }, EvidenceInput::Begin) => (
            EvidenceState::AwaitReceipt { content, requested_id },
            EvidenceAction::CheckReceipt,
        ),
        (EvidenceState::AwaitReceipt { content, requested_id }, EvidenceInput::Receipt(found)) => {
            if !found {
                return (
                    EvidenceState::Finished,
                    EvidenceAction::Answer(Err(Problem::ReceiptForbidden)),
                );
            }
            let checksum = digest_bytes(content.as_slice());
            let key = object_key(checksum.as_str());
            let size = content.len();
            let stored_key = key.clone();
            (
                EvidenceState::AwaitStored { checksum, key: stored_key, size, requested_id },
                EvidenceAction::StoreObject { key, content },
            )
        },
        (
            EvidenceState::AwaitStored { checksum, key, size, requested_id },
            EvidenceInput::Stored(ok),
        ) => {
            if !ok {
                return (
                    EvidenceState::Finished,
                    EvidenceAction::Answer(Err(Problem::EvidenceStoreFailed)),
                );
            }
            let id = match &requested_id {
                Some(r) => attachment_id(Some(r.as_str())),
                None => attachment_id(None),
            };
            let created = moment();
            let ghost reading = created;
            let ghost id_text = id@;
            let ghost sum = checksum@;
            let ghost stored_key = key@;
            let r = match evidence_after_store(checksum, key, size, id, created) {
                Err(p) => (EvidenceState::Finished, EvidenceAction::Answer(Err(p))),
                Ok(record) => {
                    let stored = record.duplicate();
                    (EvidenceState::AwaitLinked { record: stored }, EvidenceAction::LinkRecord { record })
                },
            };
            assert(after_store(sum, stored_key, size, id_text, reading, r.0, r.1));
            r
        },
        (EvidenceState::AwaitLinked { record }, EvidenceInput::Linked(ok)) => {
            if ok {
                (EvidenceState::Finished, EvidenceAction::Answer(Ok(record)))
            } else {
                (EvidenceState::Finished, EvidenceAction::Answer(Err(Problem::EvidenceLinkFailed)))
            }
        },
        _ => (EvidenceState::Finished, EvidenceAction::Answer(Err(Problem::EvidenceLinkFailed))),
    }
}

/// Evidence is stored under the hexadecimal SHA-256 of its own content, so identical
/// files share one object and different objects hold different files.
pub proof fn lemma_object_key_names_content(a: Seq<u8>, b: Seq<u8>)
    requires
        "objects/"@ + lower_hex(sha256(a)) == "objects/"@ + lower_hex(sha256(b)),
    ensures
        sha256(a) == sha256(b),
{
    reveal_strlit("objects/");
    assert(lower_hex(sha256(a)) =~= ("objects/"@ + lower_hex(sha256(a))).skip(8));
    assert(lower_hex(sha256(b)) =~= ("objects/"@ + lower_hex(sha256(b))).skip(8));
    crate::text::lemma_lower_hex_injective(sha256(a), sha256(b));
}

/// Whether `record` is dated by the clock: created at the RFC 3339 text of an instant the
/// clock gave and retained until the text of seven 365-day years later.
pub open spec fn dated_by_clock(record: EvidenceRecord) -> bool {
    exists|t: Instant|
        #![trigger is_clock_reading(t)]
        is_clock_reading(t) && rfc3339_seconds_text(t.secs as int) == Some(record.created_at@)
            && rfc3339_seconds_text(t.secs + retention_secs()) == Some(record.retention_until@)
}

/// Evidence is dated by the clock: a record a step asks to link is created at a clock
/// reading and retained seven years from it, a waiting record stays so dated, the record
/// answered is so dated, and after the file is stored the link is refused only where the
/// retention date of the clock reading cannot be written.
pub proof fn law_evidence_is_dated_by_the_clock(
    s: EvidenceState,
    i: EvidenceInput,
    next: EvidenceState,
    a: EvidenceAction,
)
    requires
        evidence_transition(s, i, next, a),
        s matches EvidenceState::AwaitLinked { record } ==> dated_by_clock(record),
    ensures
        a matches EvidenceAction::LinkRecord { record } ==> dated_by_clock(record) && next == (
        EvidenceState::AwaitLinked { record }),
        next matches EvidenceState::AwaitLinked { record } ==> dated_by_clock(record),
        a matches EvidenceAction::Answer(Ok(record)) ==> dated_by_clock(record),
        (s is AwaitStored && i == EvidenceInput::Stored(true) && a is Answer) ==> exists|t: Instant|
            #![trigger is_clock_reading(t)]
            is_clock_reading(t) && retention_unwritable(t) && a == EvidenceAction::Answer(
                Err(Problem::EvidenceLinkFailed),
            ),
{
    if let EvidenceState::AwaitStored { checksum, key, size, requested_id } = s {
        if i == EvidenceInput::Stored(true) {
            let (id, created) = choose|id: Seq<char>, created: Moment|
                #![trigger after_store(checksum@, key@, size, id, created, next, a)]
                moment_consistent(created) && is_clock_reading(created.instant) && is_attachment_id(
                    id,
                    requested_id,
                ) && after_store(checksum@, key@, size, id, created, next, a);
            assert(is_clock_reading(created.instant));
        }
    }
}

} // verus!
