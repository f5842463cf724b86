//! The hash-linked audit trail of a receipt: finalization and correction events.
use vstd::prelude::*;
use vstd::string::StringExecFns;
use crate::digest::digest;
use crate::digest::joined;
use crate::digest::text_digest;
use crate::problem::Problem;
use crate::text::integer_string;
use crate::text::hex_digit;
use crate::text::integer_text;

verus! {

/// How `serde_json` writes one character inside a JSON string: a quote, a backslash and
/// the control characters with a short escape are escaped by a backslash, the other
/// control characters as `\u00` and two lower-case hexadecimal digits, and every other
/// character as itself.
pub open spec fn json_char_escape(c: char) -> Seq<char> {
    if c == '"' {
        seq!['\\', '"']
    } else if c == '\\' {
        seq!['\\', '\\']
    } else if c == '\x08' {
        seq!['\\', 'b']
    } else if c == '\t' {
        seq!['\\', 't']
    } else if c == '\n' {
        seq!['\\', 'n']
    } else if c == '\x0c' {
        seq!['\\', 'f']
    } else if c == '\r' {
        seq!['\\', 'r']
    } else if (c as int) < 0x20 {
        seq!['\\', 'u', '0', '0', hex_digit(c as int / 16), hex_digit(c as int % 16)]
    } else {
        seq![c]
    }
}

/// The characters of `s`, each escaped as inside a JSON string.
pub open spec fn json_escaped(s: Seq<char>) -> Seq<char>
    decreases s.len(),
{
    if s.len() == 0 {
        Seq::empty()
    } else {
        json_char_escape(s[0]) + json_escaped(s.skip(1))
    }
}

/// The JSON string literal that `serde_json::to_string` writes for the text `s`: its
/// escaped characters between double quotes.
pub open spec fn json_string_literal(s: Seq<char>) -> Seq<char> {
    seq!['"'] + json_escaped(s) + seq!['"']
}

/// `serde_json::to_string` on a string slice: its quoted and escaped JSON form.
/// Serializing a `str` into memory cannot fail, so the error arm is never taken.
#[verifier::external_body]
fn json_quote(s: &str) -> (q: String)
    ensures
        q@ == json_string_literal(s@),
{
    serde_json::to_string(s).unwrap_or_default()
}

/// The canonical JSON text of an audit event that its hash covers.
pub open spec fn audit_record_text(
    id: Seq<char>,
    sequence: int,
    event_type: Seq<char>,
    at: Seq<char>,
    actor: Seq<char>,
    summary: Seq<char>,
    previous_hash: Seq<char>,
) -> Seq<char> {
    "{\"id\":"@ + json_string_literal(id) + ",\"sequence\":"@ + integer_text(sequence)
        + ",\"type\":"@ + json_string_literal(event_type) + ",\"at\":"@ + json_string_literal(at)
        + ",\"actor\":"@ + json_string_literal(actor) + ",\"summary\":"@ + json_string_literal(
        summary,
    ) + ",\"previousHash\":"@ + json_string_literal(previous_hash) + "}"@
}

/// The hash of an audit event: the hexadecimal SHA-256 of its canonical JSON text.
pub open spec fn audit_digest(
    id: Seq<char>,
    sequence: int,
    event_type: Seq<char>,
    at: Seq<char>,
    actor: Seq<char>,
    summary: Seq<char>,
    previous_hash: Seq<char>,
) -> Seq<char> {
    text_digest(audit_record_text(id, sequence, event_type, at, actor, summary, previous_hash))
}

/// The canonical JSON text of an audit event from its fields, the texts given already
/// written as JSON string literals.
pub fn canonical_record(
    id: &str,
    sequence: i64,
    event_type: &str,
    at: &str,
    actor: &str,
    summary: &str,
    previous_hash: &str,
) -> (t: String)
    ensures
        t@ == "{\"id\":"@ + id@ + ",\"sequence\":"@ + integer_text(sequence as int) + ",\"type\":"@
            + event_type@ + ",\"at\":"@ + at@ + ",\"actor\":"@ + actor@ + ",\"summary\":"@
            + summary@ + ",\"previousHash\":"@ + previous_hash@ + "}"@,
{
    let mut text = String::from_str("{\"id\":");
    text.append(id);
    text.append(",\"sequence\":");
    let n = integer_string(sequence);
    text.append(n.as_str());
    text.append(",\"type\":");
    text.append(event_type);
    text.append(",\"at\":");
    text.append(at);
    text.append(",\"actor\":");
    text.append(actor);
    text.append(",\"summary\":");
    text.append(summary);
    text.append(",\"previousHash\":");
    text.append(previous_hash);
    text.append("}");
    text
}

/// Hashes an audit event over all of its fields and the hash of the event before it.
pub fn audit_hash(
    id: &str,
    sequence: i64,
    event_type: &str,
    at: &str,
    actor: &str,
    summary: &str,
    previous_hash: &str,
) -> (h: String)
    ensures
        h@ == audit_digest(id@, sequence as int, event_type@, at@, actor@, summary@, previous_hash@),
        h@.len() == 64,
{
    let q_id = json_quote(id);
    let q_type = json_quote(event_type);
    let q_at = json_quote(at);
    let q_actor = json_quote(actor);
    let q_summary = json_quote(summary);
    let q_previous = json_quote(previous_hash);
    let text = canonical_record(
        q_id.as_str(),
        sequence,
        q_type.as_str(),
        q_at.as_str(),
        q_actor.as_str(),
        q_summary.as_str(),
        q_previous.as_str(),
    );
    assert(text@ =~= audit_record_text(
        id@,
        sequence as int,
        event_type@,
        at@,
        actor@,
        summary@,
        previous_hash@,
    ));
    let parts = [text.as_str()];
    let d = digest(&parts);
    proof {
        assert(parts@.len() == 1);
        assert(parts@[0]@ == text@);
        assert(parts@.drop_last() =~= Seq::<&str>::empty());
        assert(joined(parts@.drop_last()) =~= Seq::<char>::empty());
        assert(joined(parts@) =~= text@);
    }
    d
}

/// The previous hash of the first event of a receipt.
pub open spec fn genesis() -> Seq<char> {
    "GENESIS"@
}

/// The id of the event at `sequence` of a receipt: `{receipt}:event-{sequence}`.
pub open spec fn event_id_text(receipt_id: Seq<char>, sequence: int) -> Seq<char> {
    receipt_id + ":event-"@ + integer_text(sequence)
}

/// One hash-linked event of a receipt's audit trail.
#[derive(Clone, Debug, PartialEq, Eq)]
pub struct AuditEvent {
    pub id: String,
    pub sequence: i64,
    pub event_type: &'static str,
    pub at: String,
    pub actor: String,
    pub summary: String,
    pub previous_hash: String,
    pub hash: String,
}

impl AuditEvent {
    /// A copy of the event.
    pub fn duplicate(&self) -> (c: AuditEvent)
        ensures
            c == *self,
    {
        AuditEvent {
            id: self.id.clone(),
            sequence: self.sequence,
            event_type: self.event_type,
            at: self.at.clone(),
            actor: self.actor.clone(),
            summary: self.summary.clone(),
            previous_hash: self.previous_hash.clone(),
            hash: self.hash.clone(),
        }
    }
}

/// Whether `e` is the event of type `event_type` at `sequence` of `receipt_id`,
/// linked to `previous_hash`, with its hash computed over all of it.
pub open spec fn is_audit_event(
    e: AuditEvent,
    receipt_id: Seq<char>,
    sequence: int,
    event_type: Seq<char>,
    at: Seq<char>,
    actor: Seq<char>,
    summary: Seq<char>,
    previous_hash: Seq<char>,
) -> bool {
    &&& e.id@ == event_id_text(receipt_id, sequence)
    &&& e.sequence == sequence
    &&& e.event_type@ == event_type
    &&& e.at@ == at
    &&& e.actor@ == actor
    &&& e.summary@ == summary
    &&& e.previous_hash@ == previous_hash
    &&& e.hash@ == audit_digest(
        event_id_text(receipt_id, sequence),
        sequence,
        event_type,
        at,
        actor,
        summary,
        previous_hash,
    )
}

/// The id of the event at `sequence` of a receipt.
pub fn event_id(receipt_id: &str, sequence: i64) -> (id: String)
    ensures
        id@ == event_id_text(receipt_id@, sequence as int),
{
    let mut id = String::from_str(receipt_id);
    id.append(":event-");
    let n = integer_string(sequence);
    id.append(n.as_str());
    id
}

/// Builds the audit event at `sequence` of a receipt, linked to `previous_hash`.
pub fn audit_event(
    receipt_id: &str,
    sequence: i64,
    event_type: &'static str,
    at: &str,
    actor: &str,
    summary: &str,
    previous_hash: &str,
) -> (e: AuditEvent)
    ensures
        is_audit_event(e, receipt_id@, sequence as int, event_type@, at@, actor@, summary@, previous_hash@),
{
    let id = event_id(receipt_id, sequence);
    let hash = audit_hash(id.as_str(), sequence, event_type, at, actor, summary, previous_hash);
    AuditEvent {
        id,
        sequence,
        event_type,
        at: String::from_str(at),
        actor: String::from_str(actor),
        summary: String::from_str(summary),
        previous_hash: String::from_str(previous_hash),
        hash,
    }
}

/// The sequence number of a receipt's next finalization event, after the highest one
/// recorded (none counts as 0).
pub fn next_sequence(last: Option<i64>) -> (s: i64)
    requires
        last matches Some(v) ==> v < i64::MAX,
    ensures
        s == (match last {
            Some(v) => v + 1,
            None => 1,
        }),
{
    match last {
        Some(v) => v + 1,
        None => 1,
    }
}

/// Whether the event at `sequence` links to a stored predecessor (all but the first do).
pub fn links_to_predecessor(sequence: i64) -> (r: bool)
    ensures
        r == (sequence != 1),
{
    sequence != 1
}

/// The previous hash of a finalization event at `sequence`: `GENESIS` for the first event,
/// else the stored hash of the event before it, or `GENESIS` where none was found.
pub fn finalization_previous_hash(sequence: i64, found: Option<String>) -> (h: String)
    ensures
        h@ == (if sequence == 1 {
            genesis()
        } else {
            match found {
                Some(f) => f@,
                None => genesis(),
            }
        }),
{
    if sequence == 1 {
        String::from_str("GENESIS")
    } else {
        match found {
            Some(f) => f,
            None => String::from_str("GENESIS"),
        }
    }
}

/// The actor of a finalization: the receipt's `receivedBy`, else a generic team member.
pub open spec fn finalization_actor_text(received_by: Option<Seq<char>>) -> Seq<char> {
    match received_by {
        Some(r) => r,
        None => "Receiving team member"@,
    }
}

/// The summary of a finalization: the last receipt event's summary, else a generic one.
pub open spec fn finalization_summary_text(last_summary: Option<Seq<char>>) -> Seq<char> {
    match last_summary {
        Some(s) => s,
        None => "Receipt finalized."@,
    }
}

/// The optional text's view.
pub open spec fn opt_view(t: Option<&str>) -> Option<Seq<char>> {
    match t {
        Some(s) => Some(s@),
        None => None,
    }
}

fn text_or(t: Option<&str>, fallback: &str) -> (r: String)
    ensures
        r@ == (match t {
            Some(s) => s@,
            None => fallback@,
        }),
{
    match t {
        Some(s) => String::from_str(s),
        None => String::from_str(fallback),
    }
}

/// Plans the finalization event of a receipt at `sequence`, linked to `previous_hash`, taking
/// actor and summary from the receipt's `receivedBy` and last event summary where present.
pub fn plan_finalization(
    receipt_id: &str,
    sequence: i64,
    previous_hash: &str,
    at: &str,
    received_by: Option<&str>,
    last_summary: Option<&str>,
) -> (e: AuditEvent)
    ensures
        is_audit_event(
            e,
            receipt_id@,
            sequence as int,
            "finalized"@,
            at@,
            finalization_actor_text(opt_view(received_by)),
            finalization_summary_text(opt_view(last_summary)),
            previous_hash@,
        ),
{
    let actor = text_or(received_by, "Receiving team member");
    let summary = text_or(last_summary, "Receipt finalized.");
    audit_event(receipt_id, sequence, "finalized", at, actor.as_str(), summary.as_str(), previous_hash)
}

/// Where a receipt stands before finalization.
#[derive(Clone, Copy, Debug, PartialEq, Eq, Structural)]
pub enum FinalizeStart {
    /// Not finalized yet: a new finalization event is due.
    Fresh,
    /// Finalized before: the stored finalization is answered again.
    Repeat,
}

/// Starts a finalization from the stored state of the receipt, if it is in the site.
pub fn finalize_start(state: Option<&str>) -> (r: Result<FinalizeStart, Problem>)
    ensures
        state is None ==> r == Err::<FinalizeStart, Problem>(Problem::ReceiptNotFound),
        state matches Some(s) ==> r == Ok::<FinalizeStart, Problem>(
            if s@ == "finalized"@ {
                FinalizeStart::Repeat
            } else {
                FinalizeStart::Fresh
            },
        ),
{
    match state {
        None => Err(Problem::ReceiptNotFound),
        Some(s) => {
            if crate::text::text_equals(s, "finalized") {
                Ok(FinalizeStart::Repeat)
            } else {
                Ok(FinalizeStart::Fresh)
            }
        },
    }
}

/// The stored finalization event answered when a receipt is finalized again.
#[derive(Clone, Debug, PartialEq, Eq)]
pub struct RecordedFinalization {
    pub hash: String,
    pub sequence: i64,
    pub created_at: String,
}

/// Answers a repeated finalization: the backup must have been written and the
/// first finalization event found.
pub fn repeat_finalization(backup_written: bool, recorded: Option<RecordedFinalization>) -> (r: Result<
    RecordedFinalization,
    Problem,
>)
    ensures
        !backup_written ==> r == Err::<RecordedFinalization, Problem>(Problem::FinalizedBackupFailed),
        backup_written && recorded is None ==> r == Err::<RecordedFinalization, Problem>(
            Problem::AuditMissing,
        ),
        backup_written && recorded is Some ==> r == Ok::<RecordedFinalization, Problem>(
            recorded->0,
        ),
{
    if !backup_written {
        return Err(Problem::FinalizedBackupFailed);
    }
    match recorded {
        Some(e) => Ok(e),
        None => Err(Problem::AuditMissing),
    }
}

/// The outcome of the guarded state change to `finalized`: no changed row means
/// another request finalized the receipt first.
pub fn finalization_update(changed_rows: usize) -> (r: Result<(), Problem>)
    ensures
        r == (if changed_rows == 0 {
            Err::<(), Problem>(Problem::ReceiptAlreadyFinalized)
        } else {
            Ok::<(), Problem>(())
        }),
{
    if changed_rows == 0 {
        Err(Problem::ReceiptAlreadyFinalized)
    } else {
        Ok(())
    }
}

/// Whether a receipt in state `state` can take a correction: only finalized ones can.
pub fn correction_allowed(state: Option<&str>) -> (r: Result<(), Problem>)
    ensures
        r == (if state matches Some(s) && s@ == "finalized"@ {
            Ok::<(), Problem>(())
        } else {
            Err::<(), Problem>(Problem::ReceiptNotFinalized)
        }),
{
    match state {
        Some(s) => {
            if crate::text::text_equals(s, "finalized") {
                Ok(())
            } else {
                Err(Problem::ReceiptNotFinalized)
            }
        },
        None => Err(Problem::ReceiptNotFinalized),
    }
}

/// The sequence and previous hash of a correction, from the row that holds the next
/// sequence and the latest event's hash; where that row could not be read, the first
/// sequence and `GENESIS`.
pub fn correction_link(row: Option<(i64, String)>) -> (r: (i64, String))
    ensures
        row matches Some(x) ==> r.0 == x.0 && r.1@ == x.1@,
        row is None ==> r.0 == 1 && r.1@ == genesis(),
{
    match row {
        Some(x) => x,
        None => (1, String::from_str("GENESIS")),
    }
}

/// The summary of a correction event.
pub open spec fn correction_summary_text(reason: Seq<char>) -> Seq<char> {
    "Correction recorded: "@ + reason
}

/// Plans the correction event at `sequence`, linked to `previous_hash`; its actor is the
/// receipt's `receivedBy` where present, else the signed-in user's name.
pub fn plan_correction(
    receipt_id: &str,
    sequence: i64,
    previous_hash: &str,
    at: &str,
    received_by: Option<&str>,
    user_name: &str,
    reason: &str,
) -> (e: AuditEvent)
    ensures
        is_audit_event(
            e,
            receipt_id@,
            sequence as int,
            "corrected"@,
            at@,
            match received_by {
                Some(r) => r@,
                None => user_name@,
            },
            correction_summary_text(reason@),
            previous_hash@,
        ),
{
    let actor = text_or(received_by, user_name);
    let mut summary = String::from_str("Correction recorded: ");
    summary.append(reason);
    audit_event(receipt_id, sequence, "corrected", at, actor.as_str(), summary.as_str(), previous_hash)
}

/// A correction recorded after an event links to that event: when the row read for the
/// correction carries the event's successor sequence and the event's hash, the correction
/// sits right after the event and names the event's hash as its previous hash.
pub proof fn lemma_correction_follows_event(
    prior: AuditEvent,
    row: (i64, String),
    link: (i64, String),
    correction: AuditEvent,
    receipt_id: Seq<char>,
    at: Seq<char>,
    actor: Seq<char>,
    reason: Seq<char>,
)
    requires
        row.0 == prior.sequence + 1,
        row.1@ == prior.hash@,
        link.0 == row.0 && link.1@ == row.1@,
        is_audit_event(
            correction,
            receipt_id,
            link.0 as int,
            "corrected"@,
            at,
            actor,
            correction_summary_text(reason),
            link.1@,
        ),
    ensures
        correction.sequence == prior.sequence + 1,
        correction.previous_hash@ == prior.hash@,
{
}

/// The escape of a character starts with the character itself or with a backslash
/// followed by more; never with a double quote.
proof fn lemma_char_escape_shape(c: char)
    ensures
        json_char_escape(c).len() >= 1,
        json_char_escape(c)[0] != '"',
        json_char_escape(c)[0] == '\\' ==> json_char_escape(c).len() >= 2,
        json_char_escape(c)[0] != '\\' ==> json_char_escape(c) == seq![c],
{
}

/// The escapes of two characters cannot both start the same text unless the characters,
/// and what follows them, are the same.
proof fn lemma_char_escape_prefix_free(c: char, d: char, x: Seq<char>, y: Seq<char>)
    requires
        json_char_escape(c) + x == json_char_escape(d) + y,
    ensures
        c == d,
        x == y,
{
    let ec = json_char_escape(c);
    let ed = json_char_escape(d);
    lemma_char_escape_shape(c);
    lemma_char_escape_shape(d);
    assert((ec + x)[0] == ec[0]);
    assert((ed + y)[0] == ed[0]);
    if ec[0] != '\\' {
        assert(c == d);
    } else {
        assert((ec + x)[1] == ec[1]);
        assert((ed + y)[1] == ed[1]);
        if ec[1] == 'u' {
            assert(ed[1] == 'u');
            assert((ec + x)[4] == ec[4]);
            assert((ed + y)[4] == ed[4]);
            assert((ec + x)[5] == ec[5]);
            assert((ed + y)[5] == ed[5]);
            crate::text::lemma_hex_digit_injective(c as int / 16, d as int / 16);
            crate::text::lemma_hex_digit_injective(c as int % 16, d as int % 16);
            assert(c as int == d as int);
        }
        assert(c == d);
    }
    assert(x =~= (ec + x).skip(ec.len() as int));
    assert(y =~= (ed + y).skip(ed.len() as int));
}

/// An escaped text ends at the first unescaped double quote: what stands before it and
/// what follows it are both determined.
proof fn lemma_escaped_prefix_free(a: Seq<char>, b: Seq<char>, x: Seq<char>, y: Seq<char>)
    requires
        json_escaped(a) + (seq!['"'] + x) == json_escaped(b) + (seq!['"'] + y),
    ensures
        a == b,
        x == y,
    decreases a.len(),
{
    let q = seq!['"'];
    if a.len() == 0 || b.len() == 0 {
        if a.len() > 0 {
            lemma_char_escape_shape(a[0]);
            assert((json_escaped(a) + (q + x))[0] == json_char_escape(a[0])[0]);
            assert((json_escaped(b) + (q + y))[0] == '"');
        } else if b.len() > 0 {
            lemma_char_escape_shape(b[0]);
            assert((json_escaped(b) + (q + y))[0] == json_char_escape(b[0])[0]);
            assert((json_escaped(a) + (q + x))[0] == '"');
        } else {
            assert(a =~= b);
            assert(x =~= (q + x).skip(1));
            assert(y =~= (q + y).skip(1));
        }
    } else {
        let ra = json_escaped(a.skip(1)) + (q + x);
        let rb = json_escaped(b.skip(1)) + (q + y);
        assert(json_escaped(a) + (q + x) =~= json_char_escape(a[0]) + ra);
        assert(json_escaped(b) + (q + y) =~= json_char_escape(b[0]) + rb);
        lemma_char_escape_prefix_free(a[0], b[0], ra, rb);
        lemma_escaped_prefix_free(a.skip(1), b.skip(1), x, y);
        assert(a =~= seq![a[0]] + a.skip(1));
        assert(b =~= seq![b[0]] + b.skip(1));
    }
}

/// A JSON string literal is never a proper prefix of another: where two texts start with
/// literals, the literals' strings and the rest of the texts are the same.
pub proof fn lemma_string_literal_prefix_free(a: Seq<char>, b: Seq<char>, x: Seq<char>, y: Seq<char>)
    requires
        json_string_literal(a) + x == json_string_literal(b) + y,
    ensures
        a == b,
        x == y,
{
    let q = seq!['"'];
    assert(json_string_literal(a) + x =~= q + (json_escaped(a) + (q + x)));
    assert(json_string_literal(b) + y =~= q + (json_escaped(b) + (q + y)));
    assert(json_escaped(a) + (q + x) =~= (json_string_literal(a) + x).skip(1));
    assert(json_escaped(b) + (q + y) =~= (json_string_literal(b) + y).skip(1));
    lemma_escaped_prefix_free(a, b, x, y);
}

/// Where a text starts with `p`, the rest after `p` is determined.
proof fn lemma_strip_prefix(p: Seq<char>, x: Seq<char>, y: Seq<char>)
    requires
        p + x == p + y,
    ensures
        x == y,
{
    assert(x =~= (p + x).skip(p.len() as int));
    assert(y =~= (p + y).skip(p.len() as int));
}

/// What follows the sequence number in the canonical text, from the comma on.
spec fn record_tail(
    event_type: Seq<char>,
    at: Seq<char>,
    actor: Seq<char>,
    summary: Seq<char>,
    previous_hash: Seq<char>,
) -> Seq<char> {
    json_string_literal(event_type) + (",\"at\":"@ + (json_string_literal(at) + (
    ",\"actor\":"@ + (json_string_literal(actor) + (",\"summary\":"@ + (json_string_literal(
        summary,
    ) + (",\"previousHash\":"@ + (json_string_literal(previous_hash) + "}"@))))))))
}

/// Concatenation of texts is associative.
proof fn lemma_concat_assoc(a: Seq<char>, b: Seq<char>, c: Seq<char>)
    ensures
        (a + b) + c == a + (b + c),
{
    assert((a + b) + c =~= a + (b + c));
}

/// The canonical text of an event, read from its start: each field after the one before.
proof fn lemma_record_text_shape(
    id: Seq<char>,
    sequence: int,
    event_type: Seq<char>,
    at: Seq<char>,
    actor: Seq<char>,
    summary: Seq<char>,
    previous_hash: Seq<char>,
)
    ensures
        audit_record_text(id, sequence, event_type, at, actor, summary, previous_hash)
            == "{\"id\":"@ + (json_string_literal(id) + (",\"sequence\":"@ + (integer_text(sequence)
            + (",\"type\":"@ + record_tail(event_type, at, actor, summary, previous_hash))))),
{
    let p0 = "{\"id\":"@;
    let p1 = json_string_literal(id);
    let p2 = ",\"sequence\":"@;
    let p3 = integer_text(sequence);
    let p4 = ",\"type\":"@;
    let p5 = json_string_literal(event_type);
    let p6 = ",\"at\":"@;
    let p7 = json_string_literal(at);
    let p8 = ",\"actor\":"@;
    let p9 = json_string_literal(actor);
    let p10 = ",\"summary\":"@;
    let p11 = json_string_literal(summary);
    let p12 = ",\"previousHash\":"@;
    let p13 = json_string_literal(previous_hash);
    let p14 = "}"@;
    let l0 = p0;
    let l1 = l0 + p1;
    let l2 = l1 + p2;
    let l3 = l2 + p3;
    let l4 = l3 + p4;
    let l5 = l4 + p5;
    let l6 = l5 + p6;
    let l7 = l6 + p7;
    let l8 = l7 + p8;
    let l9 = l8 + p9;
    let l10 = l9 + p10;
    let l11 = l10 + p11;
    let l12 = l11 + p12;
    let l13 = l12 + p13;
    let l14 = l13 + p14;
    let t14 = p14;
    let t13 = p13 + t14;
    let t12 = p12 + t13;
    let t11 = p11 + t12;
    let t10 = p10 + t11;
    let t9 = p9 + t10;
    let t8 = p8 + t9;
    let t7 = p7 + t8;
    let t6 = p6 + t7;
    let t5 = p5 + t6;
    let t4 = p4 + t5;
    let t3 = p3 + t4;
    let t2 = p2 + t3;
    let t1 = p1 + t2;
    let t0 = p0 + t1;
    lemma_concat_assoc(l12, p13, t14);
    lemma_concat_assoc(l11, p12, t13);
    lemma_concat_assoc(l10, p11, t12);
    lemma_concat_assoc(l9, p10, t11);
    lemma_concat_assoc(l8, p9, t10);
    lemma_concat_assoc(l7, p8, t9);
    lemma_concat_assoc(l6, p7, t8);
    lemma_concat_assoc(l5, p6, t7);
    lemma_concat_assoc(l4, p5, t6);
    lemma_concat_assoc(l3, p4, t5);
    lemma_concat_assoc(l2, p3, t4);
    lemma_concat_assoc(l1, p2, t3);
    lemma_concat_assoc(l0, p1, t2);
    assert(l14 == l13 + t14);
}

/// The canonical text of an audit event determines every field of the event: distinct
/// events have distinct texts, so each hashes a text of its own.
pub proof fn lemma_record_text_determines_event(
    id: Seq<char>,
    sequence: int,
    event_type: Seq<char>,
    at: Seq<char>,
    actor: Seq<char>,
    summary: Seq<char>,
    previous_hash: Seq<char>,
    id2: Seq<char>,
    sequence2: int,
    event_type2: Seq<char>,
    at2: Seq<char>,
    actor2: Seq<char>,
    summary2: Seq<char>,
    previous_hash2: Seq<char>,
)
    requires
        audit_record_text(id, sequence, event_type, at, actor, summary, previous_hash)
            == audit_record_text(id2, sequence2, event_type2, at2, actor2, summary2, previous_hash2),
    ensures
        id == id2,
        sequence == sequence2,
        event_type == event_type2,
        at == at2,
        actor == actor2,
        summary == summary2,
        previous_hash == previous_hash2,
{
    reveal_strlit(",\"type\":");
    reveal_strlit("\"type\":");
    let t1 = record_tail(event_type, at, actor, summary, previous_hash);
    let t2 = record_tail(event_type2, at2, actor2, summary2, previous_hash2);
    let c = seq![','];
    let ty = "\"type\":"@;
    assert(",\"type\":"@ =~= c + ty);
    let head = "{\"id\":"@;
    let sq = ",\"sequence\":"@;
    lemma_record_text_shape(id, sequence, event_type, at, actor, summary, previous_hash);
    lemma_record_text_shape(id2, sequence2, event_type2, at2, actor2, summary2, previous_hash2);
    lemma_concat_assoc(c, ty, t1);
    lemma_concat_assoc(c, ty, t2);
    lemma_strip_prefix(
        head,
        json_string_literal(id) + (sq + (integer_text(sequence) + (c + (ty + t1)))),
        json_string_literal(id2) + (sq + (integer_text(sequence2) + (c + (ty + t2)))),
    );
    lemma_string_literal_prefix_free(
        id,
        id2,
        sq + (integer_text(sequence) + (c + (ty + t1))),
        sq + (integer_text(sequence2) + (c + (ty + t2))),
    );
    lemma_strip_prefix(
        sq,
        integer_text(sequence) + (c + (ty + t1)),
        integer_text(sequence2) + (c + (ty + t2)),
    );
    crate::text::lemma_integer_text_before_comma(sequence, sequence2, ty + t1, ty + t2);
    lemma_strip_prefix(ty, t1, t2);
    let r1 = ",\"at\":"@ + (json_string_literal(at) + (",\"actor\":"@ + (json_string_literal(
        actor,
    ) + (",\"summary\":"@ + (json_string_literal(summary) + (",\"previousHash\":"@ + (
    json_string_literal(previous_hash) + "}"@)))))));
    let r2 = ",\"at\":"@ + (json_string_literal(at2) + (",\"actor\":"@ + (json_string_literal(
        actor2,
    ) + (",\"summary\":"@ + (json_string_literal(summary2) + (",\"previousHash\":"@ + (
    json_string_literal(previous_hash2) + "}"@)))))));
    lemma_string_literal_prefix_free(event_type, event_type2, r1, r2);
    let s1 = ",\"actor\":"@ + (json_string_literal(actor) + (",\"summary\":"@ + (
    json_string_literal(summary) + (",\"previousHash\":"@ + (json_string_literal(previous_hash)
        + "}"@)))));
    let s2 = ",\"actor\":"@ + (json_string_literal(actor2) + (",\"summary\":"@ + (
    json_string_literal(summary2) + (",\"previousHash\":"@ + (json_string_literal(previous_hash2)
        + "}"@)))));
    lemma_strip_prefix(",\"at\":"@, json_string_literal(at) + s1, json_string_literal(at2) + s2);
    lemma_string_literal_prefix_free(at, at2, s1, s2);
    let u1 = ",\"summary\":"@ + (json_string_literal(summary) + (",\"previousHash\":"@ + (
    json_string_literal(previous_hash) + "}"@)));
    let u2 = ",\"summary\":"@ + (json_string_literal(summary2) + (",\"previousHash\":"@ + (
    json_string_literal(previous_hash2) + "}"@)));
    lemma_strip_prefix(
        ",\"actor\":"@,
        json_string_literal(actor) + u1,
        json_string_literal(actor2) + u2,
    );
    lemma_string_literal_prefix_free(actor, actor2, u1, u2);
    let v1 = ",\"previousHash\":"@ + (json_string_literal(previous_hash) + "}"@);
    let v2 = ",\"previousHash\":"@ + (json_string_literal(previous_hash2) + "}"@);
    lemma_strip_prefix(
        ",\"summary\":"@,
        json_string_literal(summary) + v1,
        json_string_literal(summary2) + v2,
    );
    lemma_string_literal_prefix_free(summary, summary2, v1, v2);
    lemma_strip_prefix(
        ",\"previousHash\":"@,
        json_string_literal(previous_hash) + "}"@,
        json_string_literal(previous_hash2) + "}"@,
    );
    lemma_string_literal_prefix_free(previous_hash, previous_hash2, "}"@, "}"@);
}

} // verus!
