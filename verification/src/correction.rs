//! Recording a correction of a finalized receipt, as a machine that names each storage
//! step for the caller to perform and decides the next one from what the step returned.
use vstd::prelude::*;
use crate::audit::correction_allowed;
use crate::audit::correction_link;
use crate::audit::correction_summary_text;
use crate::audit::genesis;
use crate::audit::is_audit_event;
use crate::audit::plan_correction;
use crate::audit::AuditEvent;
use crate::clock::now;
use crate::finalize::clock_timed;
use crate::finalize::opt_string_view;
use crate::finalize::payload_received_by;
use crate::finalize::receipt_snapshot;
use crate::finalize::StoredReceipt;
use crate::clock::rfc3339_seconds_text;
use crate::system_clock::is_clock_reading;
use crate::clock::Instant;
use crate::problem::Problem;

verus! {

/// What a correction reads of the stored receipt: its state and, from its payload, the
/// `receivedBy` field where present.
#[derive(Clone, Debug, PartialEq, Eq)]
pub struct CorrectedReceipt {
    pub state: String,
    pub received_by: Option<String>,
}

/// What a correction reads of a stored receipt with state `state` and payload `payload`.
pub fn corrected_receipt(state: String, payload: &str) -> (c: CorrectedReceipt)
    ensures
        c.state == state,
        opt_string_view(c.received_by) == payload_received_by(payload@),
{
    let snapshot = receipt_snapshot(state, payload);
    CorrectedReceipt { state: snapshot.state, received_by: snapshot.received_by }
}

/// Where a correction stands.
#[derive(Clone, Debug, PartialEq, Eq)]
pub enum CorrectionState {
    Start,
    AwaitReceipt,
    AwaitLink { received_by: Option<String> },
    AwaitInserted { event: AuditEvent },
    Finished,
}

/// What the caller reports back after performing an action.
#[derive(Clone, Debug, PartialEq, Eq)]
pub enum CorrectionInput {
    Begin,
    /// The receipt of the site, if any.
    Receipt(Option<StoredReceipt>),
    /// The next sequence and the latest event's hash (`GENESIS` where none), if readable.
    Link(Option<(i64, String)>),
    /// Whether the correction event was stored.
    Inserted(bool),
}

/// What the caller is to do next.
#[derive(Debug, PartialEq, Eq)]
pub enum CorrectionAction {
    LoadReceipt,
    LoadLink,
    InsertEvent { event: AuditEvent },
    /// Stop with the stored correction event, or a refusal.
    Answer(Result<AuditEvent, Problem>),
}

/// Whether the machine has finished with the refusal `p`.
pub open spec fn refuses(next: CorrectionState, a: CorrectionAction, p: Problem) -> bool {
    next == CorrectionState::Finished && a == CorrectionAction::Answer(Err(p))
}

/// One step of recording the correction `reason` of the receipt `receipt_id` by the user
/// named `user_name`.
pub open spec fn correction_transition(
    receipt_id: Seq<char>,
    user_name: Seq<char>,
    reason: Seq<char>,
    s: CorrectionState,
    i: CorrectionInput,
    next: CorrectionState,
    a: CorrectionAction,
) -> bool {
    match (s, i) {
        (CorrectionState::Start, CorrectionInput::Begin) => next == CorrectionState::AwaitReceipt
            && a == CorrectionAction::LoadReceipt,
        (CorrectionState::AwaitReceipt, CorrectionInput::Receipt(found)) => match found {
            Some(r) => if r.state@ == "finalized"@ {
                next matches CorrectionState::AwaitLink { received_by } && a
                    == CorrectionAction::LoadLink && opt_string_view(received_by)
                    == payload_received_by(r.payload@)
            } else {
                refuses(next, a, Problem::ReceiptNotFinalized)
            },
            None => refuses(next, a, Problem::ReceiptNotFinalized),
        },
        (CorrectionState::AwaitLink { received_by }, CorrectionInput::Link(row)) => {
            let sequence: int = match row {
                Some(x) => x.0 as int,
                None => 1,
            };
            let previous = match row {
                Some(x) => x.1@,
                None => genesis(),
            };
            next matches CorrectionState::AwaitInserted { event } && a == (
            CorrectionAction::InsertEvent { event }) && (exists|t: Instant|
                #![trigger is_clock_reading(t)]
                is_clock_reading(t) && rfc3339_seconds_text(t.secs as int) == Some(event.at@)) && is_audit_event(
                event,
                receipt_id,
                sequence,
                "corrected"@,
                event.at@,
                match received_by {
                    Some(r) => r@,
                    None => user_name,
                },
                correction_summary_text(reason),
                previous,
            )
        },
        (CorrectionState::AwaitInserted { event }, CorrectionInput::Inserted(ok)) => if ok {
            next == CorrectionState::Finished && a == CorrectionAction::Answer(Ok(event))
        } else {
            refuses(next, a, Problem::CorrectionFailed)
        },
        _ => refuses(next, a, Problem::CorrectionFailed),
    }
}

/// Takes one step of recording the correction `reason` of the receipt `receipt_id` by the
/// user named `user_name`.
pub fn correction_step(
    receipt_id: &str,
    user_name: &str,
    reason: &str,
    state: CorrectionState,
    input: CorrectionInput,
) -> (r: (CorrectionState, CorrectionAction))
    ensures
        correction_transition(receipt_id@, user_name@, reason@, state, input, r.0, r.1),
{
    match (state, input) {
        (CorrectionState::Start, CorrectionInput::Begin) => (
            CorrectionState::AwaitReceipt,
            CorrectionAction::LoadReceipt,
        ),
        (CorrectionState::AwaitReceipt, CorrectionInput::Receipt(found)) => {
            let stored_state = match &found {
                Some(r) => Some(r.state.as_str()),
                None => None,
            };
            match correction_allowed(stored_state) {
                Err(p) => (CorrectionState::Finished, CorrectionAction::Answer(Err(p))),
                Ok(()) => match found {
                    Some(r) => {
                        let receipt = corrected_receipt(r.state, r.payload.as_str());
                        (
                            CorrectionState::AwaitLink { received_by: receipt.received_by },
                            CorrectionAction::LoadLink,
                        )
                    },
                    None => (
                        CorrectionState::Finished,
                        CorrectionAction::Answer(Err(Problem::ReceiptNotFinalized)),
                    ),
                },
            }
        },
        (CorrectionState::AwaitLink { received_by }, CorrectionInput::Link(row)) => {
            let (sequence, previous) = correction_link(row);
            let at = now();
            let event = match &received_by {
                Some(r) => plan_correction(
                    receipt_id,
                    sequence,
                    previous.as_str(),
                    at.as_str(),
                    Some(r.as_str()),
                    user_name,
                    reason,
                ),
                None => plan_correction(
                    receipt_id,
                    sequence,
                    previous.as_str(),
                    at.as_str(),
                    None,
                    user_name,
                    reason,
                ),
            };
            let stored = event.duplicate();
            (CorrectionState::AwaitInserted { event: stored }, CorrectionAction::InsertEvent { event })
        },
        (CorrectionState::AwaitInserted { event }, CorrectionInput::Inserted(ok)) => {
            if ok {
                (CorrectionState::Finished, CorrectionAction::Answer(Ok(event)))
            } else {
                (CorrectionState::Finished, CorrectionAction::Answer(Err(Problem::CorrectionFailed)))
            }
        },
        _ => (CorrectionState::Finished, CorrectionAction::Answer(Err(Problem::CorrectionFailed))),
    }
}

/// A correction is only ever stored for a receipt found finalized: the machine asks to
/// store an event only right after reading the link, which it asks for only after seeing a
/// finalized receipt.
pub proof fn lemma_correction_needs_finalized_receipt(
    receipt_id: Seq<char>,
    user_name: Seq<char>,
    reason: Seq<char>,
    s: CorrectionState,
    i: CorrectionInput,
    next: CorrectionState,
    a: CorrectionAction,
    prior: CorrectionState,
    prior_input: CorrectionInput,
    prior_action: CorrectionAction,
)
    requires
        correction_transition(receipt_id, user_name, reason, s, i, next, a),
        a is InsertEvent,
        correction_transition(receipt_id, user_name, reason, prior, prior_input, s, prior_action),
    ensures
        s is AwaitLink,
        prior == CorrectionState::AwaitReceipt,
        prior_input matches CorrectionInput::Receipt(Some(r)) && r.state@ == "finalized"@,
{
}

/// A correction is timed by the clock: the event a step asks to store is timed at the RFC
/// 3339 text of an instant the clock gave and its hash covers that time; a waiting event
/// stays so timed, and the stored event answered carries that time.
pub proof fn law_correction_is_timed_by_the_clock(
    receipt_id: Seq<char>,
    user_name: Seq<char>,
    reason: Seq<char>,
    s: CorrectionState,
    i: CorrectionInput,
    next: CorrectionState,
    a: CorrectionAction,
)
    requires
        correction_transition(receipt_id, user_name, reason, s, i, next, a),
        s matches CorrectionState::AwaitInserted { event } ==> clock_timed(event.at@),
    ensures
        a matches CorrectionAction::InsertEvent { event } ==> clock_timed(event.at@)
            && event.hash@ == crate::audit::audit_digest(
            event.id@,
            event.sequence as int,
            "corrected"@,
            event.at@,
            event.actor@,
            event.summary@,
            event.previous_hash@,
        ) && next == (CorrectionState::AwaitInserted { event }),
        next matches CorrectionState::AwaitInserted { event } ==> clock_timed(event.at@),
        a matches CorrectionAction::Answer(Ok(event)) ==> clock_timed(event.at@),
{
}

} // verus!
