//! Finalizing a receipt, as a machine that names each storage step for the caller to
//! perform and decides the next one from what the step returned.
use vstd::prelude::*;
use crate::audit::finalization_actor_text;
use crate::audit::finalization_previous_hash;
use crate::audit::finalization_update;
use crate::audit::finalize_start;
use crate::audit::links_to_predecessor;
use crate::audit::next_sequence;
use crate::audit::repeat_finalization;
use crate::audit::FinalizeStart;
use crate::audit::finalization_summary_text;
use crate::audit::genesis;
use crate::audit::is_audit_event;
use crate::audit::plan_finalization;
use crate::audit::AuditEvent;
use crate::audit::RecordedFinalization;
use crate::clock::now;
use crate::clock::rfc3339_seconds_text;
use crate::system_clock::is_clock_reading;
use crate::clock::Instant;
use crate::problem::Problem;

verus! {

/// What finalization reads of a stored receipt: its state, and from its payload the
/// `receivedBy` field and the summary of its last event, where present.
#[derive(Clone, Debug, PartialEq, Eq)]
pub struct ReceiptSnapshot {
    pub state: String,
    pub received_by: Option<String>,
    pub last_summary: Option<String>,
}

/// A receipt as stored: its state and its JSON payload text.
#[derive(Clone, Debug, PartialEq, Eq)]
pub struct StoredReceipt {
    pub state: String,
    pub payload: String,
}

/// The string `receivedBy` field of a receipt's JSON payload, as `serde_json` reads it;
/// none where the payload is not JSON or the field is missing or not a string.
pub uninterp spec fn payload_received_by(payload: Seq<char>) -> Option<Seq<char>>;

/// The string `summary` field of the last element of the `events` array of a receipt's
/// JSON payload, as `serde_json` reads it; none where any of these is missing or of
/// another kind.
pub uninterp spec fn payload_last_summary(payload: Seq<char>) -> Option<Seq<char>>;

/// `serde_json::from_str` of a receipt payload into a `serde_json::Value` (`Null` where it
/// does not parse), then its `receivedBy` string and the `summary` string of the last of
/// its `events`.
#[verifier::external_body]
fn payload_fields(payload: &str) -> (r: (Option<String>, Option<String>))
    ensures
        opt_string_view(r.0) == payload_received_by(payload@),
        opt_string_view(r.1) == payload_last_summary(payload@),
{
    let value = serde_json::from_str::<serde_json::Value>(payload).unwrap_or_default();
    let received_by = value["receivedBy"].as_str().map(str::to_owned);
    let last = value["events"].as_array().and_then(|events| events.last());
    (received_by, last.and_then(|event| event["summary"].as_str()).map(str::to_owned))
}

/// What finalization reads of a stored receipt with state `state` and payload `payload`.
pub fn receipt_snapshot(state: String, payload: &str) -> (s: ReceiptSnapshot)
    ensures
        s.state == state,
        opt_string_view(s.received_by) == payload_received_by(payload@),
        opt_string_view(s.last_summary) == payload_last_summary(payload@),
{
    let (received_by, last_summary) = payload_fields(payload);
    ReceiptSnapshot { state, received_by, last_summary }
}

/// The answer to a successful finalization request.
#[derive(Clone, Debug, PartialEq, Eq)]
pub struct FinalizeAnswer {
    pub event_hash: String,
    pub sequence: i64,
    pub created_at: String,
    /// Whether the receipt had been finalized before and its stored event is answered.
    pub idempotent: bool,
}

/// Where a finalization stands.
#[derive(Clone, Debug, PartialEq, Eq)]
pub enum FinalizeState {
    Start,
    AwaitReceipt,
    AwaitRepeatBackup,
    AwaitRecorded,
    AwaitLastSequence { received_by: Option<String>, last_summary: Option<String> },
    AwaitPreviousHash { sequence: i64, received_by: Option<String>, last_summary: Option<String> },
    AwaitMark { event: AuditEvent },
    AwaitInsert { event: AuditEvent },
    AwaitCommit { event: AuditEvent },
    AwaitBackup { event: AuditEvent },
    Finished,
}

/// What the caller reports back after performing an action.
#[derive(Clone, Debug, PartialEq, Eq)]
pub enum FinalizeInput {
    Begin,
    /// The receipt of the site, if any.
    Receipt(Option<StoredReceipt>),
    /// Whether the database backup was written.
    BackupWritten(bool),
    /// The receipt's first finalization event, if found.
    Recorded(Option<RecordedFinalization>),
    /// The highest event sequence of the receipt (0 where it has none), if it could be read.
    LastSequence(Option<i64>),
    /// The hash of the event before the new one, if found.
    EventHash(Option<String>),
    /// The rows changed by marking the receipt finalized inside a new transaction, or none
    /// where the transaction or the change failed.
    Marked(Option<usize>),
    /// Whether the event was inserted in the transaction.
    Inserted(bool),
    /// Whether the transaction committed.
    Committed(bool),
}

/// What the caller is to do next.
#[derive(Debug, PartialEq, Eq)]
pub enum FinalizeAction {
    LoadReceipt,
    WriteBackup,
    LoadRecordedFinalization,
    LoadLastSequence,
    LoadEventHash { sequence: i64 },
    /// Begin a transaction and change the receipt's state to `finalized` at `at`, unless
    /// it already is.
    MarkFinalized { at: String },
    InsertEvent { event: AuditEvent },
    Commit,
    /// Stop, rolling back an open transaction, and give this answer.
    Answer(Result<FinalizeAnswer, Problem>),
}

/// The optional text's view.
pub open spec fn opt_string_view(t: Option<String>) -> Option<Seq<char>> {
    match t {
        Some(s) => Some(s@),
        None => None,
    }
}

/// Whether `a` refuses with `p` and the machine has finished.
pub open spec fn refuses(next: FinalizeState, a: FinalizeAction, p: Problem) -> bool {
    next == FinalizeState::Finished && a == FinalizeAction::Answer(Err(p))
}

/// Whether `e` is the finalization event at `sequence` of `receipt_id`, linked to
/// `previous`, timed at a clock reading, with actor and summary from the receipt.
pub open spec fn is_finalization_event(
    e: AuditEvent,
    receipt_id: Seq<char>,
    sequence: int,
    previous: Seq<char>,
    received_by: Option<String>,
    last_summary: Option<String>,
) -> bool {
    &&& exists|i: Instant|
        #![trigger is_clock_reading(i)]
        is_clock_reading(i) && rfc3339_seconds_text(i.secs as int) == Some(e.at@)
    &&& is_audit_event(
        e,
        receipt_id,
        sequence,
        "finalized"@,
        e.at@,
        finalization_actor_text(opt_string_view(received_by)),
        finalization_summary_text(opt_string_view(last_summary)),
        previous,
    )
}

/// One step of finalizing the receipt `receipt_id`.
pub open spec fn finalize_transition(
    receipt_id: Seq<char>,
    s: FinalizeState,
    i: FinalizeInput,
    next: FinalizeState,
    a: FinalizeAction,
) -> bool {
    match (s, i) {
        (FinalizeState::Start, FinalizeInput::Begin) => next == FinalizeState::AwaitReceipt && a
            == FinalizeAction::LoadReceipt,
        (FinalizeState::AwaitReceipt, FinalizeInput::Receipt(None)) => refuses(
            next,
            a,
            Problem::ReceiptNotFound,
        ),
        (FinalizeState::AwaitReceipt, FinalizeInput::Receipt(Some(r))) => if r.state@
            == "finalized"@ {
            next == FinalizeState::AwaitRepeatBackup && a == FinalizeAction::WriteBackup
        } else {
            next matches FinalizeState::AwaitLastSequence { received_by, last_summary } && a
                == FinalizeAction::LoadLastSequence && opt_string_view(received_by)
                == payload_received_by(r.payload@) && opt_string_view(last_summary)
                == payload_last_summary(r.payload@)
        },
        (FinalizeState::AwaitRepeatBackup, FinalizeInput::BackupWritten(ok)) => if ok {
            next == FinalizeState::AwaitRecorded && a == FinalizeAction::LoadRecordedFinalization
        } else {
            refuses(next, a, Problem::FinalizedBackupFailed)
        },
        (FinalizeState::AwaitRecorded, FinalizeInput::Recorded(None)) => refuses(
            next,
            a,
            Problem::AuditMissing,
        ),
        (FinalizeState::AwaitRecorded, FinalizeInput::Recorded(Some(e))) => next
            == FinalizeState::Finished && a == FinalizeAction::Answer(
            Ok(
                FinalizeAnswer {
                    event_hash: e.hash,
                    sequence: e.sequence,
                    created_at: e.created_at,
                    idempotent: true,
                },
            ),
        ),
        (
            FinalizeState::AwaitLastSequence { received_by, last_summary },
            FinalizeInput::LastSequence(last),
        ) => {
            let sequence = match last {
                Some(v) => v + 1,
                None => 1,
            };
            if sequence != 1 {
                next == (FinalizeState::AwaitPreviousHash {
                    sequence: sequence as i64,
                    received_by,
                    last_summary,
                }) && a == FinalizeAction::LoadEventHash { sequence: (sequence - 1) as i64 }
            } else {
                next matches FinalizeState::AwaitMark { event } && a == (FinalizeAction::MarkFinalized {
                    at: event.at,
                }) && is_finalization_event(
                    event,
                    receipt_id,
                    1,
                    genesis(),
                    received_by,
                    last_summary,
                )
            }
        },
        (
            FinalizeState::AwaitPreviousHash { sequence, received_by, last_summary },
            FinalizeInput::EventHash(found),
        ) => {
            let previous = if sequence == 1 {
                genesis()
            } else {
                match found {
                    Some(h) => h@,
                    None => genesis(),
                }
            };
            next matches FinalizeState::AwaitMark { event } && a == (FinalizeAction::MarkFinalized {
                at: event.at,
            }) && is_finalization_event(
                event,
                receipt_id,
                sequence as int,
                previous,
                received_by,
                last_summary,
            )
        },
        (FinalizeState::AwaitMark { event }, FinalizeInput::Marked(changed)) => match changed {
            None => refuses(next, a, Problem::FinalizeFailed),
            Some(n) => if n == 0 {
                refuses(next, a, Problem::ReceiptAlreadyFinalized)
            } else {
                next == (FinalizeState::AwaitInsert { event }) && a == (FinalizeAction::InsertEvent {
                    event,
                })
            },
        },
        (FinalizeState::AwaitInsert { event }, FinalizeInput::Inserted(ok)) => if ok {
            next == (FinalizeState::AwaitCommit { event }) && a == FinalizeAction::Commit
        } else {
            refuses(next, a, Problem::AuditWriteFailed)
        },
        (FinalizeState::AwaitCommit { event }, FinalizeInput::Committed(ok)) => if ok {
            next == (FinalizeState::AwaitBackup { event }) && a == FinalizeAction::WriteBackup
        } else {
            refuses(next, a, Problem::FinalizeCommitFailed)
        },
        (FinalizeState::AwaitBackup { event }, FinalizeInput::BackupWritten(ok)) => if ok {
            next == FinalizeState::Finished && a == FinalizeAction::Answer(
                Ok(
                    FinalizeAnswer {
                        event_hash: event.hash,
                        sequence: event.sequence,
                        created_at: event.at,
                        idempotent: false,
                    },
                ),
            )
        } else {
            refuses(next, a, Problem::BackupFailed)
        },
        _ => refuses(next, a, Problem::FinalizeFailed),
    }
}

/// Whether an input can be taken in a state without overflowing the event sequence.
pub open spec fn finalize_input_in_range(i: FinalizeInput) -> bool {
    i matches FinalizeInput::LastSequence(Some(v)) ==> v < i64::MAX
}

fn plan_event(
    receipt_id: &str,
    sequence: i64,
    previous: &str,
    received_by: Option<String>,
    last_summary: Option<String>,
) -> (r: (FinalizeState, FinalizeAction))
    ensures
        r.0 matches FinalizeState::AwaitMark { event } && r.1 == (FinalizeAction::MarkFinalized {
            at: event.at,
        }) && is_finalization_event(
            event,
            receipt_id@,
            sequence as int,
            previous@,
            received_by,
            last_summary,
        ),
{
    let at = now();
    let event = match (&received_by, &last_summary) {
        (Some(r), Some(l)) => plan_finalization(
            receipt_id,
            sequence,
            previous,
            at.as_str(),
            Some(r.as_str()),
            Some(l.as_str()),
        ),
        (Some(r), None) => plan_finalization(
            receipt_id,
            sequence,
            previous,
            at.as_str(),
            Some(r.as_str()),
            None,
        ),
        (None, Some(l)) => plan_finalization(
            receipt_id,
            sequence,
            previous,
            at.as_str(),
            None,
            Some(l.as_str()),
        ),
        (None, None) => plan_finalization(receipt_id, sequence, previous, at.as_str(), None, None),
    };
    let a = FinalizeAction::MarkFinalized { at: event.at.clone() };
    proof {
        assert(a == (FinalizeAction::MarkFinalized { at: event.at }));
    }
    (FinalizeState::AwaitMark { event }, a)
}

/// Takes one step of finalizing the receipt `receipt_id`.
pub fn finalize_step(receipt_id: &str, state: FinalizeState, input: FinalizeInput) -> (r: (
    FinalizeState,
    FinalizeAction,
))
    requires
        finalize_input_in_range(input),
    ensures
        finalize_transition(receipt_id@, state, input, r.0, r.1),
{
    match (state, input) {
        (FinalizeState::Start, FinalizeInput::Begin) => (
            FinalizeState::AwaitReceipt,
            FinalizeAction::LoadReceipt,
        ),
        (FinalizeState::AwaitReceipt, FinalizeInput::Receipt(found)) => {
            let stored_state = match &found {
                Some(r) => Some(r.state.as_str()),
                None => None,
            };
            match finalize_start(stored_state) {
                Err(p) => (FinalizeState::Finished, FinalizeAction::Answer(Err(p))),
                Ok(FinalizeStart::Repeat) => (
                    FinalizeState::AwaitRepeatBackup,
                    FinalizeAction::WriteBackup,
                ),
                Ok(FinalizeStart::Fresh) => match found {
                    Some(r) => {
                        let snapshot = receipt_snapshot(r.state, r.payload.as_str());
                        (
                            FinalizeState::AwaitLastSequence {
                                received_by: snapshot.received_by,
                                last_summary: snapshot.last_summary,
                            },
                            FinalizeAction::LoadLastSequence,
                        )
                    },
                    None => (FinalizeState::Finished, FinalizeAction::Answer(Err(Problem::ReceiptNotFound))),
                },
            }
        },
        (FinalizeState::AwaitRepeatBackup, FinalizeInput::BackupWritten(ok)) => {
            if ok {
                (FinalizeState::AwaitRecorded, FinalizeAction::LoadRecordedFinalization)
            } else {
                match repeat_finalization(false, None) {
                    Ok(_) => (FinalizeState::Finished, FinalizeAction::Answer(Err(Problem::FinalizeFailed))),
                    Err(p) => (FinalizeState::Finished, FinalizeAction::Answer(Err(p))),
                }
            }
        },
        (FinalizeState::AwaitRecorded, FinalizeInput::Recorded(recorded)) => {
            match repeat_finalization(true, recorded) {
                Ok(e) => (
                    FinalizeState::Finished,
                    FinalizeAction::Answer(
                        Ok(
                            FinalizeAnswer {
                                event_hash: e.hash,
                                sequence: e.sequence,
                                created_at: e.created_at,
                                idempotent: true,
                            },
                        ),
                    ),
                ),
                Err(p) => (FinalizeState::Finished, FinalizeAction::Answer(Err(p))),
            }
        },
        (
            FinalizeState::AwaitLastSequence { received_by, last_summary },
            FinalizeInput::LastSequence(last),
        ) => {
            let sequence = next_sequence(last);
            if links_to_predecessor(sequence) {
                (
                    FinalizeState::AwaitPreviousHash { sequence, received_by, last_summary },
                    FinalizeAction::LoadEventHash { sequence: sequence - 1 },
                )
            } else {
                plan_event(receipt_id, 1, "GENESIS", received_by, last_summary)
            }
        },
        (
            FinalizeState::AwaitPreviousHash { sequence, received_by, last_summary },
            FinalizeInput::EventHash(found),
        ) => {
            let previous = finalization_previous_hash(sequence, found);
            plan_event(receipt_id, sequence, previous.as_str(), received_by, last_summary)
        },
        (FinalizeState::AwaitMark { event }, FinalizeInput::Marked(changed)) => match changed {
            None => (FinalizeState::Finished, FinalizeAction::Answer(Err(Problem::FinalizeFailed))),
            Some(n) => match finalization_update(n) {
                Err(p) => (FinalizeState::Finished, FinalizeAction::Answer(Err(p))),
                Ok(()) => {
                    let e = event.duplicate();
                    (FinalizeState::AwaitInsert { event }, FinalizeAction::InsertEvent { event: e })
                },
            },
        },
        (FinalizeState::AwaitInsert { event }, FinalizeInput::Inserted(ok)) => {
            if ok {
                (FinalizeState::AwaitCommit { event }, FinalizeAction::Commit)
            } else {
                (FinalizeState::Finished, FinalizeAction::Answer(Err(Problem::AuditWriteFailed)))
            }
        },
        (FinalizeState::AwaitCommit { event }, FinalizeInput::Committed(ok)) => {
            if ok {
                (FinalizeState::AwaitBackup { event }, FinalizeAction::WriteBackup)
            } else {
                (
                    FinalizeState::Finished,
                    FinalizeAction::Answer(Err(Problem::FinalizeCommitFailed)),
                )
            }
        },
        (FinalizeState::AwaitBackup { event }, FinalizeInput::BackupWritten(ok)) => {
            if ok {
                (
                    FinalizeState::Finished,
                    FinalizeAction::Answer(
                        Ok(
                            FinalizeAnswer {
                                event_hash: event.hash,
                                sequence: event.sequence,
                                created_at: event.at,
                                idempotent: false,
                            },
                        ),
                    ),
                )
            } else {
                (FinalizeState::Finished, FinalizeAction::Answer(Err(Problem::BackupFailed)))
            }
        },
        _ => (FinalizeState::Finished, FinalizeAction::Answer(Err(Problem::FinalizeFailed))),
    }
}

/// Whether the action changes stored records.
pub open spec fn writes(a: FinalizeAction) -> bool {
    a is MarkFinalized || a is InsertEvent || a is Commit
}

/// A receipt finalized before is answered from its stored event: once the machine is on
/// that path it stays there and never changes stored records.
pub proof fn lemma_repeat_finalization_never_writes(
    receipt_id: Seq<char>,
    s: FinalizeState,
    i: FinalizeInput,
    next: FinalizeState,
    a: FinalizeAction,
)
    requires
        finalize_transition(receipt_id, s, i, next, a),
        s == FinalizeState::AwaitRepeatBackup || s == FinalizeState::AwaitRecorded,
    ensures
        next == FinalizeState::AwaitRecorded || next == FinalizeState::Finished,
        !writes(a),
{
}

/// A receipt found finalized is taken down the repeat path.
pub proof fn lemma_finalized_receipt_takes_repeat_path(
    receipt_id: Seq<char>,
    r: StoredReceipt,
    next: FinalizeState,
    a: FinalizeAction,
)
    requires
        finalize_transition(
            receipt_id,
            FinalizeState::AwaitReceipt,
            FinalizeInput::Receipt(Some(r)),
            next,
            a,
        ),
        r.state@ == "finalized"@,
    ensures
        next == FinalizeState::AwaitRepeatBackup,
        !writes(a),
{
}

/// A new finalization is answered as done only once its transaction committed and the
/// backup was written afterwards.
pub proof fn lemma_fresh_answer_follows_commit_and_backup(
    receipt_id: Seq<char>,
    s: FinalizeState,
    i: FinalizeInput,
    next: FinalizeState,
    answer: FinalizeAnswer,
    prior: FinalizeState,
    prior_input: FinalizeInput,
    prior_action: FinalizeAction,
)
    requires
        finalize_transition(receipt_id, s, i, next, FinalizeAction::Answer(Ok(answer))),
        !answer.idempotent,
        finalize_transition(receipt_id, prior, prior_input, s, prior_action),
    ensures
        s is AwaitBackup,
        i == FinalizeInput::BackupWritten(true),
        prior is AwaitCommit,
        prior_input == FinalizeInput::Committed(true),
{
}

/// A finalization is timed by the clock: the event a step plans is timed at the RFC 3339
/// text of an instant the clock gave, the receipt is marked finalized at that same time, and
/// the event's hash covers it.
pub proof fn law_finalization_is_timed_by_the_clock(
    receipt_id: Seq<char>,
    s: FinalizeState,
    i: FinalizeInput,
    next: FinalizeState,
    a: FinalizeAction,
)
    requires
        finalize_transition(receipt_id, s, i, next, a),
        a is MarkFinalized,
    ensures
        next matches FinalizeState::AwaitMark { event } && a->at == event.at && (exists|t: Instant|
            #![trigger is_clock_reading(t)]
            is_clock_reading(t) && rfc3339_seconds_text(t.secs as int) == Some(event.at@))
            && event.hash@ == crate::audit::audit_digest(
            event.id@,
            event.sequence as int,
            "finalized"@,
            event.at@,
            event.actor@,
            event.summary@,
            event.previous_hash@,
        ),
{
}

/// Whether `at` is the RFC 3339 text of an instant the clock gave.
pub open spec fn clock_timed(at: Seq<char>) -> bool {
    exists|t: Instant|
        #![trigger is_clock_reading(t)]
        is_clock_reading(t) && rfc3339_seconds_text(t.secs as int) == Some(at)
}

/// Whether the event a state holds, if any, is timed by the clock.
pub open spec fn event_clock_timed(s: FinalizeState) -> bool {
    match s {
        FinalizeState::AwaitMark { event } => clock_timed(event.at@),
        FinalizeState::AwaitInsert { event } => clock_timed(event.at@),
        FinalizeState::AwaitCommit { event } => clock_timed(event.at@),
        FinalizeState::AwaitBackup { event } => clock_timed(event.at@),
        _ => true,
    }
}

/// Every finalization event, and the time a new finalization answers with, is a clock
/// reading: each step keeps the event it holds timed by the clock, and every event it
/// stores and every new answer it gives carries such a time.
pub proof fn law_finalization_events_stay_timed_by_the_clock(
    receipt_id: Seq<char>,
    s: FinalizeState,
    i: FinalizeInput,
    next: FinalizeState,
    a: FinalizeAction,
)
    requires
        finalize_transition(receipt_id, s, i, next, a),
        event_clock_timed(s),
    ensures
        event_clock_timed(next),
        a matches FinalizeAction::MarkFinalized { at } ==> clock_timed(at@),
        a matches FinalizeAction::InsertEvent { event } ==> clock_timed(event.at@),
        a matches FinalizeAction::Answer(Ok(answer)) ==> (!answer.idempotent ==> clock_timed(
            answer.created_at@,
        )),
{
}

} // verus!
