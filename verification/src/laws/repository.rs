//! What the calls of the repository do to the tables, said of the tables before and
//! after.

use vstd::prelude::*;
use super::answers::given_up;
use super::rows::{
    event_added, only_event_gone, only_event_moved, only_invoice_changed, same_cancellation,
    same_delivery, same_invoice, same_plan, same_validation,
};
use crate::invoice::InvoiceStatus;
use crate::repo::{EventKind, InvoiceRepo, RepoView, SubmissionCompletion};

verus! {

/// Whether what the delivery brought is in the row, and all else is as it was.
pub open spec fn completes_submission(
    before: RepoView,
    after: RepoView,
    id: Seq<char>,
    event: i64,
    completion: SubmissionCompletion<'_>,
    now: i64,
) -> bool {
    let was = before.invoices[id];
    let row = after.invoices[id];
    &&& row.lhdn_status == InvoiceStatus::Submitted
    &&& row.lhdn_submission_uid == Some(completion.submission_uid@)
    &&& row.lhdn_uuid == Some(completion.lhdn_uuid@)
    &&& row.signature == Some(completion.signature_b64@)
    &&& row.ubl_xml == Some(completion.signed_document_utf8@)
    &&& row.doc_digest == Some(completion.document_hash_b64@)
    &&& row.submitted_at == Some(now)
    &&& row.error_json is None
    &&& row.next_attempt_at is None
    &&& row.attempts == was.attempts
    &&& row.updated_at == now
    &&& same_invoice(was, row)
    &&& same_validation(was, row)
    &&& same_cancellation(was, row)
    &&& only_invoice_changed(before, after, id)
    &&& event_added(before, after, Some(event), id, EventKind::Poll, now)
}

/// A completed submission is written into the row, and an event to poll takes the
/// place of the event.
pub proof fn law_complete_submission_fills_the_row()
    ensures
        forall|
            repo: &mut InvoiceRepo,
            id: &str,
            event: i64,
            completion: SubmissionCompletion<'_>,
            now: i64,
        |
            #[trigger] call_ensures(
                InvoiceRepo::complete_submission_at,
                (repo, id, event, completion, now),
                (),
            )
                && mut_ref_current(repo)@.invoices.contains_key(id@)
                && mut_ref_current(repo)@.next_outbox_id < i64::MAX
                && event < mut_ref_current(repo)@.next_outbox_id ==> completes_submission(
                mut_ref_current(repo)@,
                mut_ref_future(repo)@,
                id@,
                event,
                completion,
                now,
            ),
{
}

/// Whether the row is `Failed` with the error, and all else is as it was.
pub open spec fn fails(
    before: RepoView,
    after: RepoView,
    id: Seq<char>,
    event: i64,
    attempts: i64,
    error_json: Seq<char>,
    now: i64,
) -> bool {
    let was = before.invoices[id];
    let row = after.invoices[id];
    &&& row.lhdn_status == InvoiceStatus::Failed
    &&& row.attempts == attempts
    &&& row.error_json == Some(error_json)
    &&& row.next_attempt_at is None
    &&& row.updated_at == now
    &&& same_invoice(was, row)
    &&& same_delivery(was, row)
    &&& same_validation(was, row)
    &&& same_cancellation(was, row)
    &&& only_invoice_changed(before, after, id)
    &&& only_event_gone(before, after, event)
}

/// A delivery that is given up is `Failed` in the row, and its event is gone.
pub proof fn law_fail_permanently_fills_the_row()
    ensures
        forall|
            repo: &mut InvoiceRepo,
            id: &str,
            event: i64,
            attempts: i64,
            error_json: &str,
            now: i64,
        |
            #[trigger] call_ensures(
                InvoiceRepo::fail_permanently_at,
                (repo, id, event, attempts, error_json, now),
                (),
            )
                && mut_ref_current(repo)@.invoices.contains_key(id@) ==> fails(
                mut_ref_current(repo)@,
                mut_ref_future(repo)@,
                id@,
                event,
                attempts,
                error_json@,
                now,
            ),
{
}

/// Whether row and event wait for the same time, and all else is as it was.
pub open spec fn reschedules(
    before: RepoView,
    after: RepoView,
    id: Seq<char>,
    event: i64,
    attempts: i64,
    at: i64,
    error_json: Seq<char>,
    last_error: Seq<char>,
    now: i64,
) -> bool {
    let was = before.invoices[id];
    let row = after.invoices[id];
    &&& row.lhdn_status == was.lhdn_status
    &&& row.attempts == attempts
    &&& row.error_json == Some(error_json)
    &&& row.next_attempt_at == Some(at)
    &&& row.updated_at == now
    &&& same_invoice(was, row)
    &&& same_delivery(was, row)
    &&& same_validation(was, row)
    &&& same_cancellation(was, row)
    &&& only_invoice_changed(before, after, id)
    &&& only_event_moved(before, after, event, attempts as int, at as int, Some(last_error))
}

/// A delivery that is put off leaves the status and moves row and event together.
pub proof fn law_reschedule_moves_row_and_event()
    ensures
        forall|
            repo: &mut InvoiceRepo,
            id: &str,
            event: i64,
            attempts: i64,
            at: i64,
            error_json: &str,
            last_error: &str,
            now: i64,
        |
            #[trigger] call_ensures(
                InvoiceRepo::reschedule_at,
                (repo, id, event, attempts, at, error_json, last_error, now),
                (),
            )
                && mut_ref_current(repo)@.invoices.contains_key(id@) ==> reschedules(
                mut_ref_current(repo)@,
                mut_ref_future(repo)@,
                id@,
                event,
                attempts,
                at,
                error_json@,
                last_error@,
                now,
            ),
{
}

/// Whether the row is `Valid` with what LHDN gave it, and all else is as it was.
pub open spec fn validates(
    before: RepoView,
    after: RepoView,
    id: Seq<char>,
    event: i64,
    long_id: Seq<char>,
    qr_url: Seq<char>,
    validated_at: i64,
    until: i64,
    now: i64,
) -> bool {
    let was = before.invoices[id];
    let row = after.invoices[id];
    &&& row.lhdn_status == InvoiceStatus::Valid
    &&& row.lhdn_long_id == Some(long_id)
    &&& row.qr_url == Some(qr_url)
    &&& row.validated_at == Some(validated_at)
    &&& row.cancellable_until == Some(until)
    &&& row.error_json == was.error_json
    &&& row.updated_at == now
    &&& same_invoice(was, row)
    &&& same_delivery(was, row)
    &&& same_cancellation(was, row)
    &&& same_plan(was, row)
    &&& only_invoice_changed(before, after, id)
    &&& only_event_gone(before, after, event)
}

/// A validation is written into the row, and the event is gone.
pub proof fn law_mark_valid_fills_the_row()
    ensures
        forall|
            repo: &mut InvoiceRepo,
            id: &str,
            event: i64,
            long_id: &str,
            qr_url: &str,
            validated_at: i64,
            until: i64,
            now: i64,
        |
            #[trigger] call_ensures(
                InvoiceRepo::mark_valid,
                (repo, id, event, long_id, qr_url, validated_at, until, now),
                (),
            )
                && mut_ref_current(repo)@.invoices.contains_key(id@) ==> validates(
                mut_ref_current(repo)@,
                mut_ref_future(repo)@,
                id@,
                event,
                long_id@,
                qr_url@,
                validated_at,
                until,
                now,
            ),
{
}

/// Whether the row is `Invalid` with the error, and all else is as it was.
pub open spec fn invalidates(
    before: RepoView,
    after: RepoView,
    id: Seq<char>,
    event: i64,
    error_json: Seq<char>,
    now: i64,
) -> bool {
    let was = before.invoices[id];
    let row = after.invoices[id];
    &&& row.lhdn_status == InvoiceStatus::Invalid
    &&& row.error_json == Some(error_json)
    &&& row.updated_at == now
    &&& same_invoice(was, row)
    &&& same_delivery(was, row)
    &&& same_validation(was, row)
    &&& same_cancellation(was, row)
    &&& same_plan(was, row)
    &&& only_invoice_changed(before, after, id)
    &&& only_event_gone(before, after, event)
}

/// A refusal by LHDN is written into the row, and the event is gone.
pub proof fn law_mark_invalid_fills_the_row()
    ensures
        forall|
            repo: &mut InvoiceRepo,
            id: &str,
            event: i64,
            error_json: &str,
            now: i64,
        |
            #[trigger] call_ensures(
                InvoiceRepo::mark_invalid,
                (repo, id, event, error_json, now),
                (),
            )
                && mut_ref_current(repo)@.invoices.contains_key(id@) ==> invalidates(
                mut_ref_current(repo)@,
                mut_ref_future(repo)@,
                id@,
                event,
                error_json@,
                now,
            ),
{
}

/// Whether the row is `Cancelled` at its time, and all else is as it was.
pub open spec fn cancels(
    before: RepoView,
    after: RepoView,
    id: Seq<char>,
    event: i64,
    at: i64,
    now: i64,
) -> bool {
    let was = before.invoices[id];
    let row = after.invoices[id];
    &&& row.lhdn_status == InvoiceStatus::Cancelled
    &&& row.cancelled_at == Some(at)
    &&& row.cancellation_reason == was.cancellation_reason
    &&& row.error_json == was.error_json
    &&& row.updated_at == now
    &&& same_invoice(was, row)
    &&& same_delivery(was, row)
    &&& same_validation(was, row)
    &&& same_plan(was, row)
    &&& only_invoice_changed(before, after, id)
    &&& only_event_gone(before, after, event)
}

/// A cancellation that LHDN reports is written into the row, and the event is gone.
pub proof fn law_mark_cancelled_fills_the_row()
    ensures
        forall|
            repo: &mut InvoiceRepo,
            id: &str,
            event: i64,
            at: i64,
            now: i64,
        |
            #[trigger] call_ensures(
                InvoiceRepo::mark_cancelled_via_poll,
                (repo, id, event, at, now),
                (),
            )
                && mut_ref_current(repo)@.invoices.contains_key(id@)
                ==> cancels(mut_ref_current(repo)@, mut_ref_future(repo)@, id@, event, at, now),
{
}

/// Whether the row is `Cancelled` now, and all else is as it was.
pub open spec fn cancels_now(
    before: RepoView,
    after: RepoView,
    id: Seq<char>,
    event: i64,
    now: i64,
) -> bool {
    cancels(before, after, id, event, now, now)
}

/// A cancellation that was asked for is written into the row, now.
pub proof fn law_complete_cancel_fills_the_row()
    ensures
        forall|
            repo: &mut InvoiceRepo,
            id: &str,
            event: i64,
            now: i64,
        |
            #[trigger] call_ensures(InvoiceRepo::complete_cancel, (repo, id, event, now), ())
                && mut_ref_current(repo)@.invoices.contains_key(id@)
                ==> cancels_now(mut_ref_current(repo)@, mut_ref_future(repo)@, id@, event, now),
{
}

/// Whether the poll was given up with the error.
pub open spec fn gives_up_poll(
    before: RepoView,
    after: RepoView,
    id: Seq<char>,
    event: i64,
    error_json: Seq<char>,
    now: i64,
) -> bool {
    given_up(before, after, id, event, error_json, now)
}

/// A poll that is given up leaves the status and keeps the error.
pub proof fn law_fail_poll_leaves_the_status()
    ensures
        forall|
            repo: &mut InvoiceRepo,
            id: &str,
            event: i64,
            error_json: &str,
            now: i64,
        |
            #[trigger] call_ensures(InvoiceRepo::fail_poll, (repo, id, event, error_json, now), ())
                && mut_ref_current(repo)@.invoices.contains_key(id@) ==> gives_up_poll(
                mut_ref_current(repo)@,
                mut_ref_future(repo)@,
                id@,
                event,
                error_json@,
                now,
            ),
{
}

/// Whether the cancellation was given up with the error.
pub open spec fn gives_up_cancel(
    before: RepoView,
    after: RepoView,
    id: Seq<char>,
    event: i64,
    error_json: Seq<char>,
    now: i64,
) -> bool {
    given_up(before, after, id, event, error_json, now)
}

/// A cancellation that is given up leaves the status and keeps the error.
pub proof fn law_fail_cancel_leaves_the_status()
    ensures
        forall|
            repo: &mut InvoiceRepo,
            id: &str,
            event: i64,
            error_json: &str,
            now: i64,
        |
            #[trigger] call_ensures(
                InvoiceRepo::fail_cancel,
                (repo, id, event, error_json, now),
                (),
            )
                && mut_ref_current(repo)@.invoices.contains_key(id@) ==> gives_up_cancel(
                mut_ref_current(repo)@,
                mut_ref_future(repo)@,
                id@,
                event,
                error_json@,
                now,
            ),
{
}

/// Whether the event waits for another time, and all else is as it was.
pub open spec fn puts_off_poll(
    before: RepoView,
    after: RepoView,
    event: i64,
    attempts: i64,
    at: i64,
    last_error: Option<&str>,
) -> bool {
    let error = match last_error {
        Some(text) => Some(text@),
        None => None,
    };
    &&& after.invoices == before.invoices
    &&& only_event_moved(before, after, event, attempts as int, at as int, error)
}

/// A poll that is put off moves the event alone.
pub proof fn law_reschedule_poll_moves_the_event()
    ensures
        forall|
            repo: &mut InvoiceRepo,
            event: i64,
            attempts: i64,
            at: i64,
            last_error: Option<&str>,
        |
            #[trigger] call_ensures(
                InvoiceRepo::reschedule_poll,
                (repo, event, attempts, at, last_error),
                (),
            ) ==> puts_off_poll(
                mut_ref_current(repo)@,
                mut_ref_future(repo)@,
                event,
                attempts,
                at,
                last_error,
            ),
{
}

/// Whether the event waits for another time, and all else is as it was.
pub open spec fn puts_off_cancellation(
    before: RepoView,
    after: RepoView,
    event: i64,
    attempts: i64,
    at: i64,
    last_error: Seq<char>,
) -> bool {
    &&& after.invoices == before.invoices
    &&& only_event_moved(before, after, event, attempts as int, at as int, Some(last_error))
}

/// A cancellation that is put off moves the event alone.
pub proof fn law_reschedule_cancel_moves_the_event()
    ensures
        forall|
            repo: &mut InvoiceRepo,
            event: i64,
            attempts: i64,
            at: i64,
            last_error: &str,
        |
            #[trigger] call_ensures(
                InvoiceRepo::reschedule_cancel,
                (repo, event, attempts, at, last_error),
                (),
            ) ==> puts_off_cancellation(
                mut_ref_current(repo)@,
                mut_ref_future(repo)@,
                event,
                attempts,
                at,
                last_error@,
            ),
{
}

} // verus!
