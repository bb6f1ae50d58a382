//! What each milestone writes into the tables, and what it leaves.

use vstd::prelude::*;
use crate::invoice::{
    CompletionView, InvoiceRecord, InvoiceRow, InvoiceStatus, InvoiceView, SubmissionCompletion,
};
use crate::lhdn::models::optional_text;
use crate::repo::due::{cancel_ids, poll_ids, submit_ids};
use crate::repo::{
    slice_text, DueCancelEvent, DuePollEvent, DueSubmitEvent, EventKind,
    InvoiceForCancel, InvoiceForPoll, InvoiceForSubmit, OutboxEvent, RepoView,
};

verus! {

/// Whether the row is that of the same invoice, with what the POS sent.
pub open spec fn same_invoice(before: InvoiceView, after: InvoiceView) -> bool {
    &&& after.id == before.id
    &&& after.invoice_ref == before.invoice_ref
    &&& after.payload_json == before.payload_json
    &&& after.created_at == before.created_at
}

/// Whether what the delivery brought is the same.
pub open spec fn same_delivery(before: InvoiceView, after: InvoiceView) -> bool {
    &&& after.lhdn_submission_uid == before.lhdn_submission_uid
    &&& after.lhdn_uuid == before.lhdn_uuid
    &&& after.signature == before.signature
    &&& after.ubl_xml == before.ubl_xml
    &&& after.doc_digest == before.doc_digest
    &&& after.submitted_at == before.submitted_at
}

/// Whether what LHDN's validation brought is the same.
pub open spec fn same_validation(before: InvoiceView, after: InvoiceView) -> bool {
    &&& after.lhdn_long_id == before.lhdn_long_id
    &&& after.qr_url == before.qr_url
    &&& after.validated_at == before.validated_at
    &&& after.cancellable_until == before.cancellable_until
}

/// Whether what cancelling brought is the same.
pub open spec fn same_cancellation(before: InvoiceView, after: InvoiceView) -> bool {
    &&& after.cancellation_reason == before.cancellation_reason
    &&& after.cancelled_at == before.cancelled_at
}

/// Whether what is planned for the delivery is the same.
pub open spec fn same_plan(before: InvoiceView, after: InvoiceView) -> bool {
    &&& after.attempts == before.attempts
    &&& after.next_attempt_at == before.next_attempt_at
}

/// Whether the same invoices are there, all as they were but for this one.
pub open spec fn only_invoice_changed(before: RepoView, after: RepoView, id: Seq<char>) -> bool {
    &&& forall|k: Seq<char>| #[trigger]
        after.invoices.contains_key(k) <==> before.invoices.contains_key(k)
    &&& forall|k: Seq<char>| #[trigger]
        after.invoices.contains_key(k) && k != id ==> after.invoices[k] == before.invoices[k]
}

/// Whether the event is gone and every other one is as it was.
pub open spec fn only_event_gone(before: RepoView, after: RepoView, event: i64) -> bool {
    &&& !after.outbox.contains_key(event)
    &&& forall|e: i64| #[trigger]
        after.outbox.contains_key(e) <==> before.outbox.contains_key(e) && e != event
    &&& forall|e: i64| #[trigger]
        after.outbox.contains_key(e) ==> after.outbox[e] == before.outbox[e]
    &&& after.next_outbox_id == before.next_outbox_id
}

/// Whether the event waits for another time, with another count of attempts and
/// another error, and is otherwise as it was, like every other event.
pub open spec fn only_event_moved(
    before: RepoView,
    after: RepoView,
    event: i64,
    attempts: int,
    available_at: int,
    last_error: Option<Seq<char>>,
) -> bool {
    &&& forall|e: i64| #[trigger]
        after.outbox.contains_key(e) <==> before.outbox.contains_key(e)
    &&& forall|e: i64| #[trigger]
        after.outbox.contains_key(e) && e != event ==> after.outbox[e] == before.outbox[e]
    &&& before.outbox.contains_key(event) ==> {
        &&& after.outbox[event].id == before.outbox[event].id
        &&& after.outbox[event].invoice_id == before.outbox[event].invoice_id
        &&& after.outbox[event].kind == before.outbox[event].kind
        &&& after.outbox[event].attempts == attempts
        &&& after.outbox[event].available_at == available_at
        &&& after.outbox[event].last_error == last_error
    }
    &&& after.next_outbox_id == before.next_outbox_id
}

/// Whether an event that is due at once is there under the next number, on top of
/// those that were there but for the one that is gone.
pub open spec fn event_added(
    before: RepoView,
    after: RepoView,
    gone: Option<i64>,
    id: Seq<char>,
    kind: EventKind,
    now: i64,
) -> bool {
    let new = before.next_outbox_id;
    &&& after.outbox.contains_key(new)
    &&& after.outbox[new].id == new
    &&& after.outbox[new].invoice_id == id
    &&& after.outbox[new].kind == kind
    &&& after.outbox[new].available_at == now
    &&& after.outbox[new].attempts == 0
    &&& after.outbox[new].last_error is None
    &&& forall|e: i64| #[trigger]
        after.outbox.contains_key(e) <==> e == new || (before.outbox.contains_key(e) && Some(e)
            != gone)
    &&& forall|e: i64| #[trigger]
        after.outbox.contains_key(e) && e != new ==> after.outbox[e] == before.outbox[e]
    &&& after.next_outbox_id == new + 1
}

/// What the API shows of an invoice is what the table holds of it, field by field
/// and in every status; the status is shown by its name.
pub proof fn law_shown_row_is_the_stored_one(invoice: InvoiceView)
    ensures
        invoice.row().id == invoice.id,
        invoice.row().invoice_ref == invoice.invoice_ref,
        invoice.row().lhdn_uuid == invoice.lhdn_uuid,
        invoice.row().qr_url == invoice.qr_url,
        invoice.row().error_json == invoice.error_json,
        invoice.row().attempts == invoice.attempts,
        invoice.row().created_at == invoice.created_at,
        invoice.row().updated_at == invoice.updated_at,
        invoice.lhdn_status == InvoiceStatus::Pending ==> invoice.row().lhdn_status == "Pending"@,
        invoice.lhdn_status == InvoiceStatus::Submitted ==> invoice.row().lhdn_status
            == "Submitted"@,
        invoice.lhdn_status == InvoiceStatus::Valid ==> invoice.row().lhdn_status == "Valid"@,
        invoice.lhdn_status == InvoiceStatus::Invalid ==> invoice.row().lhdn_status == "Invalid"@,
        invoice.lhdn_status == InvoiceStatus::Cancelled ==> invoice.row().lhdn_status
            == "Cancelled"@,
        invoice.lhdn_status == InvoiceStatus::Failed ==> invoice.row().lhdn_status == "Failed"@,
{
}

/// In every state, a `Valid` invoice is shown with its UUID and its QR URL, and one
/// that LHDN never took in is shown with neither.
pub proof fn law_valid_invoices_are_shown_with_uuid_and_qr(repo: RepoView, id: Seq<char>)
    requires
        repo.consistent(),
        repo.invoices.contains_key(id),
    ensures
        repo.invoices[id].lhdn_status == InvoiceStatus::Valid ==> repo.invoices[id].row().lhdn_uuid
            is Some && repo.invoices[id].row().qr_url is Some,
        repo.invoices[id].lhdn_status == InvoiceStatus::Submitted
            ==> repo.invoices[id].row().lhdn_uuid is Some && repo.invoices[id].row().qr_url is None,
        repo.invoices[id].lhdn_status == InvoiceStatus::Pending || repo.invoices[id].lhdn_status
            == InvoiceStatus::Failed ==> repo.invoices[id].row().lhdn_uuid is None
            && repo.invoices[id].row().qr_url is None,
{
}

/// The text in an optional string is that string's, and there is one exactly where
/// there is a string.
pub proof fn law_optional_texts_are_read_as_they_are(text: Option<String>, slice: Option<&str>)
    ensures
        optional_text(text) is Some <==> text is Some,
        text matches Some(t) ==> optional_text(text) == Some(t@),
        slice_text(slice) is Some <==> slice is Some,
        slice matches Some(t) ==> slice_text(slice) == Some(t@),
{
}

/// A stored invoice is seen with each of its fields.
pub proof fn law_records_are_seen_whole(record: InvoiceRecord)
    ensures
        record@.id == record.id@,
        record@.invoice_ref == record.invoice_ref@,
        record@.payload_json == record.payload_json@,
        record@.lhdn_status == record.lhdn_status,
        record@.lhdn_submission_uid == optional_text(record.lhdn_submission_uid),
        record@.lhdn_uuid == optional_text(record.lhdn_uuid),
        record@.lhdn_long_id == optional_text(record.lhdn_long_id),
        record@.qr_url == optional_text(record.qr_url),
        record@.signature == optional_text(record.signature),
        record@.ubl_xml == optional_text(record.ubl_xml),
        record@.doc_digest == optional_text(record.doc_digest),
        record@.error_json == optional_text(record.error_json),
        record@.cancellation_reason == optional_text(record.cancellation_reason),
        record@.attempts == record.attempts,
        record@.created_at == record.created_at,
        record@.updated_at == record.updated_at,
        record@.submitted_at == record.submitted_at,
        record@.validated_at == record.validated_at,
        record@.cancelled_at == record.cancelled_at,
        record@.cancellable_until == record.cancellable_until,
        record@.next_attempt_at == record.next_attempt_at,
{
}

/// A shown row is seen with each of its fields.
pub proof fn law_shown_rows_are_seen_whole(row: InvoiceRow)
    ensures
        row@.id == row.id@,
        row@.invoice_ref == row.invoice_ref@,
        row@.lhdn_status == row.lhdn_status@,
        row@.lhdn_uuid == optional_text(row.lhdn_uuid),
        row@.qr_url == optional_text(row.qr_url),
        row@.error_json == optional_text(row.error_json),
        row@.attempts == row.attempts,
        row@.created_at == row.created_at,
        row@.updated_at == row.updated_at,
{
}

/// An event and what a delivery brought are seen with each of their fields.
pub proof fn law_events_are_seen_whole(event: OutboxEvent, completion: SubmissionCompletion<'_>)
    ensures
        event@.id == event.id,
        event@.invoice_id == event.invoice_id@,
        event@.kind == event.kind,
        event@.available_at == event.available_at,
        event@.attempts == event.attempts,
        event@.last_error == optional_text(event.last_error),
        completion@.submission_uid == completion.submission_uid@,
        completion@.lhdn_uuid == completion.lhdn_uuid@,
        completion@.signature_b64 == completion.signature_b64@,
        completion@.signed_document_utf8 == completion.signed_document_utf8@,
        completion@.document_hash_b64 == completion.document_hash_b64@,
{
}

/// What a worker gets of an invoice is what the table holds of it.
pub proof fn law_workers_get_the_stored_fields(
    row: InvoiceView,
    submit: InvoiceForSubmit,
    poll: InvoiceForPoll,
    cancel: InvoiceForCancel,
)
    ensures
        submit.is_part_of(row) <==> submit.id@ == row.id && submit.invoice_ref@ == row.invoice_ref
            && submit.payload_json@ == row.payload_json && submit.attempts == row.attempts,
        poll.is_part_of(row) <==> poll.id@ == row.id && poll.invoice_ref@ == row.invoice_ref
            && optional_text(poll.lhdn_uuid) == row.lhdn_uuid,
        cancel.is_part_of(row) <==> cancel.id@ == row.id && cancel.invoice_ref@ == row.invoice_ref
            && optional_text(cancel.lhdn_uuid) == row.lhdn_uuid && optional_text(
            cancel.cancellation_reason,
        ) == row.cancellation_reason && cancel.cancellable_until == row.cancellable_until,
{
}

/// What a worker gets of an event is what the outbox holds of it.
pub proof fn law_workers_get_the_stored_events(
    repo: RepoView,
    submit: DueSubmitEvent,
    poll: DuePollEvent,
    cancel: DueCancelEvent,
)
    ensures
        submit.is_in(repo) <==> repo.outbox.contains_key(submit.outbox_id)
            && repo.outbox[submit.outbox_id].kind == EventKind::Submit
            && repo.outbox[submit.outbox_id].invoice_id == submit.invoice_id@,
        poll.is_in(repo) <==> repo.outbox.contains_key(poll.outbox_id)
            && repo.outbox[poll.outbox_id].kind == EventKind::Poll
            && repo.outbox[poll.outbox_id].invoice_id == poll.invoice_id@
            && repo.outbox[poll.outbox_id].attempts == poll.attempts,
        cancel.is_in(repo) <==> repo.outbox.contains_key(cancel.outbox_id)
            && repo.outbox[cancel.outbox_id].kind == EventKind::Cancel
            && repo.outbox[cancel.outbox_id].invoice_id == cancel.invoice_id@
            && repo.outbox[cancel.outbox_id].attempts == cancel.attempts,
{
}

/// The numbers of events are theirs, in their order.
pub proof fn law_event_numbers_are_theirs(
    submit: Seq<DueSubmitEvent>,
    poll: Seq<DuePollEvent>,
    cancel: Seq<DueCancelEvent>,
    i: int,
)
    ensures
        submit_ids(submit).len() == submit.len(),
        poll_ids(poll).len() == poll.len(),
        cancel_ids(cancel).len() == cancel.len(),
        0 <= i < submit.len() ==> submit_ids(submit)[i] == submit[i].outbox_id,
        0 <= i < poll.len() ==> poll_ids(poll)[i] == poll[i].outbox_id,
        0 <= i < cancel.len() ==> cancel_ids(cancel)[i] == cancel[i].outbox_id,
{
}

/// The events that a pass takes up are of its kind and due, in the order of their
/// times and then of their numbers, no more than asked for; one that is left out
/// though it is due stands behind all of them, and only where the pass is full.
pub proof fn law_batches_are_in_order(
    repo: RepoView,
    kind: EventKind,
    now: i64,
    limit: i64,
    batch: Seq<i64>,
    i: int,
    j: int,
    left_out: i64,
)
    requires
        repo.is_due_batch(kind, now, limit, batch),
        0 <= i < batch.len(),
    ensures
        repo.outbox.contains_key(batch[i]),
        repo.outbox[batch[i]].kind == kind,
        repo.outbox[batch[i]].available_at <= now,
        limit >= 0 ==> batch.len() <= limit,
        i < j < batch.len() ==> repo.outbox[batch[i]].available_at
            <= repo.outbox[batch[j]].available_at,
        i < j < batch.len() && repo.outbox[batch[i]].available_at
            == repo.outbox[batch[j]].available_at ==> repo.outbox[batch[i]].id
            < repo.outbox[batch[j]].id,
        repo.outbox.contains_key(left_out) && repo.outbox[left_out].kind == kind
            && repo.outbox[left_out].available_at <= now && !batch.contains(left_out) ==> {
            &&& batch.len() == limit
            &&& repo.outbox[batch[i]].available_at <= repo.outbox[left_out].available_at
            &&& repo.outbox[batch[i]].available_at == repo.outbox[left_out].available_at
                ==> repo.outbox[batch[i]].id < repo.outbox[left_out].id
        },
{
    assert(repo.due(kind, now, batch[i]));
    if repo.outbox.contains_key(left_out) && repo.outbox[left_out].kind == kind
        && repo.outbox[left_out].available_at <= now {
        assert(repo.due(kind, now, left_out));
    }
}

/// An invoice is found by its reference and loaded by its id, as it stands, and
/// nothing is where no row has them.
pub proof fn law_invoices_are_found_as_they_stand(
    repo: RepoView,
    id: Seq<char>,
    invoice_ref: Seq<char>,
)
    ensures
        repo.invoices.contains_key(id) ==> repo.load(id) == Some(repo.invoices[id]),
        !repo.invoices.contains_key(id) ==> repo.load(id) is None,
        repo.invoices.contains_key(id) && repo.invoices[id].invoice_ref == invoice_ref && (forall|
            k: Seq<char>,
        | #[trigger]
            repo.invoices.contains_key(k) && repo.invoices[k].invoice_ref == invoice_ref ==> k
                == id) ==> repo.find(invoice_ref) == Some(repo.invoices[id]),
        (forall|k: Seq<char>| #[trigger]
            repo.invoices.contains_key(k) ==> repo.invoices[k].invoice_ref != invoice_ref)
            ==> repo.find(invoice_ref) is None,
{
    if repo.invoices.contains_key(id) && repo.invoices[id].invoice_ref == invoice_ref {
        let found = repo.id_of_ref(invoice_ref);
        assert(repo.invoices.contains_key(found) && repo.invoices[found].invoice_ref
            == invoice_ref);
    }
}

/// An invoice that comes in is `Pending`, holds what the POS sent and nothing
/// else, is to be delivered at once, and has an event for it. Other rows and
/// events stay.
pub proof fn law_coming_in_makes_a_pending_row(
    before: RepoView,
    id: Seq<char>,
    invoice_ref: Seq<char>,
    payload_json: Seq<char>,
    now: i64,
)
    requires
        before.next_outbox_id < i64::MAX,
        !before.invoices.contains_key(id),
    ensures
        ({
            let after = before.with_pending(id, invoice_ref, payload_json, now);
            let row = after.invoices[id];
            &&& after.invoices.contains_key(id)
            &&& row.id == id
            &&& row.invoice_ref == invoice_ref
            &&& row.payload_json == payload_json
            &&& row.created_at == now
            &&& row.updated_at == now
            &&& row.lhdn_status == InvoiceStatus::Pending
            &&& row.attempts == 0
            &&& row.next_attempt_at == Some(now)
            &&& row.error_json is None
            &&& row.lhdn_submission_uid is None && row.lhdn_uuid is None && row.signature is None
            &&& row.ubl_xml is None && row.doc_digest is None && row.submitted_at is None
            &&& row.lhdn_long_id is None && row.qr_url is None && row.validated_at is None
            &&& row.cancellable_until is None && row.cancellation_reason is None
                && row.cancelled_at is None
            &&& forall|k: Seq<char>| #[trigger]
                after.invoices.contains_key(k) <==> k == id || before.invoices.contains_key(k)
            &&& forall|k: Seq<char>| #[trigger]
                after.invoices.contains_key(k) && k != id ==> after.invoices[k]
                    == before.invoices[k]
            &&& event_added(before, after, None, id, EventKind::Submit, now)
        }),
{
}

/// A new invoice is refused exactly where its id or its reference is in use.
pub proof fn law_taken_means_in_use(before: RepoView, id: Seq<char>, invoice_ref: Seq<char>)
    ensures
        before.id_or_ref_taken(id, invoice_ref) <==> before.invoices.contains_key(id) || exists|
            k: Seq<char>,
        | #[trigger]
            before.invoices.contains_key(k) && before.invoices[k].invoice_ref == invoice_ref,
{
}

/// A delivery that LHDN took in makes the invoice `Submitted`, with what the
/// delivery brought and no error. The event makes room for one to ask for the
/// outcome.
pub proof fn law_submission_fills_the_row(
    before: RepoView,
    id: Seq<char>,
    event: i64,
    completion: CompletionView,
    now: i64,
)
    requires
        before.next_outbox_id < i64::MAX,
        before.invoices.contains_key(id),
        event < before.next_outbox_id,
    ensures
        ({
            let after = before.after_submission(id, event, completion, now);
            let was = before.invoices[id];
            let row = after.invoices[id];
            &&& row.lhdn_status == InvoiceStatus::Submitted
            &&& row.lhdn_submission_uid == Some(completion.submission_uid)
            &&& row.lhdn_uuid == Some(completion.lhdn_uuid)
            &&& row.signature == Some(completion.signature_b64)
            &&& row.ubl_xml == Some(completion.signed_document_utf8)
            &&& row.doc_digest == Some(completion.document_hash_b64)
            &&& row.submitted_at == Some(now)
            &&& row.error_json is None
            &&& row.next_attempt_at is None
            &&& row.attempts == was.attempts
            &&& row.updated_at == now
            &&& same_invoice(was, row)
            &&& same_validation(was, row)
            &&& same_cancellation(was, row)
            &&& only_invoice_changed(before, after, id)
            &&& event_added(before, after, Some(event), id, EventKind::Poll, now)
        }),
{
}

/// A delivery that is given up makes the invoice `Failed`, with the error and the
/// count of attempts, and removes the event.
pub proof fn law_failure_fills_the_row(
    before: RepoView,
    id: Seq<char>,
    event: i64,
    attempts: i64,
    error_json: Seq<char>,
    now: i64,
)
    requires
        before.invoices.contains_key(id),
    ensures
        ({
            let after = before.after_failure(id, event, attempts, error_json, now);
            let was = before.invoices[id];
            let row = after.invoices[id];
            &&& row.lhdn_status == InvoiceStatus::Failed
            &&& row.attempts == attempts
            &&& row.error_json == Some(error_json)
            &&& row.next_attempt_at is None
            &&& row.updated_at == now
            &&& same_invoice(was, row)
            &&& same_delivery(was, row)
            &&& same_validation(was, row)
            &&& same_cancellation(was, row)
            &&& only_invoice_changed(before, after, id)
            &&& only_event_gone(before, after, event)
        }),
{
}

/// A delivery that is put off leaves the invoice's status, counts the attempt,
/// keeps the error, and moves the invoice's next attempt and the event together.
pub proof fn law_rescheduling_moves_row_and_event(
    before: RepoView,
    id: Seq<char>,
    event: i64,
    attempts: i64,
    next_attempt_at: i64,
    error_json: Seq<char>,
    last_error: Seq<char>,
    now: i64,
)
    requires
        before.invoices.contains_key(id),
    ensures
        ({
            let after = before.after_reschedule(
                id,
                event,
                attempts,
                next_attempt_at,
                error_json,
                last_error,
                now,
            );
            let was = before.invoices[id];
            let row = after.invoices[id];
            &&& row.lhdn_status == was.lhdn_status
            &&& row.attempts == attempts
            &&& row.error_json == Some(error_json)
            &&& row.next_attempt_at == Some(next_attempt_at)
            &&& row.updated_at == now
            &&& same_invoice(was, row)
            &&& same_delivery(was, row)
            &&& same_validation(was, row)
            &&& same_cancellation(was, row)
            &&& only_invoice_changed(before, after, id)
            &&& only_event_moved(
                before,
                after,
                event,
                attempts as int,
                next_attempt_at as int,
                Some(last_error),
            )
        }),
{
}

/// A validation makes the invoice `Valid`, with what LHDN gave it and the time up
/// to which it can be cancelled, and removes the event.
pub proof fn law_validation_fills_the_row(
    before: RepoView,
    id: Seq<char>,
    event: i64,
    long_id: Seq<char>,
    qr_url: Seq<char>,
    validated_at: i64,
    cancellable_until: i64,
    now: i64,
)
    requires
        before.invoices.contains_key(id),
    ensures
        ({
            let after = before.after_validation(
                id,
                event,
                long_id,
                qr_url,
                validated_at,
                cancellable_until,
                now,
            );
            let was = before.invoices[id];
            let row = after.invoices[id];
            &&& row.lhdn_status == InvoiceStatus::Valid
            &&& row.lhdn_long_id == Some(long_id)
            &&& row.qr_url == Some(qr_url)
            &&& row.validated_at == Some(validated_at)
            &&& row.cancellable_until == Some(cancellable_until)
            &&& row.error_json == was.error_json
            &&& row.updated_at == now
            &&& same_invoice(was, row)
            &&& same_delivery(was, row)
            &&& same_cancellation(was, row)
            &&& same_plan(was, row)
            &&& only_invoice_changed(before, after, id)
            &&& only_event_gone(before, after, event)
        }),
{
}

/// A refusal by LHDN makes the invoice `Invalid`, with the error, and removes the
/// event.
pub proof fn law_invalidation_fills_the_row(
    before: RepoView,
    id: Seq<char>,
    event: i64,
    error_json: Seq<char>,
    now: i64,
)
    requires
        before.invoices.contains_key(id),
    ensures
        ({
            let after = before.after_invalidation(id, event, error_json, now);
            let was = before.invoices[id];
            let row = after.invoices[id];
            &&& row.lhdn_status == InvoiceStatus::Invalid
            &&& row.error_json == Some(error_json)
            &&& row.updated_at == now
            &&& same_invoice(was, row)
            &&& same_delivery(was, row)
            &&& same_validation(was, row)
            &&& same_cancellation(was, row)
            &&& same_plan(was, row)
            &&& only_invoice_changed(before, after, id)
            &&& only_event_gone(before, after, event)
        }),
{
}

/// A cancellation makes the invoice `Cancelled`, at its time, and removes the
/// event. The reason stays.
pub proof fn law_cancellation_fills_the_row(
    before: RepoView,
    id: Seq<char>,
    event: i64,
    cancelled_at: i64,
    now: i64,
)
    requires
        before.invoices.contains_key(id),
    ensures
        ({
            let after = before.after_cancellation(id, event, cancelled_at, now);
            let was = before.invoices[id];
            let row = after.invoices[id];
            &&& row.lhdn_status == InvoiceStatus::Cancelled
            &&& row.cancelled_at == Some(cancelled_at)
            &&& row.cancellation_reason == was.cancellation_reason
            &&& row.error_json == was.error_json
            &&& row.updated_at == now
            &&& same_invoice(was, row)
            &&& same_delivery(was, row)
            &&& same_validation(was, row)
            &&& same_plan(was, row)
            &&& only_invoice_changed(before, after, id)
            &&& only_event_gone(before, after, event)
        }),
{
}

/// An error that ends an event keeps the error with the invoice, and leaves all
/// else of it.
pub proof fn law_note_leaves_the_status(
    before: RepoView,
    id: Seq<char>,
    event: i64,
    error_json: Seq<char>,
    now: i64,
)
    requires
        before.invoices.contains_key(id),
    ensures
        ({
            let after = before.after_note(id, event, error_json, now);
            let was = before.invoices[id];
            let row = after.invoices[id];
            &&& row.lhdn_status == was.lhdn_status
            &&& row.error_json == Some(error_json)
            &&& row.updated_at == now
            &&& same_invoice(was, row)
            &&& same_delivery(was, row)
            &&& same_validation(was, row)
            &&& same_cancellation(was, row)
            &&& same_plan(was, row)
            &&& only_invoice_changed(before, after, id)
            &&& only_event_gone(before, after, event)
        }),
{
}

/// An event that is put off keeps all invoices as they are.
pub proof fn law_putting_off_leaves_invoices(
    before: RepoView,
    event: i64,
    attempts: i64,
    available_at: i64,
    last_error: Option<Seq<char>>,
)
    ensures
        ({
            let after = before.with_event_postponed(event, attempts, available_at, last_error);
            &&& after.invoices == before.invoices
            &&& only_event_moved(
                before,
                after,
                event,
                attempts as int,
                available_at as int,
                last_error,
            )
        }),
{
}

/// Whatever ends an event of an invoice that is gone removes the event and
/// changes nothing else.
pub proof fn law_orphans_leave_only_the_outbox(
    before: RepoView,
    id: Seq<char>,
    event: i64,
    completion: CompletionView,
    text: Seq<char>,
    at: i64,
    now: i64,
)
    requires
        !before.invoices.contains_key(id),
    ensures
        ({
            let submitted = before.after_submission(id, event, completion, now);
            submitted.invoices == before.invoices && only_event_gone(before, submitted, event)
        }),
        ({
            let failed = before.after_failure(id, event, at, text, now);
            failed.invoices == before.invoices && only_event_gone(before, failed, event)
        }),
        ({
            let valid = before.after_validation(id, event, text, text, at, at, now);
            valid.invoices == before.invoices && only_event_gone(before, valid, event)
        }),
        ({
            let invalid = before.after_invalidation(id, event, text, now);
            invalid.invoices == before.invoices && only_event_gone(before, invalid, event)
        }),
        ({
            let cancelled = before.after_cancellation(id, event, at, now);
            cancelled.invoices == before.invoices && only_event_gone(before, cancelled, event)
        }),
        ({
            let noted = before.after_note(id, event, text, now);
            noted.invoices == before.invoices && only_event_gone(before, noted, event)
        }),
        only_event_gone(before, before.without_event(event), event),
        before.without_event(event).invoices == before.invoices,
{
}

/// Each kind of event is written by its name.
pub proof fn law_kinds_are_written_by_name(kind: EventKind)
    ensures
        kind == EventKind::Submit ==> kind.text() == "submit"@,
        kind == EventKind::Poll ==> kind.text() == "poll"@,
        kind == EventKind::Cancel ==> kind.text() == "cancel"@,
{
}

} // verus!
