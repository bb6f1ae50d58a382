//! How the requests of a POS are answered, and what they change.

use vstd::prelude::*;
use super::rows::{
    event_added, only_invoice_changed, same_delivery, same_invoice, same_plan, same_validation,
};
use crate::api::{
    cancel_failure, cancellation, repo_failure, required, string_member, submission, ApiError,
    ApiErrorView,
};
use crate::invoice::{InvoiceRow, InvoiceStatus, InvoiceView};
use crate::json::{json_member, lemma_string_value, string_text};
use crate::lhdn::models::optional_text;
use crate::repo::{created, CancelError, CancelErrorView, EventKind, RepoError, RepoView};
use crate::text::{is_white_space, trimmed, without_leading_space, without_trailing_space};

verus! {

/// Whether this row, and no other, has the reference.
pub open spec fn is_the_one(repo: RepoView, id: Seq<char>, invoice_ref: Seq<char>) -> bool {
    &&& repo.invoices.contains_key(id)
    &&& repo.invoices[id].id == id
    &&& repo.invoices[id].invoice_ref == invoice_ref
    &&& forall|k: Seq<char>| #[trigger]
        repo.invoices.contains_key(k) && repo.invoices[k].invoice_ref == invoice_ref ==> k == id
}

/// Whether no row has the reference.
pub open spec fn is_free(repo: RepoView, invoice_ref: Seq<char>) -> bool {
    forall|k: Seq<char>| #[trigger]
        repo.invoices.contains_key(k) ==> repo.invoices[k].invoice_ref != invoice_ref
}

/// Whether an event to cancel the invoice is in the outbox.
pub open spec fn cancel_event_waits(repo: RepoView, id: Seq<char>) -> bool {
    exists|e: i64| #[trigger]
        repo.outbox.contains_key(e) && repo.outbox[e].invoice_id == id && repo.outbox[e].kind
            == EventKind::Cancel
}

/// Whether the answer shows the invoice, field by field.
pub open spec fn shows(row: InvoiceRow, invoice: InvoiceView) -> bool {
    &&& row.id@ == invoice.id
    &&& row.invoice_ref@ == invoice.invoice_ref
    &&& row.lhdn_status@ == match invoice.lhdn_status {
        InvoiceStatus::Pending => "Pending"@,
        InvoiceStatus::Submitted => "Submitted"@,
        InvoiceStatus::Valid => "Valid"@,
        InvoiceStatus::Invalid => "Invalid"@,
        InvoiceStatus::Cancelled => "Cancelled"@,
        InvoiceStatus::Failed => "Failed"@,
    }
    &&& optional_text(row.lhdn_uuid) == invoice.lhdn_uuid
    &&& optional_text(row.qr_url) == invoice.qr_url
    &&& optional_text(row.error_json) == invoice.error_json
    &&& row.attempts == invoice.attempts
    &&& row.created_at == invoice.created_at
    &&& row.updated_at == invoice.updated_at
}

/// A row that is answered shows the invoice that it was made from.
pub proof fn law_answers_show_the_invoice(row: InvoiceRow, invoice: InvoiceView)
    ensures
        row@ == invoice.row() ==> shows(row, invoice),
{
}

/// Where a new invoice has a reference and an id that are not in use, it is taken
/// in with 202 and shown as it came in: `Pending`, no attempt made, nothing known
/// from LHDN. Where one of them is in use it is refused with 409, and without a
/// reference with 400; then nothing changes.
pub proof fn law_new_invoices_are_taken_in(
    before: RepoView,
    after: RepoView,
    answer: Result<(u16, InvoiceRow), ApiError>,
    invoice_ref: Option<Seq<char>>,
    payload_json: Seq<char>,
    id: Seq<char>,
    now: i64,
)
    requires
        before.next_outbox_id < i64::MAX,
        submission(before, after, answer, invoice_ref, payload_json, id, now),
    ensures
        invoice_ref matches Some(reference) && is_free(before, reference)
            && !before.invoices.contains_key(id) ==> {
            &&& answer matches Ok(pair) && pair.0 == 202 && shows(pair.1, after.invoices[id])
            &&& after.invoices.contains_key(id)
            &&& Some(after.invoices[id].invoice_ref) == invoice_ref
            &&& after.invoices[id].payload_json == payload_json
            &&& after.invoices[id].lhdn_status == InvoiceStatus::Pending
            &&& after.invoices[id].attempts == 0
            &&& after.invoices[id].created_at == now
            &&& after.invoices[id].next_attempt_at == Some(now)
            &&& event_added(before, after, None, id, EventKind::Submit, now)
        },
        invoice_ref matches Some(reference) && !(is_free(before, reference)
            && !before.invoices.contains_key(id)) ==> (answer matches Err(error) && error
            is Conflict) && after == before,
        invoice_ref is None ==> (answer matches Err(error) && error is MissingInvoiceRef) && after
            == before,
{
    if let Some(reference) = invoice_ref {
        if before.has_ref(reference) {
            let k = before.id_of_ref(reference);
            assert(before.invoices.contains_key(k) && before.invoices[k].invoice_ref == reference);
        }
        if !is_free(before, reference) {
            let k = choose|k: Seq<char>| #[trigger]
                before.invoices.contains_key(k) && before.invoices[k].invoice_ref == reference;
            assert(before.has_ref(reference));
        }
    }
}

/// Putting a new invoice into the tables succeeds exactly where its id and its
/// reference are free, gives the row as it then stands, and otherwise changes
/// nothing.
pub proof fn law_creation_succeeds_where_free(
    before: RepoView,
    after: RepoView,
    row: Result<InvoiceRow, RepoError>,
    id: Seq<char>,
    invoice_ref: Seq<char>,
    payload_json: Seq<char>,
    now: i64,
)
    requires
        created(before, after, row, id, invoice_ref, payload_json, now),
    ensures
        row is Ok <==> is_free(before, invoice_ref) && !before.invoices.contains_key(id),
        row matches Ok(shown) ==> after.invoices.contains_key(id) && shows(
            shown,
            after.invoices[id],
        ) && after.invoices[id].payload_json == payload_json && after.invoices[id].invoice_ref
            == invoice_ref && after.invoices[id].lhdn_status == InvoiceStatus::Pending,
        row matches Err(error) ==> error is DuplicateRef && after == before,
{
    if before.has_ref(invoice_ref) {
        let k = before.id_of_ref(invoice_ref);
        assert(before.invoices.contains_key(k) && before.invoices[k].invoice_ref == invoice_ref);
    }
    if !is_free(before, invoice_ref) {
        let k = choose|k: Seq<char>| #[trigger]
            before.invoices.contains_key(k) && before.invoices[k].invoice_ref == invoice_ref;
        assert(before.has_ref(invoice_ref));
    }
}

/// Why an invoice cannot be cancelled: it is not known, not `Valid`, past its
/// deadline, or about to be cancelled. Where none of these holds it can be.
pub proof fn law_cancellation_is_refused_for_a_reason(
    repo: RepoView,
    id: Seq<char>,
    invoice_ref: Seq<char>,
    now: i64,
)
    ensures
        is_free(repo, invoice_ref) ==> repo.cancel_refusal(invoice_ref, now) == Some(
            CancelErrorView::NotFound,
        ),
        is_the_one(repo, id, invoice_ref) ==> {
            let row = repo.invoices[id];
            let refusal = repo.cancel_refusal(invoice_ref, now);
            let is_open = row.cancellable_until matches Some(deadline) && now < deadline;
            &&& row.lhdn_status != InvoiceStatus::Valid ==> refusal == Some(
                CancelErrorView::NotCancellable {
                    state: match row.lhdn_status {
                        InvoiceStatus::Pending => "Pending"@,
                        InvoiceStatus::Submitted => "Submitted"@,
                        InvoiceStatus::Valid => "Valid"@,
                        InvoiceStatus::Invalid => "Invalid"@,
                        InvoiceStatus::Cancelled => "Cancelled"@,
                        InvoiceStatus::Failed => "Failed"@,
                    },
                },
            )
            &&& row.lhdn_status == InvoiceStatus::Valid && !is_open ==> refusal == Some(
                CancelErrorView::PastWindow,
            )
            &&& row.lhdn_status == InvoiceStatus::Valid && is_open && cancel_event_waits(repo, id)
                ==> refusal == Some(CancelErrorView::AlreadyRequested)
            &&& row.lhdn_status == InvoiceStatus::Valid && is_open && !cancel_event_waits(repo, id)
                ==> refusal is None
        },
{
    if is_the_one(repo, id, invoice_ref) {
        assert(repo.has_ref(invoice_ref));
        let found = repo.id_of_ref(invoice_ref);
        assert(repo.invoices.contains_key(found) && repo.invoices[found].invoice_ref
            == invoice_ref);
        assert(repo.cancel_waits(id) == cancel_event_waits(repo, id));
    }
}

/// Whether the request to cancel was taken in: the reason is kept, an event to
/// cancel the document is due at once, and all else stays.
pub open spec fn cancel_was_asked_for(
    before: RepoView,
    after: RepoView,
    id: Seq<char>,
    reason: Seq<char>,
    now: i64,
) -> bool {
    let was = before.invoices[id];
    let row = after.invoices[id];
    &&& row.cancellation_reason == Some(reason)
    &&& row.updated_at == now
    &&& row.lhdn_status == was.lhdn_status
    &&& row.error_json == was.error_json
    &&& row.cancelled_at == was.cancelled_at
    &&& same_invoice(was, row)
    &&& same_delivery(was, row)
    &&& same_validation(was, row)
    &&& same_plan(was, row)
    &&& only_invoice_changed(before, after, id)
    &&& event_added(before, after, None, id, EventKind::Cancel, now)
}

/// Asking for a cancellation keeps the reason and enqueues an event to cancel.
pub proof fn law_asking_for_cancellation_enqueues_it(
    before: RepoView,
    id: Seq<char>,
    invoice_ref: Seq<char>,
    reason: Seq<char>,
    now: i64,
)
    requires
        is_the_one(before, id, invoice_ref),
        before.next_outbox_id < i64::MAX,
    ensures
        cancel_was_asked_for(
            before,
            before.after_cancel_request(invoice_ref, reason, now),
            id,
            reason,
            now,
        ),
{
    let found = before.id_of_ref(invoice_ref);
    assert(before.invoices.contains_key(found) && before.invoices[found].invoice_ref
        == invoice_ref);
}

/// A request to cancel with a reason is taken in with 202, however early it comes,
/// as long as the invoice is `Valid`, its deadline is not reached and no other
/// request waits. It is answered as past the window only where the deadline is
/// reached, and each other refusal has its own reason; then nothing changes.
pub proof fn law_cancellation_is_taken_in_up_to_the_deadline(
    before: RepoView,
    after: RepoView,
    answer: Result<(u16, InvoiceRow), ApiError>,
    id: Seq<char>,
    invoice_ref: Seq<char>,
    reason: Option<Seq<char>>,
    now: i64,
)
    requires
        cancellation(before, after, answer, invoice_ref, reason, now),
        is_the_one(before, id, invoice_ref),
        before.next_outbox_id < i64::MAX,
    ensures
        ({
            let row = before.invoices[id];
            let is_open = row.cancellable_until matches Some(deadline) && now < deadline;
            let is_valid = row.lhdn_status == InvoiceStatus::Valid;
            &&& reason is Some && is_valid && is_open && !cancel_event_waits(before, id) ==> {
                &&& answer matches Ok(pair) && pair.0 == 202 && shows(pair.1, after.invoices[id])
                &&& cancel_was_asked_for(before, after, id, reason->0, now)
            }
            &&& reason is None ==> (answer matches Err(error) && error is MissingReason)
            &&& reason is Some && !is_valid ==> (answer matches Err(error) && error
                is NotCancellable)
            &&& reason is Some && is_valid && !is_open ==> (answer matches Err(error) && error
                is PastWindow)
            &&& reason is Some && is_valid && is_open && cancel_event_waits(before, id) ==> (
            answer matches Err(error) && error is AlreadyRequested)
            &&& answer is Err ==> after == before
        }),
{
    law_cancellation_is_refused_for_a_reason(before, id, invoice_ref, now);
    let found = before.id_of_ref(invoice_ref);
    assert(before.invoices.contains_key(found) && before.invoices[found].invoice_ref
        == invoice_ref);
    if let Some(text) = reason {
        law_asking_for_cancellation_enqueues_it(before, id, invoice_ref, text, now);
    }
}

/// A request to cancel an invoice that nobody knows is refused as not found, and
/// changes nothing.
pub proof fn law_unknown_invoices_cannot_be_cancelled(
    before: RepoView,
    after: RepoView,
    answer: Result<(u16, InvoiceRow), ApiError>,
    invoice_ref: Seq<char>,
    reason: Seq<char>,
    now: i64,
)
    requires
        cancellation(before, after, answer, invoice_ref, Some(reason), now),
        is_free(before, invoice_ref),
    ensures
        answer matches Err(error) && error is NotFound,
        after == before,
{
    law_cancellation_is_refused_for_a_reason(before, seq![], invoice_ref, now);
}

/// In every state, a request with a reason to cancel a `Valid` invoice for which
/// none waits is taken in until 72 hours have passed since LHDN validated it, and
/// is past the window exactly from then on.
pub proof fn law_the_window_is_72_hours_from_validation(
    before: RepoView,
    after: RepoView,
    answer: Result<(u16, InvoiceRow), ApiError>,
    id: Seq<char>,
    reason: Seq<char>,
    now: i64,
)
    requires
        before.consistent(),
        before.next_outbox_id < i64::MAX,
        before.invoices.contains_key(id),
        before.invoices[id].lhdn_status == InvoiceStatus::Valid,
        cancellation(before, after, answer, before.invoices[id].invoice_ref, Some(reason), now),
    ensures
        before.invoices[id].validated_at matches Some(at) && {
            &&& now < at + 72 * 60 * 60 && !cancel_event_waits(before, id) ==> {
                &&& answer matches Ok(pair) && pair.0 == 202 && shows(pair.1, after.invoices[id])
                &&& cancel_was_asked_for(before, after, id, reason, now)
            }
            &&& now >= at + 72 * 60 * 60 <==> (answer matches Err(error) && error is PastWindow)
        },
{
    let invoice_ref = before.invoices[id].invoice_ref;
    assert(is_the_one(before, id, invoice_ref));
    law_cancellation_is_taken_in_up_to_the_deadline(
        before,
        after,
        answer,
        id,
        invoice_ref,
        Some(reason),
        now,
    );
}

/// Each refusal has its status and its words.
pub proof fn law_refusals_have_status_and_words(error: ApiError)
    ensures
        error is MissingInvoiceRef ==> error@.status() == 400 && error@.message()
            == "missing or empty `invoice_ref`"@,
        error is MissingReason ==> error@.status() == 400 && error@.message()
            == "missing or empty `reason`"@,
        error is NotFound ==> error@.status() == 404 && error@.message() == "invoice not found"@,
        error is Conflict ==> error@.status() == 409 && error@.message()
            == "invoice with this reference already exists"@,
        error is AlreadyRequested ==> error@.status() == 409 && error@.message()
            == "a cancellation request is already pending"@,
        error matches ApiError::NotCancellable(state) ==> error@.status() == 422
            && error@.message() == "invoice cannot be cancelled in state "@ + state@,
        error is PastWindow ==> error@.status() == 422 && error@.message()
            == "invoice is past the LHDN cancellation window"@,
        error is Internal ==> error@.status() == 500 && error@.message() == "internal error"@,
{
}

/// What the repository refuses is answered as that, and a failure of the database
/// as an internal error, which says nothing of it.
pub proof fn law_failures_are_answered_as_what_they_are(failure: RepoError, refusal: CancelError)
    ensures
        failure is DuplicateRef ==> repo_failure(failure) == ApiErrorView::Conflict,
        failure is Db ==> repo_failure(failure) == ApiErrorView::Internal,
        refusal is NotFound ==> cancel_failure(refusal@) == ApiErrorView::NotFound,
        refusal matches CancelError::NotCancellable { state } ==> cancel_failure(refusal@)
            == ApiErrorView::NotCancellable(state@),
        refusal is PastWindow ==> cancel_failure(refusal@) == ApiErrorView::PastWindow,
        refusal is AlreadyRequested ==> cancel_failure(refusal@) == ApiErrorView::AlreadyRequested,
        refusal is Db ==> cancel_failure(refusal@) == ApiErrorView::Internal,
{
}

proof fn lemma_leading(text: Seq<char>) -> (start: int)
    ensures
        0 <= start <= text.len(),
        without_leading_space(text) == text.skip(start),
        forall|k: int| 0 <= k < start ==> is_white_space(#[trigger] text[k]),
        start < text.len() ==> !is_white_space(text[start]),
    decreases text.len(),
{
    if text.len() > 0 && is_white_space(text.first()) {
        let rest = text.drop_first();
        let start = lemma_leading(rest) + 1;
        assert(rest.skip(start - 1) =~= text.skip(start));
        assert forall|k: int| 0 <= k < start implies is_white_space(#[trigger] text[k]) by {
            if k > 0 {
                assert(rest[k - 1] == text[k]);
            }
        }
        start
    } else {
        assert(text.skip(0) =~= text);
        0
    }
}

proof fn lemma_trailing(text: Seq<char>) -> (stop: int)
    ensures
        0 <= stop <= text.len(),
        without_trailing_space(text) == text.take(stop),
        forall|k: int| stop <= k < text.len() ==> is_white_space(#[trigger] text[k]),
        stop > 0 ==> !is_white_space(text[stop - 1]),
    decreases text.len(),
{
    if text.len() > 0 && is_white_space(text.last()) {
        let rest = text.drop_last();
        let stop = lemma_trailing(rest);
        assert(rest.take(stop) =~= text.take(stop));
        assert forall|k: int| stop <= k < text.len() implies is_white_space(#[trigger] text[k]) by {
            if k < rest.len() {
                assert(rest[k] == text[k]);
            }
        }
        stop
    } else {
        assert(text.take(text.len() as int) =~= text);
        text.len() as int
    }
}

/// A text that has to be there is taken without the white space around it, and
/// with all that is inside; it is missing exactly where it holds nothing else.
pub proof fn law_required_texts_lose_only_outer_space(text: Seq<char>) -> (range: (int, int))
    ensures
        0 <= range.0 <= range.1 <= text.len(),
        trimmed(text) == text.subrange(range.0, range.1),
        forall|k: int|
            0 <= k < text.len() && (k < range.0 || k >= range.1) ==> is_white_space(
                #[trigger] text[k],
            ),
        range.0 < range.1 ==> !is_white_space(text[range.0]) && !is_white_space(text[range.1 - 1]),
        range.0 < range.1 ==> required(Some(text)) == Some(text.subrange(range.0, range.1)),
        range.0 == range.1 ==> required(Some(text)) is None,
        required(None) is None,
{
    let start = lemma_leading(text);
    let rest = text.skip(start);
    let length = lemma_trailing(rest);
    assert(rest.take(length) =~= text.subrange(start, start + length));
    assert forall|k: int|
        0 <= k < text.len() && (k < start || k >= start + length) implies is_white_space(
        #[trigger] text[k],
    ) by {
        if k >= start {
            assert(rest[k - start] == text[k]);
        }
    }
    if length > 0 {
        assert(rest[length - 1] == text[start + length - 1]);
    }
    (start, start + length)
}

/// A string that a JSON object holds under a key is read as it is, and nothing
/// where the object has no such member.
pub proof fn law_string_members_are_read(object: Seq<char>, key: Seq<char>, text: Seq<char>)
    ensures
        json_member(object, key) == Some(string_text(text)) ==> string_member(object, key) == Some(
            text,
        ),
        json_member(object, key) is None ==> string_member(object, key) is None,
        json_member(object, key) matches Some(member) && (forall|t: Seq<char>|
            #[trigger] string_text(t) != member) ==> string_member(object, key) is None,
{
    lemma_string_value(text);
}

} // verus!
