//! What the operations of the bridge do, said of their calls: of what they are
//! given, what they give back, and the tables before and after.

use std::time::Duration;
use vstd::prelude::*;
use vstd::utf8::{encode_utf8, valid_utf8};
use super::answers::{
    given_up, is_first_accepted, is_first_rejected, is_rejected, may_pass, named_instant,
    rejection_body, stage_error_body,
};
use super::answers::{
    law_answers_take_effect, law_cancellation_is_sent_where_nothing_is_missing,
    law_documents_that_are_not_rejected_are_submitted,
    law_failed_cancellations_are_retried_or_given_up,
    law_failed_deliveries_are_retried_or_given_up, law_failed_polls_are_retried_or_given_up,
    law_polling_goes_on_up_to_the_ceiling, law_rejected_documents_fail,
    law_valid_documents_open_the_window,
};
use super::calls::law_only_due_events_are_taken_up;
use super::requests::{
    cancel_event_waits, cancel_was_asked_for, is_free, is_the_one,
    law_cancellation_is_taken_in_up_to_the_deadline, law_creation_succeeds_where_free,
    law_asking_for_cancellation_enqueues_it, law_cancellation_is_refused_for_a_reason,
    law_new_invoices_are_taken_in, shows,
};
use super::rows::{
    event_added, law_batches_are_in_order, law_invoices_are_found_as_they_stand, only_event_gone,
    only_event_moved,
};
use crate::api::{
    accept_cancellation, accept_invoice, cancel_invoice, get_invoice, submit_invoice_at, ApiError,
};
use crate::clock::is_seconds;
use crate::config::{bind_addr, env_bool, parse_lhdn_env};
use crate::domain::canonicalize::{canonicalize_json, canonicalize_json_bytes};
use crate::domain::der::is_readable_bundle;
use crate::domain::signer::{
    choose_bags, is_openable, optional_bytes, p12_certs, p12_keys, p12_parsed, rsa_key,
    rsa_prime_bits, rsa_signature, rsa_verifies, Signer,
};
use crate::domain::{DomainError, SignedDocument};
use crate::encoding::base64_text;
use crate::invoice::{InvoiceRow, InvoiceStatus};
use crate::json::{
    is_compact, json_member, json_text, lemma_string_value, object_text, string_text,
};
use crate::lhdn::client::{
    ensure_success, granted_token, parse_json_success, taxpayer_verdict, ApiReply, ApiRequest,
    BodyView, ClientView, HttpMethod, LhdnClient, TokenAction, TokenEvent,
};
use crate::lhdn::error::{ErrorView, LhdnError};
use crate::lhdn::models::{
    DocumentDetails, DocumentStatus, IdScheme, SubmissionDocument, SubmissionFormat,
    SubmissionResponse, TokenResponse,
};
use crate::lhdn::oauth::CachedToken;
use crate::lhdn::LhdnEnv;
use crate::repo::due::{cancel_ids, poll_ids, submit_ids};
use crate::repo::{
    slice_text, CancelError, DueCancelEvent, DuePollEvent, DueSubmitEvent, EventKind,
    InvoiceForPoll, InvoiceForSubmit, InvoiceRepo, RepoError, RepoView,
};
use crate::text::{ascii_lowered, trimmed};
use crate::worker::submitter::NotText;
use crate::worker::poller::build_qr_url;
use crate::worker::{
    next_step, poll_backoff, poll_backoff_for, submit_backoff, submit_backoff_for, Canceller,
    LoopEvent, LoopStep, Poller, Submitter,
};

verus! {

/// `GET /v1/invoices/{invoice_ref}` shows the invoice with the reference, field by
/// field as it is stored, whatever its status; without one it is not found.
pub proof fn law_get_invoice_shows_what_is_stored(
    repo: &InvoiceRepo,
    invoice_ref: &str,
    answer: Result<InvoiceRow, ApiError>,
    id: Seq<char>,
)
    requires
        call_ensures(get_invoice, (repo, invoice_ref), answer),
    ensures
        is_the_one(repo@, id, invoice_ref@) ==> (answer matches Ok(row) && shows(
            row,
            repo@.invoices[id],
        )),
        is_free(repo@, invoice_ref@) ==> (answer matches Err(error) && error is NotFound),
{
    law_invoices_are_found_as_they_stand(repo@, id, invoice_ref@);
}

/// Whether an invoice with a new reference was taken in and any other refused.
pub open spec fn takes_in(
    before: RepoView,
    after: RepoView,
    answer: Result<(u16, InvoiceRow), ApiError>,
    invoice_ref: Option<&str>,
    payload_json: Seq<char>,
    id: Seq<char>,
    now: i64,
) -> bool {
    let reference = trimmed(invoice_ref->0@);
    let given = invoice_ref is Some && reference.len() > 0;
    let free = is_free(before, reference) && !before.invoices.contains_key(id);
    &&& given && free ==> {
        &&& answer matches Ok(pair) && pair.0 == 202 && shows(pair.1, after.invoices[id])
        &&& after.invoices[id].invoice_ref == reference
        &&& after.invoices[id].payload_json == payload_json
        &&& after.invoices[id].lhdn_status == InvoiceStatus::Pending
        &&& event_added(before, after, None, id, EventKind::Submit, now)
    }
    &&& given && !free ==> (answer matches Err(error) && error is Conflict) && after == before
    &&& !given ==> (answer matches Err(error) && error is MissingInvoiceRef) && after == before
}

/// `POST /v1/invoices` takes an invoice in where its reference is given, apart from
/// white space around it, and not in use.
pub proof fn law_accept_invoice_takes_new_references_in()
    ensures
        forall|
            repo: &mut InvoiceRepo,
            invoice_ref: Option<&str>,
            payload_json: &str,
            id: &str,
            now: i64,
            answer: Result<(u16, InvoiceRow), ApiError>,
        |
            #[trigger] call_ensures(
                accept_invoice,
                (repo, invoice_ref, payload_json, id, now),
                answer,
            )
                && mut_ref_current(repo)@.next_outbox_id < i64::MAX ==> takes_in(
                mut_ref_current(repo)@,
                mut_ref_future(repo)@,
                answer,
                invoice_ref,
                payload_json@,
                id@,
                now,
            ),
{
    assert forall|
        repo: &mut InvoiceRepo,
        invoice_ref: Option<&str>,
        payload_json: &str,
        id: &str,
        now: i64,
        answer: Result<(u16, InvoiceRow), ApiError>,
    |
        #[trigger] call_ensures(accept_invoice, (repo, invoice_ref, payload_json, id, now), answer)
            && mut_ref_current(repo)@.next_outbox_id < i64::MAX implies takes_in(
            mut_ref_current(repo)@,
            mut_ref_future(repo)@,
            answer,
            invoice_ref,
            payload_json@,
            id@,
            now,
        ) by {
        law_new_invoices_are_taken_in(
            mut_ref_current(repo)@,
            mut_ref_future(repo)@,
            answer,
            crate::api::required(slice_text(invoice_ref)),
            payload_json@,
            id@,
            now,
        );
    }
}

/// Whether a row and an event came to the tables where id and reference were free,
/// and nothing changed otherwise.
pub open spec fn creates(
    before: RepoView,
    after: RepoView,
    row: Result<InvoiceRow, RepoError>,
    id: Seq<char>,
    invoice_ref: Seq<char>,
    payload_json: Seq<char>,
    now: i64,
) -> bool {
    &&& row is Ok <==> is_free(before, invoice_ref) && !before.invoices.contains_key(id)
    &&& row is Ok ==> {
        &&& shows(row->Ok_0, after.invoices[id])
        &&& after.invoices[id].invoice_ref == invoice_ref
        &&& after.invoices[id].payload_json == payload_json
        &&& after.invoices[id].lhdn_status == InvoiceStatus::Pending
        &&& event_added(before, after, None, id, EventKind::Submit, now)
    }
    &&& row is Err ==> row->Err_0 is DuplicateRef && after == before
}

/// A new invoice is put into the tables exactly where its id and its reference are
/// free.
pub proof fn law_create_pending_needs_free_id_and_reference()
    ensures
        forall|
            repo: &mut InvoiceRepo,
            id: &str,
            invoice_ref: &str,
            payload_json: &str,
            now: i64,
            row: Result<InvoiceRow, RepoError>,
        |
            #[trigger] call_ensures(
                InvoiceRepo::create_pending_at,
                (repo, id, invoice_ref, payload_json, now),
                row,
            )
                && mut_ref_current(repo)@.next_outbox_id < i64::MAX ==> creates(
                mut_ref_current(repo)@,
                mut_ref_future(repo)@,
                row,
                id@,
                invoice_ref@,
                payload_json@,
                now,
            ),
{
    assert forall|
        repo: &mut InvoiceRepo,
        id: &str,
        invoice_ref: &str,
        payload_json: &str,
        now: i64,
        row: Result<InvoiceRow, RepoError>,
    |
        #[trigger] call_ensures(
            InvoiceRepo::create_pending_at,
            (repo, id, invoice_ref, payload_json, now),
            row,
        )
            && mut_ref_current(repo)@.next_outbox_id < i64::MAX implies creates(
            mut_ref_current(repo)@,
            mut_ref_future(repo)@,
            row,
            id@,
            invoice_ref@,
            payload_json@,
            now,
        ) by {
        law_creation_succeeds_where_free(
            mut_ref_current(repo)@,
            mut_ref_future(repo)@,
            row,
            id@,
            invoice_ref@,
            payload_json@,
            now,
        );
    }
}

/// Whether the request was taken in where the invoice can be cancelled, and refused
/// for its reason otherwise.
pub open spec fn answers_cancellation(
    before: RepoView,
    after: RepoView,
    answer: Result<(u16, InvoiceRow), ApiError>,
    id: Seq<char>,
    invoice_ref: Seq<char>,
    reason: Seq<char>,
    now: i64,
) -> bool {
    let row = before.invoices[id];
    let open = row.cancellable_until is Some && now < row.cancellable_until->0;
    let valid = row.lhdn_status == InvoiceStatus::Valid;
    is_the_one(before, id, invoice_ref) ==> {
        &&& valid && open && !cancel_event_waits(before, id) ==> answer is Ok
            && cancel_was_asked_for(before, after, id, reason, now)
        &&& valid && !open <==> answer is Err && answer->Err_0 is PastWindow
        &&& !valid <==> answer is Err && answer->Err_0 is NotCancellable
        &&& valid && open && cancel_event_waits(before, id) <==> answer is Err && answer->Err_0
            is AlreadyRequested
        &&& answer is Ok ==> answer->Ok_0.0 == 202 && shows(
            answer->Ok_0.1,
            after.invoices[id],
        )
        &&& answer is Err ==> after == before
    }
}

/// `POST /v1/invoices/{invoice_ref}/cancel` takes the request in, however early it
/// comes, where a reason is given, the invoice is `Valid`, its deadline is not
/// reached and no other request waits. It answers that the window is past exactly
/// where the deadline of a `Valid` invoice is reached.
pub proof fn law_accept_cancellation_follows_the_deadline()
    ensures
        forall|
            repo: &mut InvoiceRepo,
            invoice_ref: &str,
            reason: Option<&str>,
            now: i64,
            answer: Result<(u16, InvoiceRow), ApiError>,
            id: Seq<char>,
        |
            #![trigger call_ensures(
                accept_cancellation,
                (repo, invoice_ref, reason, now),
                answer,
            ), answers_cancellation(
                mut_ref_current(repo)@,
                mut_ref_future(repo)@,
                answer,
                id,
                invoice_ref@,
                trimmed(reason->0@),
                now,
            )]
            call_ensures(accept_cancellation, (repo, invoice_ref, reason, now), answer)
                && mut_ref_current(repo)@.next_outbox_id < i64::MAX
                && reason is Some
                && trimmed(reason->0@).len() > 0 ==> answers_cancellation(
                mut_ref_current(repo)@,
                mut_ref_future(repo)@,
                answer,
                id,
                invoice_ref@,
                trimmed(reason->0@),
                now,
            ),
{
    assert forall|
        repo: &mut InvoiceRepo,
        invoice_ref: &str,
        reason: Option<&str>,
        now: i64,
        answer: Result<(u16, InvoiceRow), ApiError>,
        id: Seq<char>,
    |
        #![trigger call_ensures(
                accept_cancellation,
                (repo, invoice_ref, reason, now),
                answer,
            ), answers_cancellation(
            mut_ref_current(repo)@,
            mut_ref_future(repo)@,
            answer,
            id,
            invoice_ref@,
            trimmed(reason->0@),
            now,
        )]
        call_ensures(accept_cancellation, (repo, invoice_ref, reason, now), answer)
            && mut_ref_current(repo)@.next_outbox_id < i64::MAX
            && reason is Some
            && trimmed(reason->0@).len() > 0 implies answers_cancellation(
            mut_ref_current(repo)@,
            mut_ref_future(repo)@,
            answer,
            id,
            invoice_ref@,
            trimmed(reason->0@),
            now,
        ) by {
        if is_the_one(mut_ref_current(repo)@, id, invoice_ref@) {
            law_cancellation_is_taken_in_up_to_the_deadline(
                mut_ref_current(repo)@,
                mut_ref_future(repo)@,
                answer,
                id,
                invoice_ref@,
                crate::api::required(slice_text(reason)),
                now,
            );
        }
    }
}

/// Whether the cancellation was granted where the invoice can be cancelled, and
/// refused for its reason otherwise.
pub open spec fn grants_cancellation(
    before: RepoView,
    after: RepoView,
    answer: Result<InvoiceRow, CancelError>,
    id: Seq<char>,
    invoice_ref: Seq<char>,
    reason: Seq<char>,
    now: i64,
) -> bool {
    let row = before.invoices[id];
    let open = row.cancellable_until is Some && now < row.cancellable_until->0;
    let valid = row.lhdn_status == InvoiceStatus::Valid;
    is_the_one(before, id, invoice_ref) ==> {
        &&& valid && open && !cancel_event_waits(before, id) ==> answer is Ok
            && cancel_was_asked_for(before, after, id, reason, now)
        &&& valid && !open <==> answer is Err && answer->Err_0 is PastWindow
        &&& !valid <==> answer is Err && answer->Err_0 is NotCancellable
        &&& valid && open && cancel_event_waits(before, id) <==> answer is Err && answer->Err_0
            is AlreadyRequested
        &&& answer is Ok ==> shows(answer->Ok_0, after.invoices[id])
        &&& answer is Err ==> after == before
    }
}

/// A cancellation can be asked for from validation up to the deadline.
pub proof fn law_request_cancellation_follows_the_deadline()
    ensures
        forall|
            repo: &mut InvoiceRepo,
            invoice_ref: &str,
            reason: &str,
            now: i64,
            answer: Result<InvoiceRow, CancelError>,
            id: Seq<char>,
        |
            #![trigger call_ensures(
                InvoiceRepo::request_cancellation,
                (repo, invoice_ref, reason, now),
                answer,
            ), grants_cancellation(
                mut_ref_current(repo)@,
                mut_ref_future(repo)@,
                answer,
                id,
                invoice_ref@,
                reason@,
                now,
            )]
            call_ensures(
                InvoiceRepo::request_cancellation,
                (repo, invoice_ref, reason, now),
                answer,
            )
                && mut_ref_current(repo)@.next_outbox_id < i64::MAX ==> grants_cancellation(
                mut_ref_current(repo)@,
                mut_ref_future(repo)@,
                answer,
                id,
                invoice_ref@,
                reason@,
                now,
            ),
{
    assert forall|
        repo: &mut InvoiceRepo,
        invoice_ref: &str,
        reason: &str,
        now: i64,
        answer: Result<InvoiceRow, CancelError>,
        id: Seq<char>,
    |
        #![trigger call_ensures(
            InvoiceRepo::request_cancellation,
            (repo, invoice_ref, reason, now),
            answer,
        ), grants_cancellation(
            mut_ref_current(repo)@,
            mut_ref_future(repo)@,
            answer,
            id,
            invoice_ref@,
            reason@,
            now,
        )]
        call_ensures(
            InvoiceRepo::request_cancellation,
            (repo, invoice_ref, reason, now),
            answer,
        )
            && mut_ref_current(repo)@.next_outbox_id < i64::MAX implies grants_cancellation(
            mut_ref_current(repo)@,
            mut_ref_future(repo)@,
            answer,
            id,
            invoice_ref@,
            reason@,
            now,
        ) by {
        let before = mut_ref_current(repo)@;
        if is_the_one(before, id, invoice_ref@) {
            law_cancellation_is_refused_for_a_reason(before, id, invoice_ref@, now);
            law_asking_for_cancellation_enqueues_it(before, id, invoice_ref@, reason@, now);
            let found = before.id_of_ref(invoice_ref@);
            assert(before.invoices.contains_key(found) && before.invoices[found].invoice_ref
                == invoice_ref@);
        }
    }
}

/// Whether the stored invoice was given, or the event of one that is gone removed.
pub open spec fn takes_up_delivery(
    before: RepoView,
    after: RepoView,
    event: DueSubmitEvent,
    invoice: Option<InvoiceForSubmit>,
) -> bool {
    let id = event.invoice_id@;
    &&& before.invoices.contains_key(id) ==> {
        &&& invoice is Some
        &&& invoice->0.id@ == before.invoices[id].id
        &&& invoice->0.invoice_ref@ == before.invoices[id].invoice_ref
        &&& invoice->0.payload_json@ == before.invoices[id].payload_json
        &&& invoice->0.attempts == before.invoices[id].attempts
        &&& after == before
    }
    &&& !before.invoices.contains_key(id) ==> invoice is None && after.invoices == before.invoices
        && only_event_gone(before, after, event.outbox_id)
}

/// A delivery is taken up with the invoice as it is stored; an event without its
/// invoice is removed.
pub proof fn law_submitter_takes_up_the_stored_invoice()
    ensures
        forall|
            worker: &Submitter,
            repo: &mut InvoiceRepo,
            event: &DueSubmitEvent,
            now: i64,
            invoice: Option<InvoiceForSubmit>,
        |
            #[trigger] call_ensures(Submitter::process_event, (worker, repo, event, now), invoice)
                ==> takes_up_delivery(
                mut_ref_current(repo)@,
                mut_ref_future(repo)@,
                *event,
                invoice,
            ),
{
}

/// Whether the signed document is delivered, or the invoice failed without one.
pub open spec fn delivers_what_was_built(
    before: RepoView,
    after: RepoView,
    event: DueSubmitEvent,
    invoice: InvoiceForSubmit,
    built: Result<SignedDocument, String>,
    delivery: Option<(SubmissionDocument, SignedDocument)>,
    now: i64,
) -> bool {
    let id = event.invoice_id@;
    &&& built is Ok ==> {
        &&& delivery is Some
        &&& (delivery->0).0.format == SubmissionFormat::Json
        &&& (delivery->0).0.code_number@ == built->Ok_0.code_number@
        &&& (delivery->0).0.document_hash@ == built->Ok_0.document_hash@
        &&& (delivery->0).0.document@ == base64_text(built->Ok_0.canonical_bytes@)
        &&& (delivery->0).1 == built->Ok_0
        &&& after == before
    }
    &&& built is Err ==> delivery is None && only_event_gone(before, after, event.outbox_id)
    &&& built is Err && before.invoices.contains_key(id) ==> {
        &&& after.invoices[id].lhdn_status == InvoiceStatus::Failed
        &&& after.invoices[id].attempts == invoice.attempts
        &&& after.invoices[id].error_json == Some(
            object_text(
                seq![
                    ("error"@, string_text(built->Err_0@)),
                    ("stage"@, string_text("build_signed_document"@)),
                ],
            ),
        )
    }
}

/// What was built and signed is delivered; what could not be built fails, with the
/// reason and without counting an attempt.
pub proof fn law_submitter_delivers_what_was_signed()
    ensures
        forall|
            worker: &Submitter,
            repo: &mut InvoiceRepo,
            event: &DueSubmitEvent,
            invoice: &InvoiceForSubmit,
            built: Result<SignedDocument, String>,
            now: i64,
            delivery: Option<(SubmissionDocument, SignedDocument)>,
        |
            #[trigger] call_ensures(
                Submitter::on_built,
                (worker, repo, event, invoice, built, now),
                delivery,
            ) ==> delivers_what_was_built(
                mut_ref_current(repo)@,
                mut_ref_future(repo)@,
                *event,
                *invoice,
                built,
                delivery,
                now,
            ),
{
}

/// Whether a rejected document failed, with what the first entry for it says, and
/// one that is not rejected was submitted, with what the first entry for it says.
pub open spec fn settles_delivery(
    before: RepoView,
    after: RepoView,
    event: DueSubmitEvent,
    signed: SignedDocument,
    resp: SubmissionResponse,
    done: Result<(), NotText>,
    now: i64,
    i: int,
) -> bool {
    let id = event.invoice_id@;
    let row = after.invoices[id];
    before.invoices.contains_key(id) ==> {
        &&& is_first_rejected(resp, signed, i) ==> {
            &&& done is Ok
            &&& row.lhdn_status == InvoiceStatus::Failed
            &&& row.error_json == Some(rejection_body(resp.rejected_documents@[i].error))
            &&& row.attempts == before.invoices[id].attempts
            &&& only_event_gone(before, after, event.outbox_id)
        }
        &&& !is_rejected(resp, signed) && valid_utf8(signed.canonical_bytes@) ==> {
            &&& done is Ok
            &&& row.lhdn_status == InvoiceStatus::Submitted
            &&& row.lhdn_submission_uid == Some(resp.submission_uid@)
            &&& is_first_accepted(resp, signed, i) ==> row.lhdn_uuid == Some(
                resp.accepted_documents@[i].uuid@,
            )
            &&& row.signature == Some(signed.signature@)
            &&& row.doc_digest == Some(signed.document_hash@)
            &&& row.error_json is None
            &&& event_added(before, after, Some(event.outbox_id), id, EventKind::Poll, now)
        }
        &&& !is_rejected(resp, signed) && !valid_utf8(signed.canonical_bytes@) ==> done is Err
            && after == before
    }
}

/// Whatever LHDN answers to a delivery, a rejection of the document makes the
/// invoice `Failed`, and only where there is none does it become `Submitted`.
pub proof fn law_submitter_overlooks_no_rejection()
    ensures
        forall|
            worker: &Submitter,
            repo: &mut InvoiceRepo,
            event: &DueSubmitEvent,
            signed: &SignedDocument,
            resp: SubmissionResponse,
            now: i64,
            done: Result<(), NotText>,
            i: int,
        |
            #![trigger call_ensures(
                Submitter::handle_success,
                (worker, repo, event, signed, resp, now),
                done,
            ), settles_delivery(
                mut_ref_current(repo)@,
                mut_ref_future(repo)@,
                *event,
                *signed,
                resp,
                done,
                now,
                i,
            )]
            call_ensures(
                Submitter::handle_success,
                (worker, repo, event, signed, resp, now),
                done,
            )
                && mut_ref_current(repo)@.next_outbox_id < i64::MAX
                && event.outbox_id < mut_ref_current(repo)@.next_outbox_id ==> settles_delivery(
                mut_ref_current(repo)@,
                mut_ref_future(repo)@,
                *event,
                *signed,
                resp,
                done,
                now,
                i,
            ),
{
    assert forall|
        worker: &Submitter,
        repo: &mut InvoiceRepo,
        event: &DueSubmitEvent,
        signed: &SignedDocument,
        resp: SubmissionResponse,
        now: i64,
        done: Result<(), NotText>,
        i: int,
    |
        #![trigger call_ensures(
            Submitter::handle_success,
            (worker, repo, event, signed, resp, now),
            done,
        ), settles_delivery(
            mut_ref_current(repo)@,
            mut_ref_future(repo)@,
            *event,
            *signed,
            resp,
            done,
            now,
            i,
        )]
        call_ensures(
            Submitter::handle_success,
            (worker, repo, event, signed, resp, now),
            done,
        )
            && mut_ref_current(repo)@.next_outbox_id < i64::MAX
            && event.outbox_id < mut_ref_current(repo)@.next_outbox_id implies settles_delivery(
            mut_ref_current(repo)@,
            mut_ref_future(repo)@,
            *event,
            *signed,
            resp,
            done,
            now,
            i,
        ) by {
        let before = mut_ref_current(repo)@;
        let id = event.invoice_id@;
        let resp = resp;
        law_answers_take_effect(before, id, event.outbox_id, *signed, resp, now);
        if before.invoices.contains_key(id) {
            if is_first_rejected(resp, *signed, i) {
                law_rejected_documents_fail(before, id, event.outbox_id, *signed, resp, now, i);
                assert(resp.rejected_documents@[i].invoice_code_number@ == signed.code_number@);
            }
            if !is_rejected(resp, *signed) && valid_utf8(signed.canonical_bytes@) {
                law_documents_that_are_not_rejected_are_submitted(
                    before,
                    id,
                    event.outbox_id,
                    *signed,
                    resp,
                    now,
                    i,
                );
            }
        }
    }
}

/// Whether the answer settled the delivery.
pub open spec fn settles_answer(
    before: RepoView,
    after: RepoView,
    event: DueSubmitEvent,
    signed: SignedDocument,
    resp: SubmissionResponse,
    done: Result<(), NotText>,
    now: i64,
    i: int,
) -> bool {
    settles_delivery(before, after, event, signed, resp, done, now, i)
}

/// An answer to a delivery settles it in the same way, whatever was tried before.
pub proof fn law_submitter_settles_answered_deliveries()
    ensures
        forall|
            worker: &Submitter,
            repo: &mut InvoiceRepo,
            event: &DueSubmitEvent,
            attempts: i64,
            signed: &SignedDocument,
            answer: Result<SubmissionResponse, LhdnError>,
            now: i64,
            done: Result<(), NotText>,
            i: int,
        |
            #![trigger call_ensures(
                Submitter::on_answer,
                (worker, repo, event, attempts, signed, answer, now),
                done,
            ), settles_answer(
                mut_ref_current(repo)@,
                mut_ref_future(repo)@,
                *event,
                *signed,
                answer->Ok_0,
                done,
                now,
                i,
            )]
            call_ensures(
                Submitter::on_answer,
                (worker, repo, event, attempts, signed, answer, now),
                done,
            )
                && mut_ref_current(repo)@.next_outbox_id < i64::MAX
                && event.outbox_id < mut_ref_current(repo)@.next_outbox_id
                && answer is Ok ==> settles_answer(
                mut_ref_current(repo)@,
                mut_ref_future(repo)@,
                *event,
                *signed,
                answer->Ok_0,
                done,
                now,
                i,
            ),
{
    assert forall|
        worker: &Submitter,
        repo: &mut InvoiceRepo,
        event: &DueSubmitEvent,
        attempts: i64,
        signed: &SignedDocument,
        answer: Result<SubmissionResponse, LhdnError>,
        now: i64,
        done: Result<(), NotText>,
        i: int,
    |
        #![trigger call_ensures(
            Submitter::on_answer,
            (worker, repo, event, attempts, signed, answer, now),
            done,
        ), settles_answer(
            mut_ref_current(repo)@,
            mut_ref_future(repo)@,
            *event,
            *signed,
            answer->Ok_0,
            done,
            now,
            i,
        )]
        call_ensures(
            Submitter::on_answer,
            (worker, repo, event, attempts, signed, answer, now),
            done,
        )
            && mut_ref_current(repo)@.next_outbox_id < i64::MAX
            && event.outbox_id < mut_ref_current(repo)@.next_outbox_id
            && answer is Ok implies settles_answer(
            mut_ref_current(repo)@,
            mut_ref_future(repo)@,
            *event,
            *signed,
            answer->Ok_0,
            done,
            now,
            i,
        ) by {
        let before = mut_ref_current(repo)@;
        let id = event.invoice_id@;
        let resp = answer->Ok_0;
        law_answers_take_effect(before, id, event.outbox_id, *signed, resp, now);
        if before.invoices.contains_key(id) {
            if is_first_rejected(resp, *signed, i) {
                law_rejected_documents_fail(before, id, event.outbox_id, *signed, resp, now, i);
                assert(resp.rejected_documents@[i].invoice_code_number@ == signed.code_number@);
            }
            if !is_rejected(resp, *signed) && valid_utf8(signed.canonical_bytes@) {
                law_documents_that_are_not_rejected_are_submitted(
                    before,
                    id,
                    event.outbox_id,
                    *signed,
                    resp,
                    now,
                    i,
                );
            }
        }
    }
}

/// Whether the delivery was put off, or given up where it cannot be.
pub open spec fn retries_delivery(
    before: RepoView,
    after: RepoView,
    event: DueSubmitEvent,
    max_attempts: i64,
    attempts: i64,
    error: ErrorView,
    now: i64,
) -> bool {
    let id = event.invoice_id@;
    let retried = may_pass(error) && attempts + 1 < max_attempts;
    before.invoices.contains_key(id) ==> {
        &&& retried ==> {
            &&& after.invoices[id].lhdn_status == before.invoices[id].lhdn_status
            &&& after.invoices[id].attempts == attempts + 1
            &&& only_event_moved(
                before,
                after,
                event.outbox_id,
                attempts + 1,
                now + submit_backoff(attempts + 1),
                Some(error.message()),
            )
        }
        &&& !retried ==> {
            &&& after.invoices[id].lhdn_status == InvoiceStatus::Failed
            &&& after.invoices[id].attempts == attempts + 1
            &&& after.invoices[id].error_json is Some
            &&& only_event_gone(before, after, event.outbox_id)
        }
    }
}

/// A delivery that failed is tried again exactly where the error may pass and
/// attempts are left.
pub proof fn law_submitter_retries_what_may_pass()
    ensures
        forall|
            worker: &Submitter,
            repo: &mut InvoiceRepo,
            event: &DueSubmitEvent,
            attempts: i64,
            signed: &SignedDocument,
            answer: Result<SubmissionResponse, LhdnError>,
            now: i64,
            done: Result<(), NotText>,
        |
            #[trigger] call_ensures(
                Submitter::on_answer,
                (worker, repo, event, attempts, signed, answer, now),
                done,
            )
                && attempts < i64::MAX
                && now + 3600 <= i64::MAX
                && answer is Err ==> retries_delivery(
                mut_ref_current(repo)@,
                mut_ref_future(repo)@,
                *event,
                worker.config.max_attempts,
                attempts,
                answer->Err_0@,
                now,
            ),
{
    assert forall|
        worker: &Submitter,
        repo: &mut InvoiceRepo,
        event: &DueSubmitEvent,
        attempts: i64,
        signed: &SignedDocument,
        answer: Result<SubmissionResponse, LhdnError>,
        now: i64,
        done: Result<(), NotText>,
    |
        #[trigger] call_ensures(
            Submitter::on_answer,
            (worker, repo, event, attempts, signed, answer, now),
            done,
        )
            && attempts < i64::MAX
            && now + 3600 <= i64::MAX
            && answer is Err implies retries_delivery(
            mut_ref_current(repo)@,
            mut_ref_future(repo)@,
            *event,
            worker.config.max_attempts,
            attempts,
            answer->Err_0@,
            now,
        ) by {
        if mut_ref_current(repo)@.invoices.contains_key(event.invoice_id@) {
            law_failed_deliveries_are_retried_or_given_up(
                mut_ref_current(repo)@,
                worker.config.max_attempts,
                event.invoice_id@,
                event.outbox_id,
                attempts,
                answer->Err_0@,
                now,
            );
        }
    }
}

/// Whether the UUID to ask for was given, or the event ended without one.
pub open spec fn takes_up_poll(
    before: RepoView,
    after: RepoView,
    event: DuePollEvent,
    target: Option<(InvoiceForPoll, String)>,
    now: i64,
) -> bool {
    let id = event.invoice_id@;
    let row = before.invoices[id];
    let known = row.lhdn_uuid is Some && row.lhdn_uuid->0.len() > 0;
    &&& before.invoices.contains_key(id) && known ==> {
        &&& target is Some
        &&& (target->0).0.id@ == row.id
        &&& Some((target->0).1@) == row.lhdn_uuid
        &&& after == before
    }
    &&& before.invoices.contains_key(id) && !known ==> target is None && given_up(
        before,
        after,
        id,
        event.outbox_id,
        object_text(
            seq![
                ("reason"@, string_text("missing lhdn_uuid"@)),
                ("stage"@, string_text("poll_precondition"@)),
            ],
        ),
        now,
    )
    &&& !before.invoices.contains_key(id) ==> target is None && after.invoices == before.invoices
        && only_event_gone(before, after, event.outbox_id)
}

/// LHDN is asked about every document whose UUID is known; without one, the poll is
/// given up and the status stays, and an event without its invoice is removed.
pub proof fn law_poller_asks_for_every_known_document()
    ensures
        forall|
            worker: &Poller,
            repo: &mut InvoiceRepo,
            event: &DuePollEvent,
            now: i64,
            target: Option<(InvoiceForPoll, String)>,
        |
            #[trigger] call_ensures(Poller::process_event, (worker, repo, event, now), target)
                ==> takes_up_poll(
                mut_ref_current(repo)@,
                mut_ref_future(repo)@,
                *event,
                target,
                now,
            ),
{
}

/// Whether the invoice went where LHDN says it stands.
pub open spec fn follows_details(
    before: RepoView,
    after: RepoView,
    event: DuePollEvent,
    id: Seq<char>,
    max_attempts: i64,
    details: DocumentDetails,
    now: i64,
) -> bool {
    let was = before.invoices[id];
    let row = after.invoices[id];
    before.invoices.contains_key(id) ==> {
        &&& details.status == DocumentStatus::Valid ==> {
            &&& row.lhdn_status == InvoiceStatus::Valid
            &&& row.validated_at is Some && row.validated_at->0 == named_instant(
                details.date_time_validated,
                now,
            )
            &&& row.cancellable_until is Some && row.cancellable_until->0 == row.validated_at->0
                + 72 * 60 * 60
            &&& row.qr_url is Some
            &&& row.lhdn_uuid == was.lhdn_uuid
            &&& only_event_gone(before, after, event.outbox_id)
        }
        &&& details.status == DocumentStatus::Invalid ==> row.lhdn_status == InvoiceStatus::Invalid
            && row.error_json is Some && only_event_gone(before, after, event.outbox_id)
        &&& details.status == DocumentStatus::Cancelled ==> row.lhdn_status
            == InvoiceStatus::Cancelled && row.cancelled_at is Some && row.cancelled_at->0
            == named_instant(details.cancel_date_time, now) && only_event_gone(
            before,
            after,
            event.outbox_id,
        )
        &&& details.status == DocumentStatus::Submitted && event.attempts + 1 < max_attempts
            ==> after.invoices == before.invoices && only_event_moved(
            before,
            after,
            event.outbox_id,
            event.attempts + 1,
            now + poll_backoff(event.attempts + 1),
            None,
        )
        &&& details.status == DocumentStatus::Submitted && event.attempts + 1 >= max_attempts
            ==> row.lhdn_status == InvoiceStatus::Invalid && only_event_gone(
            before,
            after,
            event.outbox_id,
        )
    }
}

/// What LHDN says of a document decides what becomes of the invoice: `Valid` with its
/// window of 72 hours, `Invalid`, `Cancelled`, or another poll after the backoff until
/// the attempts are used up.
pub proof fn law_poller_moves_the_invoice_as_lhdn_says()
    ensures
        forall|
            worker: &Poller,
            repo: &mut InvoiceRepo,
            event: &DuePollEvent,
            invoice: &InvoiceForPoll,
            answer: Result<DocumentDetails, LhdnError>,
            now: i64,
        |
            #[trigger] call_ensures(
                Poller::on_answer,
                (worker, repo, event, invoice, answer, now),
                (),
            )
                && event.attempts < i64::MAX
                && now + 259_200 <= i64::MAX
                && answer is Ok ==> follows_details(
                mut_ref_current(repo)@,
                mut_ref_future(repo)@,
                *event,
                invoice.id@,
                worker.config.max_attempts,
                answer->Ok_0,
                now,
            ),
{
    assert forall|
        worker: &Poller,
        repo: &mut InvoiceRepo,
        event: &DuePollEvent,
        invoice: &InvoiceForPoll,
        answer: Result<DocumentDetails, LhdnError>,
        now: i64,
    |
        #[trigger] call_ensures(Poller::on_answer, (worker, repo, event, invoice, answer, now), ())
            && event.attempts < i64::MAX
            && now + 259_200 <= i64::MAX
            && answer is Ok implies follows_details(
            mut_ref_current(repo)@,
            mut_ref_future(repo)@,
            *event,
            invoice.id@,
            worker.config.max_attempts,
            answer->Ok_0,
            now,
        ) by {
        if mut_ref_current(repo)@.invoices.contains_key(invoice.id@) {
            let details = answer->Ok_0;
            if details.status == DocumentStatus::Valid {
                law_valid_documents_open_the_window(
                    mut_ref_current(repo)@,
                    worker.env,
                    worker.config.max_attempts,
                    invoice.id@,
                    event.outbox_id,
                    event.attempts,
                    details,
                    now,
                );
            }
            if details.status == DocumentStatus::Submitted {
                law_polling_goes_on_up_to_the_ceiling(
                    mut_ref_current(repo)@,
                    worker.env,
                    worker.config.max_attempts,
                    invoice.id@,
                    event.outbox_id,
                    event.attempts,
                    details,
                    now,
                );
            }
        }
    }
}

/// Whether the invoice went where the description says it stands.
pub open spec fn follows_description(
    before: RepoView,
    after: RepoView,
    event: DuePollEvent,
    id: Seq<char>,
    max_attempts: i64,
    details: DocumentDetails,
    now: i64,
) -> bool {
    follows_details(before, after, event, id, max_attempts, details, now)
}

/// The same holds of LHDN's description of a document by itself.
pub proof fn law_poller_follows_the_details()
    ensures
        forall|
            worker: &Poller,
            repo: &mut InvoiceRepo,
            event: &DuePollEvent,
            invoice: &InvoiceForPoll,
            details: DocumentDetails,
            now: i64,
        |
            #[trigger] call_ensures(
                Poller::handle_details,
                (worker, repo, event, invoice, details, now),
                (),
            )
                && event.attempts < i64::MAX
                && now + 259_200 <= i64::MAX ==> follows_description(
                mut_ref_current(repo)@,
                mut_ref_future(repo)@,
                *event,
                invoice.id@,
                worker.config.max_attempts,
                details,
                now,
            ),
{
    assert forall|
        worker: &Poller,
        repo: &mut InvoiceRepo,
        event: &DuePollEvent,
        invoice: &InvoiceForPoll,
        details: DocumentDetails,
        now: i64,
    |
        #[trigger] call_ensures(
            Poller::handle_details,
            (worker, repo, event, invoice, details, now),
            (),
        )
            && event.attempts < i64::MAX
            && now + 259_200 <= i64::MAX implies follows_description(
            mut_ref_current(repo)@,
            mut_ref_future(repo)@,
            *event,
            invoice.id@,
            worker.config.max_attempts,
            details,
            now,
        ) by {
        if mut_ref_current(repo)@.invoices.contains_key(invoice.id@) {
            let details = details;
            if details.status == DocumentStatus::Valid {
                law_valid_documents_open_the_window(
                    mut_ref_current(repo)@,
                    worker.env,
                    worker.config.max_attempts,
                    invoice.id@,
                    event.outbox_id,
                    event.attempts,
                    details,
                    now,
                );
            }
            if details.status == DocumentStatus::Submitted {
                law_polling_goes_on_up_to_the_ceiling(
                    mut_ref_current(repo)@,
                    worker.env,
                    worker.config.max_attempts,
                    invoice.id@,
                    event.outbox_id,
                    event.attempts,
                    details,
                    now,
                );
            }
        }
    }
}

/// Whether the poll was put off, or given up where it cannot be.
pub open spec fn retries_poll(
    before: RepoView,
    after: RepoView,
    event: DuePollEvent,
    max_attempts: i64,
    error: ErrorView,
    now: i64,
) -> bool {
    let id = event.invoice_id@;
    let retried = may_pass(error) && event.attempts + 1 < max_attempts;
    before.invoices.contains_key(id) ==> {
        &&& retried ==> after.invoices == before.invoices && only_event_moved(
            before,
            after,
            event.outbox_id,
            event.attempts + 1,
            now + poll_backoff(event.attempts + 1),
            Some(error.message()),
        )
        &&& !retried ==> given_up(
            before,
            after,
            id,
            event.outbox_id,
            stage_error_body("poll"@, error, event.attempts + 1),
            now,
        )
    }
}

/// A poll that failed is tried again exactly where the error may pass and attempts
/// are left, and never changes the status.
pub proof fn law_poller_retries_what_may_pass()
    ensures
        forall|
            worker: &Poller,
            repo: &mut InvoiceRepo,
            event: &DuePollEvent,
            invoice: &InvoiceForPoll,
            answer: Result<DocumentDetails, LhdnError>,
            now: i64,
        |
            #[trigger] call_ensures(
                Poller::on_answer,
                (worker, repo, event, invoice, answer, now),
                (),
            )
                && event.attempts < i64::MAX
                && now + 900 <= i64::MAX
                && answer is Err ==> retries_poll(
                mut_ref_current(repo)@,
                mut_ref_future(repo)@,
                *event,
                worker.config.max_attempts,
                answer->Err_0@,
                now,
            ),
{
    assert forall|
        worker: &Poller,
        repo: &mut InvoiceRepo,
        event: &DuePollEvent,
        invoice: &InvoiceForPoll,
        answer: Result<DocumentDetails, LhdnError>,
        now: i64,
    |
        #[trigger] call_ensures(Poller::on_answer, (worker, repo, event, invoice, answer, now), ())
            && event.attempts < i64::MAX
            && now + 900 <= i64::MAX
            && answer is Err implies retries_poll(
            mut_ref_current(repo)@,
            mut_ref_future(repo)@,
            *event,
            worker.config.max_attempts,
            answer->Err_0@,
            now,
        ) by {
        if mut_ref_current(repo)@.invoices.contains_key(event.invoice_id@) {
            law_failed_polls_are_retried_or_given_up(
                mut_ref_current(repo)@,
                worker.config.max_attempts,
                event.invoice_id@,
                event.outbox_id,
                event.attempts,
                answer->Err_0@,
                now,
            );
        }
    }
}

/// Whether the call was given, or the event ended without one.
pub open spec fn takes_up_cancellation(
    before: RepoView,
    after: RepoView,
    event: DueCancelEvent,
    call: Option<(String, String)>,
    now: i64,
) -> bool {
    let id = event.invoice_id@;
    let row = before.invoices[id];
    let known = row.lhdn_uuid is Some && row.lhdn_uuid->0.len() > 0;
    let reasoned = row.cancellation_reason is Some && row.cancellation_reason->0.len() > 0;
    let open = row.cancellable_until is Some && now < row.cancellable_until->0;
    &&& before.invoices.contains_key(id) && known && reasoned && open ==> {
        &&& call is Some
        &&& Some((call->0).0@) == row.lhdn_uuid
        &&& Some((call->0).1@) == row.cancellation_reason
        &&& after == before
    }
    &&& before.invoices.contains_key(id) && !(known && reasoned && open) ==> call is None
        && given_up(
        before,
        after,
        id,
        event.outbox_id,
        object_text(
            seq![
                (
                    "reason"@,
                    string_text(
                        if !known {
                            "missing lhdn_uuid"@
                        } else if !reasoned {
                            "missing cancellation_reason"@
                        } else {
                            "past cancellation window"@
                        },
                    ),
                ),
                ("stage"@, string_text("cancel_precondition"@)),
            ],
        ),
        now,
    )
    &&& !before.invoices.contains_key(id) ==> call is None && after.invoices == before.invoices
        && only_event_gone(before, after, event.outbox_id)
}

/// LHDN is asked to cancel a document, with its UUID and the reason, exactly where
/// both are there and the deadline is not reached; otherwise the event ends with the
/// reason for that, and the status stays.
pub proof fn law_canceller_sends_what_can_be_cancelled()
    ensures
        forall|
            worker: &Canceller,
            repo: &mut InvoiceRepo,
            event: &DueCancelEvent,
            now: i64,
            call: Option<(String, String)>,
        |
            #[trigger] call_ensures(Canceller::process_event, (worker, repo, event, now), call)
                && keeps_its_id(mut_ref_current(repo)@, event.invoice_id@)
                ==> takes_up_cancellation(
                mut_ref_current(repo)@,
                mut_ref_future(repo)@,
                *event,
                call,
                now,
            ),
{
    assert forall|
        worker: &Canceller,
        repo: &mut InvoiceRepo,
        event: &DueCancelEvent,
        now: i64,
        call: Option<(String, String)>,
    |
        #[trigger] call_ensures(Canceller::process_event, (worker, repo, event, now), call)
            && keeps_its_id(mut_ref_current(repo)@, event.invoice_id@)
                implies takes_up_cancellation(
            mut_ref_current(repo)@,
            mut_ref_future(repo)@,
            *event,
            call,
            now,
        ) by {
        let row = mut_ref_current(repo)@.invoices[event.invoice_id@];
        law_cancellation_is_sent_where_nothing_is_missing(
            row.lhdn_uuid,
            row.cancellation_reason,
            row.cancellable_until,
            now,
        );
    }
}

/// Whether the cancellation was done, put off, or given up where it cannot be.
pub open spec fn settles_cancellation(
    before: RepoView,
    after: RepoView,
    event: DueCancelEvent,
    max_attempts: i64,
    answer: Result<(), LhdnError>,
    now: i64,
) -> bool {
    let id = event.invoice_id@;
    let error = answer->Err_0@;
    let retried = may_pass(error) && event.attempts + 1 < max_attempts;
    before.invoices.contains_key(id) ==> {
        &&& answer is Ok ==> {
            &&& after.invoices[id].lhdn_status == InvoiceStatus::Cancelled
            &&& after.invoices[id].cancelled_at == Some(now)
            &&& only_event_gone(before, after, event.outbox_id)
        }
        &&& answer is Err && retried ==> after.invoices == before.invoices && only_event_moved(
            before,
            after,
            event.outbox_id,
            event.attempts + 1,
            now + submit_backoff(event.attempts + 1),
            Some(error.message()),
        )
        &&& answer is Err && !retried ==> given_up(
            before,
            after,
            id,
            event.outbox_id,
            stage_error_body("cancel"@, error, event.attempts + 1),
            now,
        )
    }
}

/// A document that LHDN cancelled makes the invoice `Cancelled`, now; a failure is
/// tried again exactly where the error may pass and attempts are left, and never
/// changes the status.
pub proof fn law_canceller_settles_the_event()
    ensures
        forall|
            worker: &Canceller,
            repo: &mut InvoiceRepo,
            event: &DueCancelEvent,
            answer: Result<(), LhdnError>,
            now: i64,
        |
            #[trigger] call_ensures(Canceller::on_answer, (worker, repo, event, answer, now), ())
                && event.attempts < i64::MAX
                && now + 3600 <= i64::MAX ==> settles_cancellation(
                mut_ref_current(repo)@,
                mut_ref_future(repo)@,
                *event,
                worker.config.max_attempts,
                answer,
                now,
            ),
{
    assert forall|
        worker: &Canceller,
        repo: &mut InvoiceRepo,
        event: &DueCancelEvent,
        answer: Result<(), LhdnError>,
        now: i64,
    |
        #[trigger] call_ensures(Canceller::on_answer, (worker, repo, event, answer, now), ())
            && event.attempts < i64::MAX
            && now + 3600 <= i64::MAX implies settles_cancellation(
            mut_ref_current(repo)@,
            mut_ref_future(repo)@,
            *event,
            worker.config.max_attempts,
            answer,
            now,
        ) by {
        if mut_ref_current(repo)@.invoices.contains_key(event.invoice_id@) && answer is Err {
            law_failed_cancellations_are_retried_or_given_up(
                mut_ref_current(repo)@,
                worker.config.max_attempts,
                event.invoice_id@,
                event.outbox_id,
                event.attempts,
                answer->Err_0@,
                now,
            );
        }
    }
}

/// Whether a token that was handed out is in the cache and lasts, and nothing else
/// changed.
pub open spec fn hands_out(
    before: ClientView,
    after: ClientView,
    action: TokenAction,
    now: i64,
) -> bool {
    &&& action is Done ==> {
        &&& after.cache is Some
        &&& after.cache->0.access_token == action->Done_0@
        &&& after.cache->0.expires_at >= now + 60
    }
    &&& !(action is Done) ==> after.cache == before.cache
    &&& after.base_url == before.base_url && after.env_name == before.env_name
    &&& after.client_id == before.client_id && after.client_secret == before.client_secret
    &&& after.scope == before.scope
}

/// A token that is handed out, on whatever way, lasts a minute at least and stands in
/// the cache; as long as none is handed out, the cache does not change. The client
/// stays the same but for it.
pub proof fn law_tokens_that_are_handed_out_last_a_minute()
    ensures
        forall|
            client: &mut LhdnClient,
            event: TokenEvent,
            now: i64,
            action: TokenAction,
        |
            #[trigger] call_ensures(LhdnClient::access_token, (client, event, now), action)
                ==> hands_out(mut_ref_current(client)@, mut_ref_future(client)@, action, now),
{
}

/// Every key whose second prime is at most 40 bits longer than its first signs every
/// message, with the signature that verifies.
pub proof fn law_try_sign_signs_with_every_balanced_key(
    signer: &Signer,
    message: &[u8],
    signature: Option<Vec<u8>>,
    first: usize,
    second: usize,
)
    requires
        call_ensures(Signer::try_sign, (signer, message), signature),
        rsa_prime_bits(signer.key(), 0) == Some(first),
        rsa_prime_bits(signer.key(), 1) == Some(second),
        second <= first + 40,
    ensures
        optional_bytes(signature) == rsa_signature(signer.key(), message@),
        signature is Some ==> rsa_verifies(signer.key(), message@, signature->0@),
{
}

/// A signature is the one that the key and the message have, and verifies.
pub proof fn law_sign_gives_the_signature(signer: &Signer, message: &[u8], signature: Vec<u8>)
    requires
        call_ensures(Signer::sign, (signer, message), signature),
    ensures
        rsa_signature(signer.key(), message@) == Some(signature@),
        rsa_verifies(signer.key(), message@, signature@),
{
}

/// Of the keys and the certificates the first of each is taken.
pub proof fn law_choose_bags_takes_the_first(
    keys: Vec<Vec<u8>>,
    certs: Vec<Vec<u8>>,
    chosen: Result<(Vec<u8>, Vec<u8>), DomainError>,
)
    requires
        call_ensures(choose_bags, (keys, certs), chosen),
    ensures
        keys@.len() > 0 && certs@.len() > 0 ==> (chosen matches Ok(pair) && pair.0@ == keys@[0]@
            && pair.1@ == certs@[0]@),
        keys@.len() == 0 || certs@.len() == 0 ==> chosen is Err,
{
}

/// A token is granted exactly by a reply with success that names a bearer token for
/// at least a minute, up to when it expires.
pub proof fn law_granted_token_is_a_bearer_token_for_a_minute(
    reply: ApiReply,
    parsed: Result<TokenResponse, String>,
    now: i64,
    outcome: Result<CachedToken, LhdnError>,
)
    requires
        call_ensures(granted_token, (reply, parsed, now), outcome),
    ensures
        outcome is Ok <==> reply.status / 100 == 2 && parsed is Ok && parsed->Ok_0.token_type@
            == "Bearer"@ && parsed->Ok_0.expires_in >= 60,
        outcome matches Ok(token) ==> token.access_token@ == parsed->Ok_0.access_token@
            && token.expires_at == now + parsed->Ok_0.expires_in,
{
}

/// A reply counts as what its status says: with success it is what the body holds,
/// and a taxpayer is known; a taxpayer that is not found is unknown; all else is an
/// error.
pub proof fn law_replies_count_by_status(
    reply: ApiReply,
    parsed: Result<SubmissionResponse, String>,
    outcome: Result<SubmissionResponse, LhdnError>,
    done: Result<(), LhdnError>,
    known: Result<bool, LhdnError>,
)
    requires
        call_ensures(parse_json_success, (reply, parsed), outcome),
        call_ensures(ensure_success, (reply,), done),
        call_ensures(taxpayer_verdict, (reply,), known),
    ensures
        reply.status / 100 == 2 && parsed is Ok ==> outcome == Ok::<SubmissionResponse, LhdnError>(
            parsed->Ok_0,
        ),
        reply.status / 100 == 2 && parsed is Err ==> outcome is Err && outcome->Err_0@
            == ErrorView::Schema(parsed->Err_0@),
        reply.status / 100 != 2 ==> outcome is Err && outcome->Err_0@ == reply.error(),
        done is Ok <==> reply.status / 100 == 2,
        done is Err ==> done->Err_0@ == reply.error(),
        reply.status / 100 == 2 ==> known == Ok::<bool, LhdnError>(true),
        reply.status == 404 ==> known == Ok::<bool, LhdnError>(false),
        reply.status / 100 != 2 && reply.status != 404 ==> known is Err && known->Err_0@
            == reply.error(),
{
}

/// What is sent to LHDN is what was asked for: the documents, the document's UUID, the
/// reason, the taxpayer's numbers, each with the token.
pub proof fn law_requests_carry_what_was_asked_for(
    client: &LhdnClient,
    token: &str,
    docs: Vec<SubmissionDocument>,
    uuid: &str,
    reason: &str,
    tin: &str,
    scheme: IdScheme,
    value: &str,
    delivery: ApiRequest,
    details: ApiRequest,
    cancel: ApiRequest,
    taxpayer: ApiRequest,
)
    requires
        call_ensures(LhdnClient::submit_documents, (client, token, docs), delivery),
        call_ensures(LhdnClient::get_document_details, (client, token, uuid), details),
        call_ensures(LhdnClient::cancel_document, (client, token, uuid, reason), cancel),
        call_ensures(LhdnClient::validate_taxpayer, (client, token, tin, scheme, value), taxpayer),
    ensures
        delivery.method == HttpMethod::Post,
        delivery.url@ == client@.base_url + "/api/v1.0/documentsubmissions"@,
        delivery.bearer is Some && delivery.bearer->0@ == token@,
        delivery@.body == BodyView::Documents(crate::lhdn::client::document_views(docs@)),
        details.method == HttpMethod::Get,
        details.url@ == client@.base_url + "/api/v1.0/documents/"@ + uuid@ + "/details"@,
        details.bearer is Some && details.bearer->0@ == token@,
        details@.body is Empty,
        cancel.method == HttpMethod::Put,
        cancel.url@ == client@.base_url + "/api/v1.0/documents/state/"@ + uuid@ + "/state"@,
        cancel.bearer is Some && cancel.bearer->0@ == token@,
        cancel@.body == (BodyView::StateChange { status: "cancelled"@, reason: reason@ }),
        taxpayer.method == HttpMethod::Get,
        taxpayer.url@ == client@.base_url + "/api/v1.0/taxpayer/validate/"@ + tin@,
        taxpayer.bearer is Some && taxpayer.bearer->0@ == token@,
        taxpayer@.query.len() == 2,
        taxpayer@.query[1] == ("idValue"@, value@),
{
    crate::laws::wire::law_requests_are_seen_whole(delivery, docs@, 0);
    crate::laws::wire::law_requests_are_seen_whole(details, docs@, 0);
    crate::laws::wire::law_requests_are_seen_whole(cancel, docs@, 0);
    crate::laws::wire::law_requests_are_seen_whole(taxpayer, docs@, 0);
}

/// Whether the invoice under the id, where there is one, has that id.
pub open spec fn keeps_its_id(repo: RepoView, id: Seq<char>) -> bool {
    repo.invoices.contains_key(id) ==> repo.invoices[id].id == id
}

/// A pass takes up due events of its kind as they are stored, in the order of their
/// times, as many as the batch holds, and leaves one out only where it is full.
pub proof fn law_passes_take_up_due_events(
    submitter: &Submitter,
    poller: &Poller,
    canceller: &Canceller,
    repo: &InvoiceRepo,
    now: i64,
    submit: Vec<DueSubmitEvent>,
    poll: Vec<DuePollEvent>,
    cancel: Vec<DueCancelEvent>,
    i: int,
    j: int,
    e: i64,
)
    requires
        call_ensures(Submitter::tick, (submitter, repo, now), submit),
        call_ensures(Poller::tick, (poller, repo, now), poll),
        call_ensures(Canceller::tick, (canceller, repo, now), cancel),
        submitter.config.batch_size >= 0,
        poller.config.batch_size >= 0,
        canceller.config.batch_size >= 0,
    ensures
        0 <= i < submit@.len() ==> is_taken_up(
            repo@,
            EventKind::Submit,
            now,
            submit@[i].outbox_id,
            submit@[i].invoice_id@,
        ),
        0 <= i < poll@.len() ==> is_taken_up(
            repo@,
            EventKind::Poll,
            now,
            poll@[i].outbox_id,
            poll@[i].invoice_id@,
        ) && poll@[i].attempts == repo@.outbox[poll@[i].outbox_id].attempts,
        0 <= i < cancel@.len() ==> is_taken_up(
            repo@,
            EventKind::Cancel,
            now,
            cancel@[i].outbox_id,
            cancel@[i].invoice_id@,
        ) && cancel@[i].attempts == repo@.outbox[cancel@[i].outbox_id].attempts,
        0 <= i < j < submit@.len() ==> repo@.outbox[submit@[i].outbox_id].available_at
            <= repo@.outbox[submit@[j].outbox_id].available_at,
        0 <= i < j < poll@.len() ==> repo@.outbox[poll@[i].outbox_id].available_at
            <= repo@.outbox[poll@[j].outbox_id].available_at,
        0 <= i < j < cancel@.len() ==> repo@.outbox[cancel@[i].outbox_id].available_at
            <= repo@.outbox[cancel@[j].outbox_id].available_at,
        submit@.len() <= submitter.config.batch_size,
        poll@.len() <= poller.config.batch_size,
        cancel@.len() <= canceller.config.batch_size,
        is_waiting(repo@, EventKind::Submit, now, e) && submit@.len()
            < submitter.config.batch_size ==> submit_ids(submit@).contains(e),
        is_waiting(repo@, EventKind::Poll, now, e) && poll@.len() < poller.config.batch_size
            ==> poll_ids(poll@).contains(e),
        is_waiting(repo@, EventKind::Cancel, now, e) && cancel@.len()
            < canceller.config.batch_size ==> cancel_ids(cancel@).contains(e),
{
    let (s, p, c) = (submit_ids(submit@), poll_ids(poll@), cancel_ids(cancel@));
    let (sl, pl, cl) = (
        submitter.config.batch_size,
        poller.config.batch_size,
        canceller.config.batch_size,
    );
    if 0 <= i < submit@.len() {
        law_batches_are_in_order(repo@, EventKind::Submit, now, sl, s, i, j, e);
    }
    if 0 <= i < poll@.len() {
        law_batches_are_in_order(repo@, EventKind::Poll, now, pl, p, i, j, e);
    }
    if 0 <= i < cancel@.len() {
        law_batches_are_in_order(repo@, EventKind::Cancel, now, cl, c, i, j, e);
    }
    if is_waiting(repo@, EventKind::Submit, now, e) {
        law_only_due_events_are_taken_up(repo@, EventKind::Submit, now, sl, s, e);
    }
    if is_waiting(repo@, EventKind::Poll, now, e) {
        law_only_due_events_are_taken_up(repo@, EventKind::Poll, now, pl, p, e);
    }
    if is_waiting(repo@, EventKind::Cancel, now, e) {
        law_only_due_events_are_taken_up(repo@, EventKind::Cancel, now, cl, c, e);
    }
}

/// Whether the outbox holds the event, of the kind and for the invoice, and its time
/// has come.
pub open spec fn is_taken_up(
    repo: RepoView,
    kind: EventKind,
    now: i64,
    event: i64,
    invoice_id: Seq<char>,
) -> bool {
    &&& is_waiting(repo, kind, now, event)
    &&& repo.outbox[event].invoice_id == invoice_id
}

/// Whether an event of the kind waits whose time has come.
pub open spec fn is_waiting(repo: RepoView, kind: EventKind, now: i64, event: i64) -> bool {
    &&& repo.outbox.contains_key(event)
    &&& repo.outbox[event].kind == kind
    &&& repo.outbox[event].available_at <= now
}

/// A loop ends when a shutdown is asked for, whatever happened, and otherwise goes on
/// after every pass.
pub proof fn law_next_step_ends_on_shutdown(event: LoopEvent, shutdown: bool, step: LoopStep)
    requires
        call_ensures(next_step, (event, shutdown), step),
    ensures
        shutdown ==> step == LoopStep::Stop,
        !shutdown && (event is Ticked || event is TickFailed || event is Elapsed) ==> step
            != LoopStep::Stop,
        !shutdown && event is Ticked && event->Ticked_0 > 0 ==> step == LoopStep::Tick,
        !shutdown && event is Elapsed ==> step == LoopStep::Tick,
{
}

/// A token is fresh exactly as long as a minute is left of it.
pub proof fn law_is_fresh_up_to_a_minute(token: &CachedToken, now: i64, fresh: bool)
    requires
        call_ensures(CachedToken::is_fresh_at, (token, now), fresh),
    ensures
        fresh <==> token.expires_at >= now + 60,
{
}

/// The wait after a failed delivery and between polls is that of the schedule.
pub proof fn law_backoffs_follow_the_schedule(
    attempt: i64,
    delivery: Duration,
    poll: Duration,
)
    requires
        call_ensures(submit_backoff_for, (attempt,), delivery),
        call_ensures(poll_backoff_for, (attempt,), poll),
    ensures
        attempt == 1 ==> is_seconds(delivery, 30),
        attempt == 2 ==> is_seconds(delivery, 120),
        attempt == 3 ==> is_seconds(delivery, 600),
        attempt >= 4 ==> is_seconds(delivery, 3600),
        attempt == 1 ==> is_seconds(poll, 5),
        attempt == 2 ==> is_seconds(poll, 15),
        attempt == 3 ==> is_seconds(poll, 30),
        attempt == 4 ==> is_seconds(poll, 60),
        5 <= attempt <= 10 ==> is_seconds(poll, 300),
        attempt >= 11 ==> is_seconds(poll, 900),
{
}

/// Canonical bytes are those of the canonical text, for every value.
pub proof fn law_canonical_bytes_are_those_of_the_text(
    value: &serde_json::Value,
    text: Result<String, DomainError>,
    bytes: Result<Vec<u8>, DomainError>,
)
    requires
        call_ensures(canonicalize_json, (value,), text),
        call_ensures(canonicalize_json_bytes, (value,), bytes),
    ensures
        text is Ok <==> bytes is Ok,
        text is Ok ==> bytes->Ok_0@ == encode_utf8(text->Ok_0@),
        text is Ok ==> is_compact(text->Ok_0@, false),
        text is Err ==> text->Err_0@ == bytes->Err_0@,
{
}

/// Equal values have equal canonical texts.
pub proof fn law_equal_values_have_equal_canonical_texts(
    a: &serde_json::Value,
    b: &serde_json::Value,
    text_a: Result<String, DomainError>,
    text_b: Result<String, DomainError>,
)
    requires
        call_ensures(canonicalize_json, (a,), text_a),
        call_ensures(canonicalize_json, (b,), text_b),
        json_text(*a) == json_text(*b),
    ensures
        text_a is Ok <==> text_b is Ok,
        text_a is Ok ==> text_a->Ok_0@ == text_b->Ok_0@,
{
}

/// The QR URL leads to the document in the portal of the environment.
pub proof fn law_build_qr_url_leads_to_the_document(
    env: LhdnEnv,
    uuid: &str,
    long_id: &str,
    url: String,
)
    requires
        call_ensures(build_qr_url, (env, uuid, long_id), url),
    ensures
        env == LhdnEnv::Preprod ==> url@ == "https://preprod.myinvois.hasil.gov.my"@ + "/"@ + uuid@
            + "/share/"@ + long_id@,
        env == LhdnEnv::Prod ==> url@ == "https://myinvois.hasil.gov.my"@ + "/"@ + uuid@
            + "/share/"@ + long_id@,
{
}

/// Whether the step to a token is the one that what happened calls for.
pub open spec fn takes_token_step(
    before: ClientView,
    event: TokenEvent,
    action: TokenAction,
    now: i64,
) -> bool {
    let cached = before.cache is Some && before.cache->0.expires_at >= now + 60;
    &&& (event is Wanted || event is Locked) && cached ==> action is Done && action->Done_0@
        == before.cache->0.access_token
    &&& event is Wanted && !cached ==> action is Lock
    &&& event is Locked && !cached ==> action is LoadStored
    &&& match event {
        TokenEvent::Stored(stored) => {
            let kept = stored is Some && stored->0.expires_at >= now + 60;
            &&& kept ==> action is Done && action->Done_0@ == stored->0.access_token@
            &&& !kept ==> action is Fetch && action->Fetch_0.url@ == before.base_url
                + "/connect/token"@
        },
        TokenEvent::Replied(reply, parsed) => {
            let granted = reply.status / 100 == 2 && parsed is Ok && parsed->Ok_0.token_type@
                == "Bearer"@ && parsed->Ok_0.expires_in >= 60;
            &&& granted ==> action is Save && action->Save_0.access_token@
                == parsed->Ok_0.access_token@ && action->Save_0.expires_at == now
                + parsed->Ok_0.expires_in
            &&& !granted ==> action is Fail
        },
        TokenEvent::Saved(token) => {
            &&& token.expires_at >= now + 60 ==> action is Done && action->Done_0@
                == token.access_token@
            &&& token.expires_at < now + 60 ==> action is Fail
        },
        TokenEvent::Unreachable(why) => action is Fail && action->Fail_0@ == ErrorView::Transport(
            why@,
        ),
        TokenEvent::StorageFailed(why) => action is Fail && action->Fail_0@ == ErrorView::Storage(
            why@,
        ),
        _ => true,
    }
}

/// On the way to a token the cache comes first, then the table, under the lock, and
/// then the endpoint; what it grants is stored, cached and handed out.
pub proof fn law_access_token_takes_the_steps_in_order()
    ensures
        forall|client: &mut LhdnClient, event: TokenEvent, now: i64, action: TokenAction|
            #[trigger] call_ensures(LhdnClient::access_token, (client, event, now), action)
                ==> takes_token_step(mut_ref_current(client)@, event, action, now),
{
}

/// A payload with a reference that is not in use is taken in, under the reference
/// without the white space around it, and stored as it came.
pub proof fn law_submit_invoice_takes_the_payload_in()
    ensures
        forall|
            repo: &mut InvoiceRepo,
            payload: &serde_json::Value,
            id: &str,
            now: i64,
            answer: Result<(u16, InvoiceRow), ApiError>,
            text: &str,
        |
            #![trigger
                call_ensures(submit_invoice_at, (repo, payload, id, now), answer),
                string_text(text@)
            ]
            call_ensures(submit_invoice_at, (repo, payload, id, now), answer)
                && mut_ref_current(repo)@.next_outbox_id < i64::MAX
                && json_member(json_text(*payload), "invoice_ref"@) == Some(string_text(text@))
                ==> takes_in(
                mut_ref_current(repo)@,
                mut_ref_future(repo)@,
                answer,
                Some(text),
                json_text(*payload),
                id@,
                now,
            ),
{
    assert forall|
        repo: &mut InvoiceRepo,
        payload: &serde_json::Value,
        id: &str,
        now: i64,
        answer: Result<(u16, InvoiceRow), ApiError>,
        text: &str,
    |
        #![trigger
            call_ensures(submit_invoice_at, (repo, payload, id, now), answer),
            string_text(text@)
        ]
        call_ensures(submit_invoice_at, (repo, payload, id, now), answer)
            && mut_ref_current(repo)@.next_outbox_id < i64::MAX
            && json_member(json_text(*payload), "invoice_ref"@) == Some(
            string_text(text@),
        ) implies takes_in(
        mut_ref_current(repo)@,
        mut_ref_future(repo)@,
        answer,
        Some(text),
        json_text(*payload),
        id@,
        now,
    ) by {
        lemma_string_value(text@);
        law_new_invoices_are_taken_in(
            mut_ref_current(repo)@,
            mut_ref_future(repo)@,
            answer,
            crate::api::required(Some(text@)),
            json_text(*payload),
            id@,
            now,
        );
    }
}

/// A request to cancel that names a reason is answered by the deadline, like any
/// other.
pub proof fn law_cancel_invoice_follows_the_deadline()
    ensures
        forall|
            repo: &mut InvoiceRepo,
            invoice_ref: &str,
            body: &serde_json::Value,
            now: i64,
            answer: Result<(u16, InvoiceRow), ApiError>,
            id: Seq<char>,
            reason: Seq<char>,
        |
            #![trigger
                call_ensures(cancel_invoice, (repo, invoice_ref, body, now), answer),
                is_the_one(mut_ref_current(repo)@, id, invoice_ref@),
                string_text(reason)
            ]
            call_ensures(cancel_invoice, (repo, invoice_ref, body, now), answer)
                && mut_ref_current(repo)@.next_outbox_id < i64::MAX
                && json_member(json_text(*body), "reason"@) == Some(string_text(reason))
                && trimmed(reason).len() > 0 ==> answers_cancellation(
                mut_ref_current(repo)@,
                mut_ref_future(repo)@,
                answer,
                id,
                invoice_ref@,
                trimmed(reason),
                now,
            ),
{
    assert forall|
        repo: &mut InvoiceRepo,
        invoice_ref: &str,
        body: &serde_json::Value,
        now: i64,
        answer: Result<(u16, InvoiceRow), ApiError>,
        id: Seq<char>,
        reason: Seq<char>,
    |
        #![trigger
            call_ensures(cancel_invoice, (repo, invoice_ref, body, now), answer),
            is_the_one(mut_ref_current(repo)@, id, invoice_ref@),
            string_text(reason)
        ]
        call_ensures(cancel_invoice, (repo, invoice_ref, body, now), answer)
            && mut_ref_current(repo)@.next_outbox_id < i64::MAX
            && json_member(json_text(*body), "reason"@) == Some(string_text(reason)) && trimmed(
            reason,
        ).len() > 0 implies answers_cancellation(
        mut_ref_current(repo)@,
        mut_ref_future(repo)@,
        answer,
        id,
        invoice_ref@,
        trimmed(reason),
        now,
    ) by {
        lemma_string_value(reason);
        if is_the_one(mut_ref_current(repo)@, id, invoice_ref@) {
            law_cancellation_is_taken_in_up_to_the_deadline(
                mut_ref_current(repo)@,
                mut_ref_future(repo)@,
                answer,
                id,
                invoice_ref@,
                crate::api::required(Some(reason)),
                now,
            );
        }
    }
}

/// A bundle that can be read and opened loads with its first key and its first
/// certificate.
pub proof fn law_from_p12_loads_the_first_key_and_certificate(
    bytes: &[u8],
    password: &str,
    loaded: Result<Signer, DomainError>,
    pfx: p12::PFX,
    keys: Seq<Seq<u8>>,
    certs: Seq<Seq<u8>>,
    key: rsa::RsaPrivateKey,
)
    requires
        call_ensures(Signer::from_p12, (bytes, password), loaded),
        is_readable_bundle(bytes@),
        p12_parsed(bytes@) == Ok::<p12::PFX, Seq<char>>(pfx),
        is_openable(pfx, password@),
        p12_keys(pfx, password@) == Ok::<Seq<Seq<u8>>, Seq<char>>(keys),
        p12_certs(pfx, password@) == Ok::<Seq<Seq<u8>>, Seq<char>>(certs),
        keys.len() > 0,
        certs.len() > 0,
        rsa_key(keys[0]) == Ok::<rsa::RsaPrivateKey, Seq<char>>(key),
    ensures
        loaded is Ok,
        loaded->Ok_0.key() == key,
        loaded->Ok_0.certificate() == certs[0],
{
}

/// Settings are what their texts say: a switch is on for three words, an environment
/// is named, an address is the one that is set or the default.
pub proof fn law_settings_are_what_they_say(
    text: &str,
    on: bool,
    env: Result<LhdnEnv, String>,
    set: String,
    addr: String,
    default_addr: String,
)
    requires
        call_ensures(env_bool, (Some(text),), on),
        call_ensures(parse_lhdn_env, (text,), env),
        call_ensures(bind_addr, (Some(set),), addr),
        call_ensures(bind_addr, (None::<String>,), default_addr),
    ensures
        ({
            let plain = ascii_lowered(trimmed(text@));
            &&& on <==> plain == "1"@ || plain == "true"@ || plain == "yes"@
            &&& plain == "preprod"@ ==> env == Ok::<LhdnEnv, String>(LhdnEnv::Preprod)
            &&& plain == "prod"@ ==> env == Ok::<LhdnEnv, String>(LhdnEnv::Prod)
            &&& plain != "preprod"@ && plain != "prod"@ ==> env is Err
        }),
        addr@ == set@,
        default_addr@ == "127.0.0.1:8080"@,
{
    reveal_strlit("preprod");
    reveal_strlit("prod");
    assert("preprod"@.len() != "prod"@.len());
}

} // verus!
