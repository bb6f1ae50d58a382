//! What each answer of LHDN, and each failure, does to an invoice and its event.

use vstd::prelude::*;
use vstd::utf8::{decode_utf8, valid_utf8};
use super::rows::{
    event_added, only_event_gone, only_event_moved, only_invoice_changed, same_cancellation,
    same_delivery, same_invoice, same_plan, same_validation,
};
use crate::clock::rfc3339_instant;
use crate::domain::SignedDocument;
use crate::encoding::base64_text;
use crate::invoice::{InvoiceStatus, InvoiceView};
use crate::json::{array_text, json_text, object_text, string_text};
use crate::lhdn::error::ErrorView;
use crate::lhdn::models::{
    DocumentDetails, DocumentStatus, LhdnErrorEnvelope, SubmissionFormat, SubmissionResponse,
};
use crate::lhdn::LhdnEnv;
use crate::repo::{EventKind, RepoView};
use crate::text::decimal;
use crate::worker::canceller::{after_cancel_error, cancel_obstacle};
use crate::worker::poller::{after_details, after_poll_error, answer_fits, can_poll};
use crate::worker::submitter::{
    accepted_uuid, after_answer, after_delivery_error, delivered, first_rejection, retry_fits,
};
use crate::worker::{poll_backoff, submit_backoff};

verus! {

/// Whether a rejected entry of the answer carries the document's code number.
pub open spec fn is_rejected(resp: SubmissionResponse, signed: SignedDocument) -> bool {
    exists|i: int|
        0 <= i < resp.rejected_documents@.len() && (
        #[trigger] resp.rejected_documents@[i]).invoice_code_number@ == signed.code_number@
}

/// Whether the entry is the first of the rejected ones that carries the document's
/// code number.
pub open spec fn is_first_rejected(
    resp: SubmissionResponse,
    signed: SignedDocument,
    i: int,
) -> bool {
    &&& 0 <= i < resp.rejected_documents@.len()
    &&& resp.rejected_documents@[i].invoice_code_number@ == signed.code_number@
    &&& forall|j: int|
        0 <= j < i ==> (#[trigger] resp.rejected_documents@[j]).invoice_code_number@
            != signed.code_number@
}

/// Whether the entry is the first of the accepted ones that carries the document's
/// code number.
pub open spec fn is_first_accepted(
    resp: SubmissionResponse,
    signed: SignedDocument,
    i: int,
) -> bool {
    &&& 0 <= i < resp.accepted_documents@.len()
    &&& resp.accepted_documents@[i].invoice_code_number@ == signed.code_number@
    &&& forall|j: int|
        0 <= j < i ==> (#[trigger] resp.accepted_documents@[j]).invoice_code_number@
            != signed.code_number@
}

/// The JSON object that is kept of a rejection: which error, with all that LHDN
/// says of it, and at which stage.
pub open spec fn rejection_body(error: LhdnErrorEnvelope) -> Seq<char> {
    object_text(
        seq![
            ("code"@, string_text(error.code@)),
            (
                "details"@,
                array_text(error.details@.map_values(|value: serde_json::Value| json_text(value))),
            ),
            ("message"@, string_text(error.message@)),
            ("stage"@, string_text("lhdn_rejection"@)),
        ],
    )
}

/// What is said of a rejection is said by the first entry that carries the code
/// number, and nothing is where none does.
pub proof fn lemma_first_rejection(
    docs: Seq<crate::lhdn::models::RejectedDocument>,
    code_number: Seq<char>,
)
    ensures
        match first_rejection(docs, code_number) {
            Some(error) => exists|i: int|
                0 <= i < docs.len() && (#[trigger] docs[i]).invoice_code_number@ == code_number
                    && docs[i].error@ == error && (forall|j: int|
                    0 <= j < i ==> (#[trigger] docs[j]).invoice_code_number@ != code_number),
            None => forall|i: int|
                0 <= i < docs.len() ==> (#[trigger] docs[i]).invoice_code_number@ != code_number,
        },
    decreases docs.len(),
{
    if docs.len() > 0 {
        let rest = docs.drop_first();
        lemma_first_rejection(rest, code_number);
        assert forall|k: int| 0 <= k < rest.len() implies #[trigger] rest[k] == docs[k + 1] by {}
        if docs[0].invoice_code_number@ != code_number {
            match first_rejection(rest, code_number) {
                Some(error) => {
                    let i = choose|i: int|
                        0 <= i < rest.len() && (#[trigger] rest[i]).invoice_code_number@
                            == code_number && rest[i].error@ == error && (forall|j: int|
                            0 <= j < i ==> (#[trigger] rest[j]).invoice_code_number@
                                != code_number);
                    assert(docs[i + 1].invoice_code_number@ == code_number);
                    assert forall|j: int| 0 <= j < i + 1 implies (
                    #[trigger] docs[j]).invoice_code_number@ != code_number by {
                        if j > 0 {
                            assert(rest[j - 1] == docs[j]);
                        }
                    }
                },
                None => {
                    assert forall|i: int| 0 <= i < docs.len() implies (
                    #[trigger] docs[i]).invoice_code_number@ != code_number by {
                        if i > 0 {
                            assert(rest[i - 1] == docs[i]);
                        }
                    }
                },
            }
        } else {
            assert(docs.first() == docs[0]);
        }
    }
}

proof fn lemma_accepted_uuid(
    docs: Seq<crate::lhdn::models::AcceptedDocument>,
    code_number: Seq<char>,
    i: int,
)
    ensures
        0 <= i < docs.len() && docs[i].invoice_code_number@ == code_number && (forall|j: int|
            0 <= j < i ==> (#[trigger] docs[j]).invoice_code_number@ != code_number)
            ==> accepted_uuid(docs, code_number) == docs[i].uuid@,
        (forall|j: int|
            0 <= j < docs.len() ==> (#[trigger] docs[j]).invoice_code_number@ != code_number)
            ==> accepted_uuid(docs, code_number).len() == 0,
    decreases docs.len(),
{
    reveal_strlit("");
    if docs.len() > 0 {
        let rest = docs.drop_first();
        lemma_accepted_uuid(rest, code_number, i - 1);
        assert forall|k: int| 0 <= k < rest.len() implies #[trigger] rest[k] == docs[k + 1] by {}
        assert(docs.first() == docs[0]);
    }
}

/// A document that LHDN rejected ends in `Failed`, whatever the error holds: with
/// the error and the stage, the attempts as they were, and without its event.
pub proof fn law_rejected_documents_fail(
    repo: RepoView,
    id: Seq<char>,
    event: i64,
    signed: SignedDocument,
    resp: SubmissionResponse,
    now: i64,
    i: int,
)
    requires
        repo.invoices.contains_key(id),
        is_first_rejected(resp, signed, i),
    ensures
        after_answer(repo, id, event, signed, resp, now) matches Some(after) && {
            let was = repo.invoices[id];
            let row = after.invoices[id];
            &&& row.lhdn_status == InvoiceStatus::Failed
            &&& row.error_json == Some(rejection_body(resp.rejected_documents@[i].error))
            &&& row.attempts == was.attempts
            &&& row.next_attempt_at is None
            &&& row.updated_at == now
            &&& same_invoice(was, row)
            &&& same_delivery(was, row)
            &&& same_validation(was, row)
            &&& same_cancellation(was, row)
            &&& only_invoice_changed(repo, after, id)
            &&& only_event_gone(repo, after, event)
        },
{
    let docs = resp.rejected_documents@;
    let code_number = signed.code_number@;
    lemma_first_rejection(docs, code_number);
    assert(docs[i].invoice_code_number@ == code_number);
    let error = first_rejection(docs, code_number)->0;
    let k = choose|k: int|
        0 <= k < docs.len() && (#[trigger] docs[k]).invoice_code_number@ == code_number
            && docs[k].error@ == error && (forall|j: int|
            0 <= j < k ==> (#[trigger] docs[j]).invoice_code_number@ != code_number);
    assert(k == i);
}

/// An answer that rejects the document in any entry leaves the invoice with an
/// error and no event, never `Submitted`. It becomes `Submitted` only where no
/// rejected entry carries its code number.
pub proof fn law_no_rejection_is_overlooked(
    repo: RepoView,
    id: Seq<char>,
    event: i64,
    signed: SignedDocument,
    resp: SubmissionResponse,
    now: i64,
)
    requires
        repo.invoices.contains_key(id),
    ensures
        is_rejected(resp, signed) ==> (after_answer(repo, id, event, signed, resp, now) matches Some(
            after,
        ) && after.invoices[id].lhdn_status == InvoiceStatus::Failed
            && after.invoices[id].error_json is Some && !after.outbox.contains_key(event)
            && after.next_outbox_id == repo.next_outbox_id),
        after_answer(repo, id, event, signed, resp, now) matches Some(after)
            && after.invoices[id].lhdn_status == InvoiceStatus::Submitted ==> !is_rejected(
            resp,
            signed,
        ),
{
    let docs = resp.rejected_documents@;
    lemma_first_rejection(docs, signed.code_number@);
    if is_rejected(resp, signed) {
        let i = choose|i: int|
            0 <= i < docs.len() && (#[trigger] docs[i]).invoice_code_number@
                == signed.code_number@;
        assert(docs[i].invoice_code_number@ == signed.code_number@);
    }
}

/// A document that LHDN did not reject makes the invoice `Submitted`, with the
/// submission, the UUID that the answer gives it, the signed document and its
/// signature and digest. An event to ask for the outcome takes the place of the
/// one that was handled.
pub proof fn law_documents_that_are_not_rejected_are_submitted(
    repo: RepoView,
    id: Seq<char>,
    event: i64,
    signed: SignedDocument,
    resp: SubmissionResponse,
    now: i64,
    i: int,
)
    requires
        repo.invoices.contains_key(id),
        repo.next_outbox_id < i64::MAX,
        event < repo.next_outbox_id,
        !is_rejected(resp, signed),
        valid_utf8(signed.canonical_bytes@),
    ensures
        after_answer(repo, id, event, signed, resp, now) matches Some(after) && {
            let was = repo.invoices[id];
            let row = after.invoices[id];
            &&& row.lhdn_status == InvoiceStatus::Submitted
            &&& row.lhdn_submission_uid == Some(resp.submission_uid@)
            &&& is_first_accepted(resp, signed, i) ==> row.lhdn_uuid == Some(
                resp.accepted_documents@[i].uuid@,
            )
            &&& (forall|j: int|
                0 <= j < resp.accepted_documents@.len() ==> (
                #[trigger] resp.accepted_documents@[j]).invoice_code_number@
                    != signed.code_number@) ==> (row.lhdn_uuid matches Some(uuid) && uuid.len()
                == 0)
            &&& row.signature == Some(signed.signature@)
            &&& row.ubl_xml == Some(decode_utf8(signed.canonical_bytes@))
            &&& row.doc_digest == Some(signed.document_hash@)
            &&& row.submitted_at == Some(now)
            &&& row.error_json is None
            &&& row.next_attempt_at is None
            &&& row.attempts == was.attempts
            &&& row.updated_at == now
            &&& same_invoice(was, row)
            &&& same_validation(was, row)
            &&& same_cancellation(was, row)
            &&& only_invoice_changed(repo, after, id)
            &&& event_added(repo, after, Some(event), id, EventKind::Poll, now)
        },
{
    let docs = resp.rejected_documents@;
    lemma_first_rejection(docs, signed.code_number@);
    if first_rejection(docs, signed.code_number@) is Some {
        let k = choose|k: int|
            0 <= k < docs.len() && (#[trigger] docs[k]).invoice_code_number@
                == signed.code_number@;
        assert(docs[k].invoice_code_number@ == signed.code_number@);
        assert(is_rejected(resp, signed));
    }
    lemma_accepted_uuid(resp.accepted_documents@, signed.code_number@, i);
}

/// Only a document that is not rejected and not text has no effect.
pub proof fn law_answers_take_effect(
    repo: RepoView,
    id: Seq<char>,
    event: i64,
    signed: SignedDocument,
    resp: SubmissionResponse,
    now: i64,
)
    ensures
        after_answer(repo, id, event, signed, resp, now) is None <==> !is_rejected(resp, signed)
            && !valid_utf8(signed.canonical_bytes@),
{
    let docs = resp.rejected_documents@;
    lemma_first_rejection(docs, signed.code_number@);
    if is_rejected(resp, signed) {
        let i = choose|i: int|
            0 <= i < docs.len() && (#[trigger] docs[i]).invoice_code_number@
                == signed.code_number@;
        assert(docs[i].invoice_code_number@ == signed.code_number@);
    }
    if first_rejection(docs, signed.code_number@) is Some {
        let k = choose|k: int|
            0 <= k < docs.len() && (#[trigger] docs[k]).invoice_code_number@
                == signed.code_number@;
        assert(docs[k].invoice_code_number@ == signed.code_number@);
    }
}

/// What is delivered is the signed document in base64, under its code number and
/// with its hash.
pub proof fn law_the_signed_document_is_delivered(signed: SignedDocument)
    ensures
        delivered(signed).format == SubmissionFormat::Json,
        delivered(signed).document_hash == signed.document_hash@,
        delivered(signed).code_number == signed.code_number@,
        delivered(signed).document == base64_text(signed.canonical_bytes@),
{
}

/// Whether the same call may succeed later: the server was busy, down or not
/// reached, or the local database failed.
pub open spec fn may_pass(error: ErrorView) -> bool {
    match error {
        ErrorView::RateLimited { .. } | ErrorView::Server { .. } | ErrorView::Transport(_)
        | ErrorView::Storage(_) => true,
        ErrorView::Auth(_) | ErrorView::BadRequest(_) | ErrorView::NotFound
        | ErrorView::Conflict(_) | ErrorView::Schema(_) | ErrorView::Config(_) => false,
    }
}

/// What is worth a retry is what may pass.
pub proof fn law_only_what_may_pass_is_retried(error: ErrorView)
    ensures
        error.transient() <==> may_pass(error),
{
}

/// The waits after a failed delivery or cancellation: half a minute, two minutes,
/// ten minutes, then an hour each time.
pub proof fn law_submit_backoff_steps(attempt: int)
    ensures
        attempt == 1 ==> submit_backoff(attempt) == 30,
        attempt == 2 ==> submit_backoff(attempt) == 2 * 60,
        attempt == 3 ==> submit_backoff(attempt) == 10 * 60,
        attempt >= 4 || attempt <= 0 ==> submit_backoff(attempt) == 60 * 60,
{
}

/// The waits between polls: five, fifteen and thirty seconds, a minute, then five
/// minutes up to the tenth poll and a quarter of an hour from then on.
pub proof fn law_poll_backoff_steps(attempt: int)
    ensures
        attempt == 0 || attempt == 1 ==> poll_backoff(attempt) == 5,
        attempt == 2 ==> poll_backoff(attempt) == 15,
        attempt == 3 ==> poll_backoff(attempt) == 30,
        attempt == 4 ==> poll_backoff(attempt) == 60,
        5 <= attempt <= 10 ==> poll_backoff(attempt) == 5 * 60,
        attempt >= 11 || attempt < 0 ==> poll_backoff(attempt) == 15 * 60,
{
}

/// Which answers can be worked on is a matter of the numbers alone: the count of
/// attempts and the times have to fit.
pub proof fn law_only_numbers_limit_the_answers(
    attempts: i64,
    wait: int,
    now: i64,
    status: DocumentStatus,
)
    ensures
        retry_fits(attempts, wait, now) <==> attempts < i64::MAX && now + wait <= i64::MAX,
        attempts < i64::MAX && now + 259_200 <= i64::MAX ==> answer_fits(status, attempts, now),
        status == DocumentStatus::Invalid || status == DocumentStatus::Cancelled ==> answer_fits(
            status,
            attempts,
            now,
        ),
{
}

/// The JSON object that is kept of a delivery that failed.
pub open spec fn delivery_error_body(error: ErrorView, attempts: int) -> Seq<char> {
    object_text(
        seq![
            ("attempts"@, decimal(attempts)),
            ("kind"@, string_text(error.variant_text())),
            ("message"@, string_text(error.message())),
        ],
    )
}

/// The JSON object that is kept of a call that failed at a later stage.
pub open spec fn stage_error_body(stage: Seq<char>, error: ErrorView, attempts: int) -> Seq<char> {
    object_text(
        seq![
            ("attempts"@, decimal(attempts)),
            ("kind"@, string_text(error.variant_text())),
            ("message"@, string_text(error.message())),
            ("stage"@, string_text(stage)),
        ],
    )
}

/// A delivery that failed is tried again as long as the error may pass and
/// attempts are left: the status stays, the attempt is counted and the error kept,
/// and row and event wait together until the backoff is over. Otherwise, and only
/// then, the invoice is `Failed` with the error, and the event is gone.
pub proof fn law_failed_deliveries_are_retried_or_given_up(
    repo: RepoView,
    max_attempts: i64,
    id: Seq<char>,
    event: i64,
    attempts: i64,
    error: ErrorView,
    now: i64,
)
    requires
        repo.invoices.contains_key(id),
        attempts < i64::MAX,
        now + 3600 <= i64::MAX,
    ensures
        ({
            let after = after_delivery_error(repo, max_attempts, id, event, attempts, error, now);
            let was = repo.invoices[id];
            let row = after.invoices[id];
            &&& row.attempts == attempts + 1
            &&& row.error_json == Some(delivery_error_body(error, attempts + 1))
            &&& row.updated_at == now
            &&& same_invoice(was, row)
            &&& same_delivery(was, row)
            &&& same_validation(was, row)
            &&& same_cancellation(was, row)
            &&& only_invoice_changed(repo, after, id)
            &&& may_pass(error) && attempts + 1 < max_attempts ==> {
                let at = now + submit_backoff(attempts + 1);
                &&& row.lhdn_status == was.lhdn_status
                &&& row.next_attempt_at == Some(at as i64)
                &&& only_event_moved(repo, after, event, attempts + 1, at, Some(error.message()))
            }
            &&& !may_pass(error) || attempts + 1 >= max_attempts ==> {
                &&& row.lhdn_status == InvoiceStatus::Failed
                &&& row.next_attempt_at is None
                &&& only_event_gone(repo, after, event)
            }
        }),
{
}

/// The instant that an answer names, where it names one that can be read, or the
/// present.
pub open spec fn named_instant(date: Option<String>, now: i64) -> int {
    match date {
        Some(text) => match rfc3339_instant(text@) {
            Some(at) => at as int,
            None => now as int,
        },
        None => now as int,
    }
}

/// A document that LHDN found valid makes the invoice `Valid`: validated when LHDN
/// says, or now, and to be cancelled for 72 hours from then, with the QR URL that
/// leads to the document in the portal of the environment. The event is gone.
pub proof fn law_valid_documents_open_the_window(
    repo: RepoView,
    env: LhdnEnv,
    max_attempts: i64,
    id: Seq<char>,
    event: i64,
    attempts: i64,
    details: DocumentDetails,
    now: i64,
)
    requires
        repo.invoices.contains_key(id),
        details.status == DocumentStatus::Valid,
        named_instant(details.date_time_validated, now) + 259_200 <= i64::MAX,
    ensures
        ({
            let after = after_details(
                repo,
                env,
                max_attempts,
                id,
                event,
                attempts,
                details,
                now,
            );
            let was = repo.invoices[id];
            let row = after.invoices[id];
            let portal = match env {
                LhdnEnv::Preprod => "https://preprod.myinvois.hasil.gov.my"@,
                LhdnEnv::Prod => "https://myinvois.hasil.gov.my"@,
            };
            let long_id = match details.long_id {
                Some(text) => text@,
                None => ""@,
            };
            &&& row.lhdn_status == InvoiceStatus::Valid
            &&& row.validated_at matches Some(at) && at == named_instant(
                details.date_time_validated,
                now,
            )
            &&& row.cancellable_until matches Some(until) && until == named_instant(
                details.date_time_validated,
                now,
            ) + 72 * 60 * 60
            &&& row.lhdn_long_id == Some(long_id)
            &&& row.qr_url == Some(portal + "/"@ + details.uuid@ + "/share/"@ + long_id)
            &&& row.error_json == was.error_json
            &&& row.updated_at == now
            &&& same_invoice(was, row)
            &&& same_delivery(was, row)
            &&& same_cancellation(was, row)
            &&& same_plan(was, row)
            &&& only_invoice_changed(repo, after, id)
            &&& only_event_gone(repo, after, event)
        }),
{
}

/// A document that LHDN found invalid makes the invoice `Invalid`, with LHDN's
/// reason. The event is gone.
pub proof fn law_invalid_documents_keep_the_reason(
    repo: RepoView,
    env: LhdnEnv,
    max_attempts: i64,
    id: Seq<char>,
    event: i64,
    attempts: i64,
    details: DocumentDetails,
    now: i64,
)
    requires
        repo.invoices.contains_key(id),
        details.status == DocumentStatus::Invalid,
    ensures
        ({
            let after = after_details(
                repo,
                env,
                max_attempts,
                id,
                event,
                attempts,
                details,
                now,
            );
            let was = repo.invoices[id];
            let row = after.invoices[id];
            let reason = match details.document_status_reason {
                Some(text) => string_text(text@),
                None => "null"@,
            };
            &&& row.lhdn_status == InvoiceStatus::Invalid
            &&& row.error_json == Some(
                object_text(
                    seq![
                        ("reason"@, reason),
                        ("stage"@, string_text("lhdn_validation"@)),
                        ("status"@, string_text("Invalid"@)),
                    ],
                ),
            )
            &&& row.updated_at == now
            &&& same_invoice(was, row)
            &&& same_delivery(was, row)
            &&& same_validation(was, row)
            &&& same_cancellation(was, row)
            &&& same_plan(was, row)
            &&& only_invoice_changed(repo, after, id)
            &&& only_event_gone(repo, after, event)
        }),
{
}

/// A document that LHDN cancelled makes the invoice `Cancelled`, when LHDN says, or
/// now. The event is gone.
pub proof fn law_cancelled_documents_keep_the_time(
    repo: RepoView,
    env: LhdnEnv,
    max_attempts: i64,
    id: Seq<char>,
    event: i64,
    attempts: i64,
    details: DocumentDetails,
    now: i64,
)
    requires
        repo.invoices.contains_key(id),
        details.status == DocumentStatus::Cancelled,
    ensures
        ({
            let after = after_details(
                repo,
                env,
                max_attempts,
                id,
                event,
                attempts,
                details,
                now,
            );
            let was = repo.invoices[id];
            let row = after.invoices[id];
            &&& row.lhdn_status == InvoiceStatus::Cancelled
            &&& row.cancelled_at matches Some(at) && at == named_instant(
                details.cancel_date_time,
                now,
            )
            &&& row.cancellation_reason == was.cancellation_reason
            &&& row.error_json == was.error_json
            &&& row.updated_at == now
            &&& same_invoice(was, row)
            &&& same_delivery(was, row)
            &&& same_validation(was, row)
            &&& same_plan(was, row)
            &&& only_invoice_changed(repo, after, id)
            &&& only_event_gone(repo, after, event)
        }),
{
}

/// As long as LHDN is still validating and attempts are left, the invoice does not
/// change at all and its event waits until the backoff is over, without an error.
/// Only when the attempts are used up is the invoice `Invalid`, with their number,
/// and the event gone.
pub proof fn law_polling_goes_on_up_to_the_ceiling(
    repo: RepoView,
    env: LhdnEnv,
    max_attempts: i64,
    id: Seq<char>,
    event: i64,
    attempts: i64,
    details: DocumentDetails,
    now: i64,
)
    requires
        repo.invoices.contains_key(id),
        details.status == DocumentStatus::Submitted,
        attempts < i64::MAX,
        now + 900 <= i64::MAX,
    ensures
        ({
            let after = after_details(
                repo,
                env,
                max_attempts,
                id,
                event,
                attempts,
                details,
                now,
            );
            let was = repo.invoices[id];
            let row = after.invoices[id];
            &&& attempts + 1 < max_attempts ==> {
                &&& after.invoices == repo.invoices
                &&& only_event_moved(
                    repo,
                    after,
                    event,
                    attempts + 1,
                    now + poll_backoff(attempts + 1),
                    None,
                )
            }
            &&& attempts + 1 >= max_attempts ==> {
                &&& row.lhdn_status == InvoiceStatus::Invalid
                &&& row.error_json == Some(
                    object_text(
                        seq![
                            ("attempts"@, decimal(attempts + 1)),
                            ("stage"@, string_text("poll_exhausted"@)),
                            ("status"@, string_text("Submitted"@)),
                        ],
                    ),
                )
                &&& row.updated_at == now
                &&& same_invoice(was, row)
                &&& same_delivery(was, row)
                &&& same_validation(was, row)
                &&& same_cancellation(was, row)
                &&& same_plan(was, row)
                &&& only_invoice_changed(repo, after, id)
                &&& only_event_gone(repo, after, event)
            }
        }),
{
}

/// A poll that failed is tried again as long as the error may pass and attempts are
/// left: the invoice does not change, and the event waits with the error until the
/// backoff is over. Otherwise, and only then, the error is kept with the invoice,
/// whose status stays, and the event is gone.
pub proof fn law_failed_polls_are_retried_or_given_up(
    repo: RepoView,
    max_attempts: i64,
    id: Seq<char>,
    event: i64,
    attempts: i64,
    error: ErrorView,
    now: i64,
)
    requires
        repo.invoices.contains_key(id),
        attempts < i64::MAX,
        now + 900 <= i64::MAX,
    ensures
        ({
            let after = after_poll_error(repo, max_attempts, id, event, attempts, error, now);
            &&& may_pass(error) && attempts + 1 < max_attempts ==> {
                &&& after.invoices == repo.invoices
                &&& only_event_moved(
                    repo,
                    after,
                    event,
                    attempts + 1,
                    now + poll_backoff(attempts + 1),
                    Some(error.message()),
                )
            }
            &&& !may_pass(error) || attempts + 1 >= max_attempts ==> given_up(
                repo,
                after,
                id,
                event,
                stage_error_body("poll"@, error, attempts + 1),
                now,
            )
        }),
{
}

/// Whether the event is gone and the error is kept with the invoice, which is
/// otherwise as it was.
pub open spec fn given_up(
    before: RepoView,
    after: RepoView,
    id: Seq<char>,
    event: i64,
    error_json: Seq<char>,
    now: i64,
) -> bool {
    let was = before.invoices[id];
    let row = after.invoices[id];
    &&& row.lhdn_status == was.lhdn_status
    &&& row.error_json == Some(error_json)
    &&& row.updated_at == now
    &&& same_invoice(was, row)
    &&& same_delivery(was, row)
    &&& same_validation(was, row)
    &&& same_cancellation(was, row)
    &&& same_plan(was, row)
    &&& only_invoice_changed(before, after, id)
    &&& only_event_gone(before, after, event)
}

/// A cancellation that failed is tried again as long as the error may pass and
/// attempts are left, and otherwise given up with the status as it is: the
/// document may still be valid at LHDN.
pub proof fn law_failed_cancellations_are_retried_or_given_up(
    repo: RepoView,
    max_attempts: i64,
    id: Seq<char>,
    event: i64,
    attempts: i64,
    error: ErrorView,
    now: i64,
)
    requires
        repo.invoices.contains_key(id),
        attempts < i64::MAX,
        now + 3600 <= i64::MAX,
    ensures
        ({
            let after = after_cancel_error(repo, max_attempts, id, event, attempts, error, now);
            &&& may_pass(error) && attempts + 1 < max_attempts ==> {
                &&& after.invoices == repo.invoices
                &&& only_event_moved(
                    repo,
                    after,
                    event,
                    attempts + 1,
                    now + submit_backoff(attempts + 1),
                    Some(error.message()),
                )
            }
            &&& !may_pass(error) || attempts + 1 >= max_attempts ==> given_up(
                repo,
                after,
                id,
                event,
                stage_error_body("cancel"@, error, attempts + 1),
                now,
            )
        }),
{
}

/// An answer or a failure for an invoice that is gone touches the event alone: it
/// is put off where it would be put off for an invoice that is there, and removed
/// otherwise.
pub proof fn law_orphans_are_not_kept(
    repo: RepoView,
    env: LhdnEnv,
    max_attempts: i64,
    id: Seq<char>,
    event: i64,
    attempts: i64,
    signed: SignedDocument,
    resp: SubmissionResponse,
    details: DocumentDetails,
    error: ErrorView,
    now: i64,
)
    requires
        !repo.invoices.contains_key(id),
        attempts < i64::MAX,
        now + 3600 <= i64::MAX,
    ensures
        ({
            let retried = may_pass(error) && attempts + 1 < max_attempts;
            let delivery = after_delivery_error(repo, max_attempts, id, event, attempts, error, now);
            let poll = after_poll_error(repo, max_attempts, id, event, attempts, error, now);
            let cancel = after_cancel_error(repo, max_attempts, id, event, attempts, error, now);
            let told = after_details(
                repo,
                env,
                max_attempts,
                id,
                event,
                attempts,
                details,
                now,
            );
            let waits = details.status == DocumentStatus::Submitted && attempts + 1 < max_attempts;
            let message = Some(error.message());
            let later = now + submit_backoff(attempts + 1);
            let soon = now + poll_backoff(attempts + 1);
            &&& after_answer(repo, id, event, signed, resp, now) matches Some(after)
                ==> after.invoices == repo.invoices && only_event_gone(repo, after, event)
            &&& delivery.invoices == repo.invoices && poll.invoices == repo.invoices
            &&& cancel.invoices == repo.invoices && told.invoices == repo.invoices
            &&& retried ==> only_event_moved(repo, delivery, event, attempts + 1, later, message)
            &&& retried ==> only_event_moved(repo, poll, event, attempts + 1, soon, message)
            &&& retried ==> only_event_moved(repo, cancel, event, attempts + 1, later, message)
            &&& !retried ==> only_event_gone(repo, delivery, event)
            &&& !retried ==> only_event_gone(repo, poll, event)
            &&& !retried ==> only_event_gone(repo, cancel, event)
            &&& waits ==> only_event_moved(repo, told, event, attempts + 1, soon, None)
            &&& !waits ==> only_event_gone(repo, told, event)
        }),
{
}

/// LHDN is asked about a document exactly where its UUID is known and not empty.
pub proof fn law_polls_need_a_uuid(lhdn_uuid: Option<Seq<char>>)
    ensures
        lhdn_uuid matches Some(uuid) && uuid.len() > 0 ==> can_poll(lhdn_uuid),
        lhdn_uuid matches Some(uuid) && uuid.len() == 0 ==> !can_poll(lhdn_uuid),
        lhdn_uuid is None ==> !can_poll(lhdn_uuid),
{
}

/// LHDN is asked to cancel a document exactly where its UUID and the reason are
/// known and not empty and the window is open; otherwise the first of these that
/// is missing is named.
pub proof fn law_cancellation_is_sent_where_nothing_is_missing(
    lhdn_uuid: Option<Seq<char>>,
    reason: Option<Seq<char>>,
    until: Option<i64>,
    now: i64,
)
    ensures
        ({
            let obstacle = cancel_obstacle(lhdn_uuid, reason, until, now);
            let has_uuid = lhdn_uuid matches Some(uuid) && uuid.len() > 0;
            let has_reason = reason matches Some(text) && text.len() > 0;
            let is_open = until matches Some(deadline) && now < deadline;
            &&& obstacle is None <==> has_uuid && has_reason && is_open
            &&& !has_uuid ==> obstacle == Some("missing lhdn_uuid"@)
            &&& has_uuid && !has_reason ==> obstacle == Some("missing cancellation_reason"@)
            &&& has_uuid && has_reason && !is_open ==> obstacle == Some(
                "past cancellation window"@,
            )
        }),
{
}

/// The JSON objects that are kept of what never reached LHDN name the reason and
/// the stage.
pub proof fn law_bodies_name_reason_and_stage(reason: Seq<char>)
    ensures
        crate::report::build_error(reason) == object_text(
            seq![
                ("error"@, string_text(reason)),
                ("stage"@, string_text("build_signed_document"@)),
            ],
        ),
        crate::report::precondition(reason) == object_text(
            seq![
                ("reason"@, string_text(reason)),
                ("stage"@, string_text("cancel_precondition"@)),
            ],
        ),
        crate::report::poll_precondition(reason) == object_text(
            seq![("reason"@, string_text(reason)), ("stage"@, string_text("poll_precondition"@))],
        ),
        crate::report::row_missing() == object_text(
            seq![("error"@, string_text("invoice row missing"@))],
        ),
{
}

} // verus!
