//! Submitter worker.
//!
//! Takes up due `submit` events. For each: load the invoice, build and sign the
//! UBL document, deliver it to LHDN, and update the row. Transient errors get
//! rescheduled with exponential backoff; non-transient errors and exhausted
//! retries end in `Failed`.

use std::time::Duration;
use vstd::prelude::*;
use vstd::utf8::{decode_utf8, valid_utf8};
use super::{instant_after, lhdn_variant_name, submit_backoff, submit_backoff_for};
use crate::clock::is_seconds;
use crate::domain::SignedDocument;
use crate::encoding::{base64_encode, base64_fits, base64_text};
use crate::invoice::{CompletionView, InvoiceStatus, InvoiceView, SubmissionCompletion};
use crate::json::{json_parse, json_parsed, parse_outcome};
use crate::laws::answers::{is_rejected, lemma_first_rejection};
use crate::laws::rows::only_event_gone;
use crate::lhdn::error::{ErrorView, LhdnError};
use crate::lhdn::models::{
    AcceptedDocument, EnvelopeView, RejectedDocument, SubmissionDocument, SubmissionDocumentView,
    SubmissionFormat, SubmissionResponse,
};
use crate::repo::due::submit_ids;
use crate::repo::{DueSubmitEvent, EventKind, InvoiceForSubmit, InvoiceRepo, RepoView};
use crate::report::{
    build_error, build_error_of, delivery_error, delivery_error_of, rejection, rejection_of,
    row_missing, row_missing_of,
};

verus! {

/// Worker tunables.
#[derive(Debug)]
pub struct SubmitterConfig {
    /// How long to sleep when there's no work to do.
    pub poll_interval: Duration,
    /// Max events handled per tick. SQLite serializes writers, so keep this
    /// small enough that one tick doesn't starve the API.
    pub batch_size: i64,
    /// Hard ceiling on retry attempts before giving up.
    pub max_attempts: i64,
}

impl Clone for SubmitterConfig {
    fn clone(&self) -> (copy: Self)
        ensures
            copy == *self,
    {
        SubmitterConfig {
            poll_interval: self.poll_interval,
            batch_size: self.batch_size,
            max_attempts: self.max_attempts,
        }
    }
}

impl Default for SubmitterConfig {
    fn default() -> (config: Self)
        ensures
            is_seconds(config.poll_interval, 5),
            config.batch_size == 16,
            config.max_attempts == 8,
    {
        SubmitterConfig {
            poll_interval: Duration::from_secs(5),
            batch_size: 16,
            max_attempts: 8,
        }
    }
}

/// The submitter: how it is set up.
#[derive(Debug)]
pub struct Submitter {
    pub config: SubmitterConfig,
}

/// What LHDN says of the first document that it rejected under the code number.
pub open spec fn first_rejection(docs: Seq<RejectedDocument>, code_number: Seq<char>) -> Option<
    EnvelopeView,
>
    decreases docs.len(),
{
    if docs.len() == 0 {
        None
    } else if docs.first().invoice_code_number@ == code_number {
        Some(docs.first().error@)
    } else {
        first_rejection(docs.drop_first(), code_number)
    }
}

/// The UUID of the first document that LHDN accepted under the code number; the
/// empty text where there is none.
pub open spec fn accepted_uuid(docs: Seq<AcceptedDocument>, code_number: Seq<char>) -> Seq<char>
    decreases docs.len(),
{
    if docs.len() == 0 {
        ""@
    } else if docs.first().invoice_code_number@ == code_number {
        docs.first().uuid@
    } else {
        accepted_uuid(docs.drop_first(), code_number)
    }
}

/// The document that is delivered.
pub open spec fn delivered(signed: SignedDocument) -> SubmissionDocumentView {
    SubmissionDocumentView {
        format: SubmissionFormat::Json,
        document_hash: signed.document_hash@,
        code_number: signed.code_number@,
        document: base64_text(signed.canonical_bytes@),
    }
}

/// The attempts that the invoice counts; none where it is gone.
pub open spec fn attempts_of(invoice: Option<InvoiceView>) -> i64 {
    match invoice {
        Some(row) => row.attempts,
        None => 0,
    }
}

/// The tables after LHDN answered the delivery: rejected documents end in
/// `Failed` without another attempt being counted, others are `Submitted`.
/// Nothing where the document is not text.
pub open spec fn after_answer(
    repo: RepoView,
    id: Seq<char>,
    outbox_id: i64,
    signed: SignedDocument,
    resp: SubmissionResponse,
    now: i64,
) -> Option<RepoView> {
    match first_rejection(resp.rejected_documents@, signed.code_number@) {
        Some(error) => Some(
            repo.after_failure(id, outbox_id, attempts_of(repo.load(id)), rejection(error), now),
        ),
        None => if valid_utf8(signed.canonical_bytes@) {
            Some(
                repo.after_submission(
                    id,
                    outbox_id,
                    CompletionView {
                        submission_uid: resp.submission_uid@,
                        lhdn_uuid: accepted_uuid(resp.accepted_documents@, signed.code_number@),
                        signature_b64: signed.signature@,
                        signed_document_utf8: decode_utf8(signed.canonical_bytes@),
                        document_hash_b64: signed.document_hash@,
                    },
                    now,
                ),
            )
        } else {
            None
        },
    }
}

/// The tables after the delivery failed: put off where the same call may succeed
/// later and attempts are left, otherwise given up.
pub open spec fn after_delivery_error(
    repo: RepoView,
    max_attempts: i64,
    id: Seq<char>,
    outbox_id: i64,
    current_attempts: i64,
    error: ErrorView,
    now: i64,
) -> RepoView {
    let attempts = (current_attempts + 1) as i64;
    let body = delivery_error(error.variant_text(), error.message(), attempts as int);
    if !error.transient() || attempts >= max_attempts {
        repo.after_failure(id, outbox_id, attempts, body, now)
    } else {
        repo.after_reschedule(
            id,
            outbox_id,
            attempts,
            (now + submit_backoff(attempts as int)) as i64,
            body,
            error.message(),
            now,
        )
    }
}

/// Whether the count of attempts and the time of the next one fit an `i64`.
pub open spec fn retry_fits(current_attempts: i64, backoff: int, now: i64) -> bool {
    current_attempts < i64::MAX && now + backoff <= i64::MAX
}

/// The signed document is not UTF-8, so that it cannot be stored as text.
#[derive(Debug, Clone, Copy, PartialEq, Eq, Structural)]
pub struct NotText;

fn rejection_position(docs: &Vec<RejectedDocument>, code_number: &str) -> (index: Option<usize>)
    ensures
        match index {
            Some(i) => i < docs@.len() && first_rejection(docs@, code_number@) == Some(
                docs@[i as int].error@,
            ),
            None => first_rejection(docs@, code_number@) is None,
        },
{
    let mut i: usize = 0;
    assert(docs@.skip(0) =~= docs@);
    while i < docs.len()
        invariant
            i <= docs@.len(),
            first_rejection(docs@, code_number@) == first_rejection(
                docs@.skip(i as int),
                code_number@,
            ),
        decreases docs@.len() - i,
    {
        assert(docs@.skip(i as int).first() == docs@[i as int]);
        if *docs[i].invoice_code_number.as_str() == *code_number {
            return Some(i);
        }
        assert(docs@.skip(i as int).drop_first() =~= docs@.skip(i + 1));
        i = i + 1;
    }
    None
}

fn find_accepted<'a>(docs: &'a Vec<AcceptedDocument>, code_number: &str) -> (uuid: &'a str)
    ensures
        uuid@ == accepted_uuid(docs@, code_number@),
{
    let mut i: usize = 0;
    assert(docs@.skip(0) =~= docs@);
    while i < docs.len()
        invariant
            i <= docs@.len(),
            accepted_uuid(docs@, code_number@) == accepted_uuid(
                docs@.skip(i as int),
                code_number@,
            ),
        decreases docs@.len() - i,
    {
        assert(docs@.skip(i as int).first() == docs@[i as int]);
        if *docs[i].invoice_code_number.as_str() == *code_number {
            return docs[i].uuid.as_str();
        }
        assert(docs@.skip(i as int).drop_first() =~= docs@.skip(i + 1));
        i = i + 1;
    }
    ""
}

impl Submitter {
    /// A submitter with the default settings.
    pub fn new() -> (submitter: Self)
        ensures
            is_seconds(submitter.config.poll_interval, 5),
            submitter.config.batch_size == 16,
            submitter.config.max_attempts == 8,
    {
        Submitter { config: SubmitterConfig::default() }
    }

    /// The same submitter with other settings.
    pub fn with_config(self, config: SubmitterConfig) -> (submitter: Self)
        ensures
            submitter.config == config,
    {
        Submitter { config }
    }

    /// The events that one pass handles.
    pub fn tick(&self, repo: &InvoiceRepo, now: i64) -> (due: Vec<DueSubmitEvent>)
        requires
            repo.wf(),
        ensures
            repo@.is_due_batch(EventKind::Submit, now, self.config.batch_size, submit_ids(due@)),
            forall|i: int| 0 <= i < due@.len() ==> (#[trigger] due@[i]).is_in(repo@),
    {
        repo.due_submit_events(now, self.config.batch_size)
    }

    /// Takes an event up: gives the invoice that is to be delivered. An event
    /// without its invoice is removed.
    pub fn process_event(&self, repo: &mut InvoiceRepo, event: &DueSubmitEvent, now: i64) -> (invoice:
        Option<InvoiceForSubmit>)
        requires
            old(repo).wf(),
        ensures
            final(repo).wf(),
            match invoice {
                Some(part) => {
                    &&& old(repo)@.load(event.invoice_id@) matches Some(row) && part.is_part_of(row)
                    &&& final(repo)@ == old(repo)@
                },
                None => {
                    &&& old(repo)@.load(event.invoice_id@) is None
                    &&& final(repo)@ == old(repo)@.after_failure(
                        event.invoice_id@,
                        event.outbox_id,
                        0,
                        row_missing(),
                        now,
                    )
                },
            },
    {
        match repo.load_for_submit(&event.invoice_id) {
            Some(invoice) => Some(invoice),
            None => {
                let body = row_missing_of();
                repo.fail_permanently_at(&event.invoice_id, event.outbox_id, 0, &body, now);
                None
            },
        }
    }

    /// What a document is built from: the payload as JSON, or why it cannot be
    /// read. `on_built` takes what was built of it.
    pub fn build_doc(&self, invoice: &InvoiceForSubmit) -> (payload: Result<
        serde_json::Value,
        String,
    >)
        ensures
            parse_outcome(payload) == json_parsed(invoice.payload_json@),
    {
        json_parse(&invoice.payload_json)
    }

    /// Goes on with the signed document: gives what is to be delivered. Where
    /// there is none, the delivery is given up; it never reached LHDN, so the
    /// attempts stay as they are.
    pub fn on_built(
        &self,
        repo: &mut InvoiceRepo,
        event: &DueSubmitEvent,
        invoice: &InvoiceForSubmit,
        built: Result<SignedDocument, String>,
        now: i64,
    ) -> (delivery: Option<(SubmissionDocument, SignedDocument)>)
        requires
            old(repo).wf(),
            built matches Ok(signed) ==> base64_fits(signed.canonical_bytes@.len() as int),
        ensures
            final(repo).wf(),
            match built {
                Ok(signed) => {
                    &&& delivery matches Some(pair) && pair.0@ == delivered(signed) && pair.1
                        == signed
                    &&& final(repo)@ == old(repo)@
                },
                Err(why) => {
                    &&& delivery is None
                    &&& final(repo)@ == old(repo)@.after_failure(
                        event.invoice_id@,
                        event.outbox_id,
                        invoice.attempts,
                        build_error(why@),
                        now,
                    )
                },
            },
    {
        match built {
            Ok(signed) => {
                let document = SubmissionDocument {
                    format: SubmissionFormat::Json,
                    document_hash: signed.document_hash.clone(),
                    code_number: signed.code_number.clone(),
                    document: base64_encode(&signed.canonical_bytes),
                };
                Some((document, signed))
            },
            Err(why) => {
                let body = build_error_of(&why);
                repo.fail_permanently_at(
                    &event.invoice_id,
                    event.outbox_id,
                    invoice.attempts,
                    &body,
                    now,
                );
                None
            },
        }
    }

    /// Ends the event with what came back of the delivery.
    pub fn on_answer(
        &self,
        repo: &mut InvoiceRepo,
        event: &DueSubmitEvent,
        current_attempts: i64,
        signed: &SignedDocument,
        answer: Result<SubmissionResponse, LhdnError>,
        now: i64,
    ) -> (done: Result<(), NotText>)
        requires
            old(repo).wf(),
            old(repo)@.next_outbox_id < i64::MAX,
            answer is Err ==> retry_fits(
                current_attempts,
                submit_backoff(current_attempts + 1),
                now,
            ),
        ensures
            final(repo).wf(),
            match answer {
                Ok(resp) => match after_answer(
                    old(repo)@,
                    event.invoice_id@,
                    event.outbox_id,
                    *signed,
                    resp,
                    now,
                ) {
                    Some(after) => done is Ok && final(repo)@ == after,
                    None => done is Err && final(repo)@ == old(repo)@,
                },
                Err(error) => done is Ok && final(repo)@ == after_delivery_error(
                    old(repo)@,
                    self.config.max_attempts,
                    event.invoice_id@,
                    event.outbox_id,
                    current_attempts,
                    error@,
                    now,
                ),
            },
    {
        match answer {
            Ok(resp) => self.handle_success(repo, event, signed, resp, now),
            Err(error) => {
                self.handle_failure(repo, event, current_attempts, error, now);
                Ok(())
            },
        }
    }

    /// LHDN took the batch in: did it reject this document?
    pub fn handle_success(
        &self,
        repo: &mut InvoiceRepo,
        event: &DueSubmitEvent,
        signed: &SignedDocument,
        resp: SubmissionResponse,
        now: i64,
    ) -> (done: Result<(), NotText>)
        requires
            old(repo).wf(),
            old(repo)@.next_outbox_id < i64::MAX,
        ensures
            final(repo).wf(),
            match after_answer(
                old(repo)@,
                event.invoice_id@,
                event.outbox_id,
                *signed,
                resp,
                now,
            ) {
                Some(after) => done is Ok && final(repo)@ == after,
                None => done is Err && final(repo)@ == old(repo)@,
            },
            is_rejected(resp, *signed) ==> done is Ok && only_event_gone(
                old(repo)@,
                final(repo)@,
                event.outbox_id,
            ),
            is_rejected(resp, *signed) && old(repo)@.invoices.contains_key(event.invoice_id@)
                ==> final(repo)@.invoices[event.invoice_id@].lhdn_status == InvoiceStatus::Failed
                && final(repo)@.invoices[event.invoice_id@].error_json is Some,
    {
        proof {
            lemma_first_rejection(resp.rejected_documents@, signed.code_number@);
        }
        let SubmissionResponse { submission_uid, accepted_documents, mut rejected_documents } = resp;
        if let Some(i) = rejection_position(&rejected_documents, &signed.code_number) {
            let rejected = rejected_documents.remove(i);
            let body = rejection_of(rejected.error);
            // The round-trip itself succeeded; the document was rejected on
            // validation. The attempts stay.
            let attempts: i64 = match repo.load_for_submit(&event.invoice_id) {
                Some(invoice) => invoice.attempts,
                None => 0,
            };
            repo.fail_permanently_at(&event.invoice_id, event.outbox_id, attempts, &body, now);
            return Ok(());
        }
        let lhdn_uuid = find_accepted(&accepted_documents, &signed.code_number);
        let signed_document_utf8 = match std::str::from_utf8(&signed.canonical_bytes) {
            Ok(text) => text,
            Err(_) => {
                return Err(NotText);
            },
        };
        repo.complete_submission_at(
            &event.invoice_id,
            event.outbox_id,
            SubmissionCompletion {
                submission_uid: &submission_uid,
                lhdn_uuid,
                signature_b64: &signed.signature,
                signed_document_utf8,
                document_hash_b64: &signed.document_hash,
            },
            now,
        );
        Ok(())
    }

    /// The delivery failed: put it off, or give it up.
    pub fn handle_failure(
        &self,
        repo: &mut InvoiceRepo,
        event: &DueSubmitEvent,
        current_attempts: i64,
        err: LhdnError,
        now: i64,
    )
        requires
            old(repo).wf(),
            retry_fits(current_attempts, submit_backoff(current_attempts + 1), now),
        ensures
            final(repo).wf(),
            final(repo)@ == after_delivery_error(
                old(repo)@,
                self.config.max_attempts,
                event.invoice_id@,
                event.outbox_id,
                current_attempts,
                err@,
                now,
            ),
    {
        let new_attempts: i64 = current_attempts + 1;
        let last_error = err.message();
        let body = delivery_error_of(lhdn_variant_name(&err), &last_error, new_attempts);
        if !err.is_transient() || new_attempts >= self.config.max_attempts {
            repo.fail_permanently_at(&event.invoice_id, event.outbox_id, new_attempts, &body, now);
        } else {
            let next_at: i64 = instant_after(now, backoff_for(new_attempts));
            repo.reschedule_at(
                &event.invoice_id,
                event.outbox_id,
                new_attempts,
                next_at,
                &body,
                &last_error,
                now,
            );
        }
    }
}

/// Backoff schedule: 30s, 2m, 10m, 1h (capped). The argument is the 1-based
/// attempt counter *after* the failure was recorded.
pub fn backoff_for(attempt: i64) -> (span: Duration)
    ensures
        is_seconds(span, submit_backoff(attempt as int)),
{
    submit_backoff_for(attempt)
}

} // verus!
