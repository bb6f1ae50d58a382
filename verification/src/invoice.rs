//! An invoice in the bridge's database: the row, its status, and how each
//! milestone changes it.

use vstd::prelude::*;
use crate::lhdn::models::optional_text;

verus! {

/// Where an invoice stands.
#[derive(Debug, Clone, Copy, PartialEq, Eq, Structural)]
pub enum InvoiceStatus {
    /// Accepted from the POS, not yet delivered to LHDN.
    Pending,
    /// Delivered; LHDN is validating it.
    Submitted,
    /// Validated by LHDN.
    Valid,
    /// Refused by LHDN's validation.
    Invalid,
    /// Cancelled at LHDN.
    Cancelled,
    /// Given up before LHDN took it.
    Failed,
}

impl InvoiceStatus {
    pub open spec fn text(self) -> Seq<char> {
        match self {
            InvoiceStatus::Pending => "Pending"@,
            InvoiceStatus::Submitted => "Submitted"@,
            InvoiceStatus::Valid => "Valid"@,
            InvoiceStatus::Invalid => "Invalid"@,
            InvoiceStatus::Cancelled => "Cancelled"@,
            InvoiceStatus::Failed => "Failed"@,
        }
    }

    /// The status as the database and the API write it.
    pub fn as_str(self) -> (text: &'static str)
        ensures
            text@ == self.text(),
    {
        match self {
            InvoiceStatus::Pending => "Pending",
            InvoiceStatus::Submitted => "Submitted",
            InvoiceStatus::Valid => "Valid",
            InvoiceStatus::Invalid => "Invalid",
            InvoiceStatus::Cancelled => "Cancelled",
            InvoiceStatus::Failed => "Failed",
        }
    }

    /// Reads a status back from the text that `as_str` writes.
    pub fn from_text(text: &str) -> (status: Option<InvoiceStatus>)
        ensures
            match status {
                Some(s) => s.text() == text@,
                None => forall|s: InvoiceStatus| #[trigger] s.text() != text@,
            },
    {
        if *text == *"Pending" {
            Some(InvoiceStatus::Pending)
        } else if *text == *"Submitted" {
            Some(InvoiceStatus::Submitted)
        } else if *text == *"Valid" {
            Some(InvoiceStatus::Valid)
        } else if *text == *"Invalid" {
            Some(InvoiceStatus::Invalid)
        } else if *text == *"Cancelled" {
            Some(InvoiceStatus::Cancelled)
        } else if *text == *"Failed" {
            Some(InvoiceStatus::Failed)
        } else {
            None
        }
    }
}

/// A row of the `invoices` table.
#[derive(Debug)]
pub struct InvoiceRecord {
    pub id: String,
    pub invoice_ref: String,
    /// The POS payload as it came in.
    pub payload_json: String,
    pub lhdn_status: InvoiceStatus,
    pub lhdn_submission_uid: Option<String>,
    pub lhdn_uuid: Option<String>,
    pub lhdn_long_id: Option<String>,
    pub qr_url: Option<String>,
    pub signature: Option<String>,
    /// The signed canonical UBL document as UTF-8 (the column name is a
    /// misnomer; the document is JSON UBL).
    pub ubl_xml: Option<String>,
    pub doc_digest: Option<String>,
    pub error_json: Option<String>,
    pub cancellation_reason: Option<String>,
    pub attempts: i64,
    pub created_at: i64,
    pub updated_at: i64,
    pub submitted_at: Option<i64>,
    pub validated_at: Option<i64>,
    pub cancelled_at: Option<i64>,
    pub cancellable_until: Option<i64>,
    pub next_attempt_at: Option<i64>,
}

pub struct InvoiceView {
    pub id: Seq<char>,
    pub invoice_ref: Seq<char>,
    pub payload_json: Seq<char>,
    pub lhdn_status: InvoiceStatus,
    pub lhdn_submission_uid: Option<Seq<char>>,
    pub lhdn_uuid: Option<Seq<char>>,
    pub lhdn_long_id: Option<Seq<char>>,
    pub qr_url: Option<Seq<char>>,
    pub signature: Option<Seq<char>>,
    pub ubl_xml: Option<Seq<char>>,
    pub doc_digest: Option<Seq<char>>,
    pub error_json: Option<Seq<char>>,
    pub cancellation_reason: Option<Seq<char>>,
    pub attempts: i64,
    pub created_at: i64,
    pub updated_at: i64,
    pub submitted_at: Option<i64>,
    pub validated_at: Option<i64>,
    pub cancelled_at: Option<i64>,
    pub cancellable_until: Option<i64>,
    pub next_attempt_at: Option<i64>,
}

impl View for InvoiceRecord {
    type V = InvoiceView;

    open spec fn view(&self) -> InvoiceView {
        InvoiceView {
            id: self.id@,
            invoice_ref: self.invoice_ref@,
            payload_json: self.payload_json@,
            lhdn_status: self.lhdn_status,
            lhdn_submission_uid: optional_text(self.lhdn_submission_uid),
            lhdn_uuid: optional_text(self.lhdn_uuid),
            lhdn_long_id: optional_text(self.lhdn_long_id),
            qr_url: optional_text(self.qr_url),
            signature: optional_text(self.signature),
            ubl_xml: optional_text(self.ubl_xml),
            doc_digest: optional_text(self.doc_digest),
            error_json: optional_text(self.error_json),
            cancellation_reason: optional_text(self.cancellation_reason),
            attempts: self.attempts,
            created_at: self.created_at,
            updated_at: self.updated_at,
            submitted_at: self.submitted_at,
            validated_at: self.validated_at,
            cancelled_at: self.cancelled_at,
            cancellable_until: self.cancellable_until,
            next_attempt_at: self.next_attempt_at,
        }
    }
}

/// Subset of the `invoices` row that the API surfaces. Bulk fields (raw payload,
/// signed document, signature) stay in the database.
#[derive(Debug, Clone)]
pub struct InvoiceRow {
    pub id: String,
    pub invoice_ref: String,
    pub lhdn_status: String,
    pub lhdn_uuid: Option<String>,
    pub qr_url: Option<String>,
    pub error_json: Option<String>,
    pub attempts: i64,
    pub created_at: i64,
    pub updated_at: i64,
}

pub struct RowView {
    pub id: Seq<char>,
    pub invoice_ref: Seq<char>,
    pub lhdn_status: Seq<char>,
    pub lhdn_uuid: Option<Seq<char>>,
    pub qr_url: Option<Seq<char>>,
    pub error_json: Option<Seq<char>>,
    pub attempts: i64,
    pub created_at: i64,
    pub updated_at: i64,
}

impl View for InvoiceRow {
    type V = RowView;

    open spec fn view(&self) -> RowView {
        RowView {
            id: self.id@,
            invoice_ref: self.invoice_ref@,
            lhdn_status: self.lhdn_status@,
            lhdn_uuid: optional_text(self.lhdn_uuid),
            qr_url: optional_text(self.qr_url),
            error_json: optional_text(self.error_json),
            attempts: self.attempts,
            created_at: self.created_at,
            updated_at: self.updated_at,
        }
    }
}

/// Inputs for the happy-path completion update. Borrowed so the worker doesn't
/// have to clone the (potentially large) signed document.
#[derive(Debug, Clone, Copy)]
pub struct SubmissionCompletion<'a> {
    pub submission_uid: &'a str,
    pub lhdn_uuid: &'a str,
    pub signature_b64: &'a str,
    /// The signed canonical UBL document as UTF-8, stored in `ubl_xml`.
    pub signed_document_utf8: &'a str,
    pub document_hash_b64: &'a str,
}

pub struct CompletionView {
    pub submission_uid: Seq<char>,
    pub lhdn_uuid: Seq<char>,
    pub signature_b64: Seq<char>,
    pub signed_document_utf8: Seq<char>,
    pub document_hash_b64: Seq<char>,
}

impl<'a> View for SubmissionCompletion<'a> {
    type V = CompletionView;

    open spec fn view(&self) -> CompletionView {
        CompletionView {
            submission_uid: self.submission_uid@,
            lhdn_uuid: self.lhdn_uuid@,
            signature_b64: self.signature_b64@,
            signed_document_utf8: self.signed_document_utf8@,
            document_hash_b64: self.document_hash_b64@,
        }
    }
}

impl InvoiceView {
    /// A fresh invoice, ready for its first delivery.
    pub open spec fn pending(
        id: Seq<char>,
        invoice_ref: Seq<char>,
        payload_json: Seq<char>,
        now: i64,
    ) -> InvoiceView {
        InvoiceView {
            id,
            invoice_ref,
            payload_json,
            lhdn_status: InvoiceStatus::Pending,
            lhdn_submission_uid: None,
            lhdn_uuid: None,
            lhdn_long_id: None,
            qr_url: None,
            signature: None,
            ubl_xml: None,
            doc_digest: None,
            error_json: None,
            cancellation_reason: None,
            attempts: 0,
            created_at: now,
            updated_at: now,
            submitted_at: None,
            validated_at: None,
            cancelled_at: None,
            cancellable_until: None,
            next_attempt_at: Some(now),
        }
    }

    /// The invoice after LHDN took the document in.
    pub open spec fn submitted(self, completion: CompletionView, now: i64) -> InvoiceView {
        InvoiceView {
            lhdn_status: InvoiceStatus::Submitted,
            lhdn_submission_uid: Some(completion.submission_uid),
            lhdn_uuid: Some(completion.lhdn_uuid),
            signature: Some(completion.signature_b64),
            ubl_xml: Some(completion.signed_document_utf8),
            doc_digest: Some(completion.document_hash_b64),
            error_json: None,
            submitted_at: Some(now),
            next_attempt_at: None,
            updated_at: now,
            ..self
        }
    }

    /// The invoice after its delivery was given up.
    pub open spec fn failed(self, attempts: i64, error_json: Seq<char>, now: i64) -> InvoiceView {
        InvoiceView {
            lhdn_status: InvoiceStatus::Failed,
            attempts,
            error_json: Some(error_json),
            next_attempt_at: None,
            updated_at: now,
            ..self
        }
    }

    /// The invoice after a delivery failed that will be tried again.
    pub open spec fn rescheduled(
        self,
        attempts: i64,
        next_attempt_at: i64,
        error_json: Seq<char>,
        now: i64,
    ) -> InvoiceView {
        InvoiceView {
            attempts,
            error_json: Some(error_json),
            next_attempt_at: Some(next_attempt_at),
            updated_at: now,
            ..self
        }
    }

    /// The invoice after LHDN validated it.
    pub open spec fn validated(
        self,
        long_id: Seq<char>,
        qr_url: Seq<char>,
        validated_at: i64,
        cancellable_until: i64,
        now: i64,
    ) -> InvoiceView {
        InvoiceView {
            lhdn_status: InvoiceStatus::Valid,
            lhdn_long_id: Some(long_id),
            qr_url: Some(qr_url),
            validated_at: Some(validated_at),
            cancellable_until: Some(cancellable_until),
            updated_at: now,
            ..self
        }
    }

    /// The invoice after LHDN refused it.
    pub open spec fn invalidated(self, error_json: Seq<char>, now: i64) -> InvoiceView {
        InvoiceView {
            lhdn_status: InvoiceStatus::Invalid,
            error_json: Some(error_json),
            updated_at: now,
            ..self
        }
    }

    /// The invoice after it was cancelled at LHDN.
    pub open spec fn cancelled(self, cancelled_at: i64, now: i64) -> InvoiceView {
        InvoiceView {
            lhdn_status: InvoiceStatus::Cancelled,
            cancelled_at: Some(cancelled_at),
            updated_at: now,
            ..self
        }
    }

    /// The invoice after something failed that leaves its status as it is.
    pub open spec fn noted(self, error_json: Seq<char>, now: i64) -> InvoiceView {
        InvoiceView { error_json: Some(error_json), updated_at: now, ..self }
    }

    /// The invoice after its cancellation was asked for.
    pub open spec fn cancel_requested(self, reason: Seq<char>, now: i64) -> InvoiceView {
        InvoiceView { cancellation_reason: Some(reason), updated_at: now, ..self }
    }

    /// What the API shows of the invoice.
    pub open spec fn row(self) -> RowView {
        RowView {
            id: self.id,
            invoice_ref: self.invoice_ref,
            lhdn_status: self.lhdn_status.text(),
            lhdn_uuid: self.lhdn_uuid,
            qr_url: self.qr_url,
            error_json: self.error_json,
            attempts: self.attempts,
            created_at: self.created_at,
            updated_at: self.updated_at,
        }
    }

    /// Whether the invoice can be cancelled at `now`: LHDN validated it and its
    /// cancellation window is still open.
    pub open spec fn window_open(self, now: i64) -> bool {
        self.cancellable_until matches Some(deadline) && deadline > now
    }
}

/// A copy of an optional string.
pub(crate) fn copied(text: &Option<String>) -> (copy: Option<String>)
    ensures
        optional_text(copy) == optional_text(*text),
{
    match text {
        Some(s) => Some(s.clone()),
        None => None,
    }
}

impl InvoiceRecord {
    pub(crate) fn pending(id: &str, invoice_ref: &str, payload_json: &str, now: i64) -> (record:
        InvoiceRecord)
        ensures
            record@ == InvoiceView::pending(id@, invoice_ref@, payload_json@, now),
    {
        InvoiceRecord {
            id: id.to_owned(),
            invoice_ref: invoice_ref.to_owned(),
            payload_json: payload_json.to_owned(),
            lhdn_status: InvoiceStatus::Pending,
            lhdn_submission_uid: None,
            lhdn_uuid: None,
            lhdn_long_id: None,
            qr_url: None,
            signature: None,
            ubl_xml: None,
            doc_digest: None,
            error_json: None,
            cancellation_reason: None,
            attempts: 0,
            created_at: now,
            updated_at: now,
            submitted_at: None,
            validated_at: None,
            cancelled_at: None,
            cancellable_until: None,
            next_attempt_at: Some(now),
        }
    }

    pub(crate) fn mark_submitted(&mut self, completion: SubmissionCompletion<'_>, now: i64)
        ensures
            final(self)@ == old(self)@.submitted(completion@, now),
    {
        self.lhdn_status = InvoiceStatus::Submitted;
        self.lhdn_submission_uid = Some(completion.submission_uid.to_owned());
        self.lhdn_uuid = Some(completion.lhdn_uuid.to_owned());
        self.signature = Some(completion.signature_b64.to_owned());
        self.ubl_xml = Some(completion.signed_document_utf8.to_owned());
        self.doc_digest = Some(completion.document_hash_b64.to_owned());
        self.error_json = None;
        self.submitted_at = Some(now);
        self.next_attempt_at = None;
        self.updated_at = now;
    }

    pub(crate) fn mark_failed(&mut self, attempts: i64, error_json: &str, now: i64)
        ensures
            final(self)@ == old(self)@.failed(attempts, error_json@, now),
    {
        self.lhdn_status = InvoiceStatus::Failed;
        self.attempts = attempts;
        self.error_json = Some(error_json.to_owned());
        self.next_attempt_at = None;
        self.updated_at = now;
    }

    pub(crate) fn mark_rescheduled(
        &mut self,
        attempts: i64,
        next_attempt_at: i64,
        error_json: &str,
        now: i64,
    )
        ensures
            final(self)@ == old(self)@.rescheduled(attempts, next_attempt_at, error_json@, now),
    {
        self.attempts = attempts;
        self.error_json = Some(error_json.to_owned());
        self.next_attempt_at = Some(next_attempt_at);
        self.updated_at = now;
    }

    pub(crate) fn mark_validated(
        &mut self,
        long_id: &str,
        qr_url: &str,
        validated_at: i64,
        cancellable_until: i64,
        now: i64,
    )
        ensures
            final(self)@ == old(self)@.validated(
                long_id@,
                qr_url@,
                validated_at,
                cancellable_until,
                now,
            ),
    {
        self.lhdn_status = InvoiceStatus::Valid;
        self.lhdn_long_id = Some(long_id.to_owned());
        self.qr_url = Some(qr_url.to_owned());
        self.validated_at = Some(validated_at);
        self.cancellable_until = Some(cancellable_until);
        self.updated_at = now;
    }

    pub(crate) fn mark_invalidated(&mut self, error_json: &str, now: i64)
        ensures
            final(self)@ == old(self)@.invalidated(error_json@, now),
    {
        self.lhdn_status = InvoiceStatus::Invalid;
        self.error_json = Some(error_json.to_owned());
        self.updated_at = now;
    }

    pub(crate) fn mark_cancelled(&mut self, cancelled_at: i64, now: i64)
        ensures
            final(self)@ == old(self)@.cancelled(cancelled_at, now),
    {
        self.lhdn_status = InvoiceStatus::Cancelled;
        self.cancelled_at = Some(cancelled_at);
        self.updated_at = now;
    }

    pub(crate) fn note_error(&mut self, error_json: &str, now: i64)
        ensures
            final(self)@ == old(self)@.noted(error_json@, now),
    {
        self.error_json = Some(error_json.to_owned());
        self.updated_at = now;
    }

    pub(crate) fn note_cancel_request(&mut self, reason: &str, now: i64)
        ensures
            final(self)@ == old(self)@.cancel_requested(reason@, now),
    {
        self.cancellation_reason = Some(reason.to_owned());
        self.updated_at = now;
    }

    /// What the API shows of the invoice.
    pub fn row(&self) -> (row: InvoiceRow)
        ensures
            row@ == self@.row(),
    {
        InvoiceRow {
            id: self.id.clone(),
            invoice_ref: self.invoice_ref.clone(),
            lhdn_status: self.lhdn_status.as_str().to_owned(),
            lhdn_uuid: copied(&self.lhdn_uuid),
            qr_url: copied(&self.qr_url),
            error_json: copied(&self.error_json),
            attempts: self.attempts,
            created_at: self.created_at,
            updated_at: self.updated_at,
        }
    }
}

} // verus!
