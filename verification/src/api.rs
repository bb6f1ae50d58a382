//! Inbound POS-facing HTTP API: what each request does and how it is answered.
//!
//! The submit handler is durable to the database only; no LHDN call is on the
//! request path. A background worker picks the row up via `outbox_events`.

use vstd::prelude::*;
use crate::clock::is_instant;
use crate::invoice::{InvoiceRow, InvoiceView};
use crate::json::{
    compact_text, json_as_str, json_get, json_member, json_object, json_string, json_text,
    lemma_string_value, member_texts, object_text, reads_back, string_text, string_value,
};
use crate::laws::requests::shows;
use crate::repo::{
    is_uuid_v7, slice_text, CancelError, CancelErrorView, InvoiceRepo, RepoError, RepoView,
};
use crate::text::trimmed;

verus! {

/// 202: the request was taken in.
pub const ACCEPTED: u16 = 202;

/// Why a request is refused.
#[derive(Debug)]
pub enum ApiError {
    MissingInvoiceRef,
    MissingReason,
    NotFound,
    Conflict,
    NotCancellable(String),
    PastWindow,
    AlreadyRequested,
    Internal,
}

pub enum ApiErrorView {
    MissingInvoiceRef,
    MissingReason,
    NotFound,
    Conflict,
    NotCancellable(Seq<char>),
    PastWindow,
    AlreadyRequested,
    Internal,
}

impl View for ApiError {
    type V = ApiErrorView;

    open spec fn view(&self) -> ApiErrorView {
        match self {
            ApiError::MissingInvoiceRef => ApiErrorView::MissingInvoiceRef,
            ApiError::MissingReason => ApiErrorView::MissingReason,
            ApiError::NotFound => ApiErrorView::NotFound,
            ApiError::Conflict => ApiErrorView::Conflict,
            ApiError::NotCancellable(state) => ApiErrorView::NotCancellable(state@),
            ApiError::PastWindow => ApiErrorView::PastWindow,
            ApiError::AlreadyRequested => ApiErrorView::AlreadyRequested,
            ApiError::Internal => ApiErrorView::Internal,
        }
    }
}

impl ApiErrorView {
    /// The HTTP status that the error is answered with.
    pub open spec fn status(self) -> u16 {
        match self {
            ApiErrorView::MissingInvoiceRef | ApiErrorView::MissingReason => 400,
            ApiErrorView::NotFound => 404,
            ApiErrorView::Conflict | ApiErrorView::AlreadyRequested => 409,
            ApiErrorView::NotCancellable(_) | ApiErrorView::PastWindow => 422,
            ApiErrorView::Internal => 500,
        }
    }

    /// The error in words.
    pub open spec fn message(self) -> Seq<char> {
        match self {
            ApiErrorView::MissingInvoiceRef => "missing or empty `invoice_ref`"@,
            ApiErrorView::MissingReason => "missing or empty `reason`"@,
            ApiErrorView::NotFound => "invoice not found"@,
            ApiErrorView::Conflict => "invoice with this reference already exists"@,
            ApiErrorView::NotCancellable(state) => "invoice cannot be cancelled in state "@ + state,
            ApiErrorView::PastWindow => "invoice is past the LHDN cancellation window"@,
            ApiErrorView::AlreadyRequested => "a cancellation request is already pending"@,
            ApiErrorView::Internal => "internal error"@,
        }
    }
}

/// How the API names a failure of the repository.
pub open spec fn repo_failure(error: RepoError) -> ApiErrorView {
    match error {
        RepoError::DuplicateRef => ApiErrorView::Conflict,
        RepoError::Db(_) => ApiErrorView::Internal,
    }
}

/// How the API names a refused cancellation.
pub open spec fn cancel_failure(error: CancelErrorView) -> ApiErrorView {
    match error {
        CancelErrorView::NotFound => ApiErrorView::NotFound,
        CancelErrorView::NotCancellable { state } => ApiErrorView::NotCancellable(state),
        CancelErrorView::PastWindow => ApiErrorView::PastWindow,
        CancelErrorView::AlreadyRequested => ApiErrorView::AlreadyRequested,
        CancelErrorView::Db(_) => ApiErrorView::Internal,
    }
}

impl ApiError {
    /// How the API names a failure of the repository.
    pub fn from_repo(err: RepoError) -> (error: ApiError)
        ensures
            error@ == repo_failure(err),
    {
        match err {
            RepoError::DuplicateRef => ApiError::Conflict,
            RepoError::Db(_) => ApiError::Internal,
        }
    }

    /// How the API names a refused cancellation.
    pub fn from_cancel(err: CancelError) -> (error: ApiError)
        ensures
            error@ == cancel_failure(err@),
    {
        match err {
            CancelError::NotFound => ApiError::NotFound,
            CancelError::NotCancellable { state } => ApiError::NotCancellable(state),
            CancelError::PastWindow => ApiError::PastWindow,
            CancelError::AlreadyRequested => ApiError::AlreadyRequested,
            CancelError::Db(_) => ApiError::Internal,
        }
    }

    /// The HTTP status that the error is answered with.
    pub fn status(&self) -> (status: u16)
        ensures
            status == self@.status(),
    {
        match self {
            ApiError::MissingInvoiceRef | ApiError::MissingReason => 400,
            ApiError::NotFound => 404,
            ApiError::Conflict | ApiError::AlreadyRequested => 409,
            ApiError::NotCancellable(_) | ApiError::PastWindow => 422,
            ApiError::Internal => 500,
        }
    }

    /// The error in words.
    pub fn message(&self) -> (text: String)
        ensures
            text@ == self@.message(),
    {
        match self {
            ApiError::MissingInvoiceRef => "missing or empty `invoice_ref`".to_owned(),
            ApiError::MissingReason => "missing or empty `reason`".to_owned(),
            ApiError::NotFound => "invoice not found".to_owned(),
            ApiError::Conflict => "invoice with this reference already exists".to_owned(),
            ApiError::NotCancellable(state) => "invoice cannot be cancelled in state ".to_owned().concat(
                state,
            ),
            ApiError::PastWindow => "invoice is past the LHDN cancellation window".to_owned(),
            ApiError::AlreadyRequested => "a cancellation request is already pending".to_owned(),
            ApiError::Internal => "internal error".to_owned(),
        }
    }

    /// The body that the error is answered with: `{"error": ...}`.
    pub fn into_response(self) -> (response: (u16, String))
        ensures
            response.0 == self@.status(),
            response.1@ == object_text(seq![("error"@, string_text(self@.message()))]),
    {
        let mut members: Vec<(&'static str, serde_json::Value)> = Vec::new();
        members.push(("error", json_string(&self.message())));
        proof {
            let expected = seq![("error"@, string_text(self@.message()))];
            assert(member_texts(members@) =~= expected);
        }
        (self.status(), compact_text(&json_object(members)))
    }
}

/// The answer to a health check.
pub fn healthz() -> (text: &'static str)
    ensures
        text@ == "ok"@,
{
    "ok"
}

/// A text that has to be there: without white space around it, and not empty.
pub open spec fn required(text: Option<Seq<char>>) -> Option<Seq<char>> {
    match text {
        Some(t) => if trimmed(t).len() > 0 {
            Some(trimmed(t))
        } else {
            None
        },
        None => None,
    }
}

/// The string under the key of the JSON object with the given text.
pub open spec fn string_member(object: Seq<char>, key: Seq<char>) -> Option<Seq<char>> {
    match json_member(object, key) {
        Some(member) => string_value(member),
        None => None,
    }
}

/// A text that has to be there: without white space around it, and not empty.
pub fn required_text(text: Option<&str>) -> (inner: Option<&str>)
    ensures
        slice_text(inner) == required(slice_text(text)),
{
    match text {
        Some(t) => {
            let inner = t.trim();
            if inner.is_empty() {
                None
            } else {
                Some(inner)
            }
        },
        None => None,
    }
}

fn member_text<'a>(object: &'a serde_json::Value, key: &str) -> (text: Option<&'a str>)
    ensures
        slice_text(text) == string_member(json_text(*object), key@),
{
    match json_get(object, key) {
        Some(member) => {
            let text = json_as_str(member);
            proof {
                if let Some(t) = text {
                    lemma_string_value(t@);
                }
            }
            text
        },
        None => None,
    }
}

/// The reference that a payload names.
pub fn payload_ref(payload: &serde_json::Value) -> (reference: Option<&str>)
    ensures
        slice_text(reference) == required(string_member(json_text(*payload), "invoice_ref"@)),
{
    required_text(member_text(payload, "invoice_ref"))
}

/// What an invoice that comes in does, and how it is answered.
pub open spec fn submission(
    before: RepoView,
    after: RepoView,
    answer: Result<(u16, InvoiceRow), ApiError>,
    invoice_ref: Option<Seq<char>>,
    payload_json: Seq<char>,
    id: Seq<char>,
    now: i64,
) -> bool {
    match invoice_ref {
        None => {
            &&& answer matches Err(e) && e@ == ApiErrorView::MissingInvoiceRef
            &&& after == before
        },
        Some(reference) => if before.id_or_ref_taken(id, reference) {
            &&& answer matches Err(e) && e@ == ApiErrorView::Conflict
            &&& after == before
        } else {
            &&& answer matches Ok(pair) && pair.0 == ACCEPTED && pair.1@ == InvoiceView::pending(
                id,
                reference,
                payload_json,
                now,
            ).row()
            &&& after == before.with_pending(id, reference, payload_json, now)
        },
    }
}

/// Takes an invoice in. `invoice_ref` is what the payload says under that name.
pub fn accept_invoice(
    repo: &mut InvoiceRepo,
    invoice_ref: Option<&str>,
    payload_json: &str,
    id: &str,
    now: i64,
) -> (answer: Result<(u16, InvoiceRow), ApiError>)
    requires
        old(repo).wf(),
        required(slice_text(invoice_ref)) matches Some(text) ==> old(repo)@.has_room_for(text),
    ensures
        final(repo).wf(),
        submission(
            old(repo)@,
            final(repo)@,
            answer,
            required(slice_text(invoice_ref)),
            payload_json@,
            id@,
            now,
        ),
{
    match required_text(invoice_ref) {
        None => Err(ApiError::MissingInvoiceRef),
        Some(reference) => match repo.create_pending_at(id, reference, payload_json, now) {
            Ok(row) => Ok((ACCEPTED, row)),
            Err(err) => Err(ApiError::from_repo(err)),
        },
    }
}

/// `POST /v1/invoices`: enqueues the invoice under a new id. The payload is
/// stored as it is; canonicalisation happens when the document is built.
pub fn submit_invoice(repo: &mut InvoiceRepo, payload: &serde_json::Value) -> (answer: Result<
    (u16, InvoiceRow),
    ApiError,
>)
    requires
        old(repo).wf(),
        required(string_member(json_text(*payload), "invoice_ref"@)) matches Some(text) ==> old(
            repo,
        )@.has_room_for(text),
    ensures
        final(repo).wf(),
        exists|id: Seq<char>, now: i64|
            is_uuid_v7(id) && is_instant(now as int) && #[trigger] submission(
                old(repo)@,
                final(repo)@,
                answer,
                required(string_member(json_text(*payload), "invoice_ref"@)),
                json_text(*payload),
                id,
                now,
            ) && (answer is Ok ==> reads_back(final(repo)@.invoices[id].payload_json)),
{
    let id = crate::repo::new_invoice_id();
    let now: i64 = crate::clock::unix_now();
    submit_invoice_at(repo, payload, &id, now)
}

/// `POST /v1/invoices` at a given time, with a given id for the row. What is
/// stored is what the POS sent: where it can be parsed, it gives the same value,
/// unless an object in it starts with the key under which `serde_json` embeds
/// JSON.
pub fn submit_invoice_at(
    repo: &mut InvoiceRepo,
    payload: &serde_json::Value,
    id: &str,
    now: i64,
) -> (answer: Result<(u16, InvoiceRow), ApiError>)
    requires
        old(repo).wf(),
        required(string_member(json_text(*payload), "invoice_ref"@)) matches Some(text) ==> old(
            repo,
        )@.has_room_for(text),
    ensures
        final(repo).wf(),
        submission(
            old(repo)@,
            final(repo)@,
            answer,
            required(string_member(json_text(*payload), "invoice_ref"@)),
            json_text(*payload),
            id@,
            now,
        ),
        answer is Ok ==> reads_back(final(repo)@.invoices[id@].payload_json),
{
    let payload_json = compact_text(payload);
    accept_invoice(repo, member_text(payload, "invoice_ref"), &payload_json, id, now)
}

/// `GET /v1/invoices/{invoice_ref}`: how the invoice stands.
pub fn get_invoice(repo: &InvoiceRepo, invoice_ref: &str) -> (answer: Result<InvoiceRow, ApiError>)
    requires
        repo.wf(),
    ensures
        match repo@.find(invoice_ref@) {
            Some(invoice) => answer matches Ok(row) && row@ == invoice.row(),
            None => answer matches Err(e) && e@ == ApiErrorView::NotFound,
        },
        answer matches Ok(row) ==> shows(row, repo@.find(invoice_ref@)->0),
{
    match repo.find_by_ref(invoice_ref) {
        Some(row) => Ok(row),
        None => Err(ApiError::NotFound),
    }
}

/// What a request to cancel does, and how it is answered.
pub open spec fn cancellation(
    before: RepoView,
    after: RepoView,
    answer: Result<(u16, InvoiceRow), ApiError>,
    invoice_ref: Seq<char>,
    reason: Option<Seq<char>>,
    now: i64,
) -> bool {
    match reason {
        None => {
            &&& answer matches Err(e) && e@ == ApiErrorView::MissingReason
            &&& after == before
        },
        Some(text) => match before.cancel_refusal(invoice_ref, now) {
            Some(refusal) => {
                &&& answer matches Err(e) && e@ == cancel_failure(refusal)
                &&& after == before
            },
            None => {
                &&& after == before.after_cancel_request(invoice_ref, text, now)
                &&& answer matches Ok(pair) && pair.0 == ACCEPTED && pair.1@
                    == after.invoices[before.id_of_ref(invoice_ref)].row()
            },
        },
    }
}

/// Takes a request to cancel. `reason` is what the body says under that name.
pub fn accept_cancellation(
    repo: &mut InvoiceRepo,
    invoice_ref: &str,
    reason: Option<&str>,
    now: i64,
) -> (answer: Result<(u16, InvoiceRow), ApiError>)
    requires
        old(repo).wf(),
        old(repo)@.next_outbox_id < i64::MAX,
    ensures
        final(repo).wf(),
        cancellation(
            old(repo)@,
            final(repo)@,
            answer,
            invoice_ref@,
            required(slice_text(reason)),
            now,
        ),
{
    match required_text(reason) {
        None => Err(ApiError::MissingReason),
        Some(text) => match repo.request_cancellation(invoice_ref, text, now) {
            Ok(row) => Ok((ACCEPTED, row)),
            Err(err) => Err(ApiError::from_cancel(err)),
        },
    }
}

/// `POST /v1/invoices/{invoice_ref}/cancel`: asks for cancellation, which is
/// possible within 72h of LHDN's validation.
pub fn cancel_invoice(
    repo: &mut InvoiceRepo,
    invoice_ref: &str,
    body: &serde_json::Value,
    now: i64,
) -> (answer: Result<(u16, InvoiceRow), ApiError>)
    requires
        old(repo).wf(),
        old(repo)@.next_outbox_id < i64::MAX,
    ensures
        final(repo).wf(),
        cancellation(
            old(repo)@,
            final(repo)@,
            answer,
            invoice_ref@,
            required(string_member(json_text(*body), "reason"@)),
            now,
        ),
{
    accept_cancellation(repo, invoice_ref, member_text(body, "reason"), now)
}

} // verus!
