//! Wire-format request and response types for MyInvois.

use vstd::prelude::*;
use crate::json::json_text;

verus! {

/// What format the embedded document is in. UBL JSON or UBL XML.
#[derive(Debug, Clone, Copy, PartialEq, Eq, Structural)]
pub enum SubmissionFormat {
    Json,
    Xml,
}

/// One document within a submission batch. `document` carries the
/// base64-encoded UBL bytes (the signed document); `document_hash` is
/// base64(SHA-256(document_bytes)).
#[derive(Debug, Clone)]
pub struct SubmissionDocument {
    pub format: SubmissionFormat,
    pub document_hash: String,
    pub code_number: String,
    pub document: String,
}

pub struct SubmissionDocumentView {
    pub format: SubmissionFormat,
    pub document_hash: Seq<char>,
    pub code_number: Seq<char>,
    pub document: Seq<char>,
}

impl View for SubmissionDocument {
    type V = SubmissionDocumentView;

    open spec fn view(&self) -> SubmissionDocumentView {
        SubmissionDocumentView {
            format: self.format,
            document_hash: self.document_hash@,
            code_number: self.code_number@,
            document: self.document@,
        }
    }
}

#[derive(Debug, Clone)]
pub struct SubmissionResponse {
    pub submission_uid: String,
    pub accepted_documents: Vec<AcceptedDocument>,
    pub rejected_documents: Vec<RejectedDocument>,
}

#[derive(Debug, Clone)]
pub struct AcceptedDocument {
    pub uuid: String,
    pub invoice_code_number: String,
}

#[derive(Debug, Clone)]
pub struct RejectedDocument {
    pub invoice_code_number: String,
    pub error: LhdnErrorEnvelope,
}

/// LHDN's standard error body. `details` keeps the JSON values as they came, so
/// that nothing is lost when LHDN nests structured detail objects.
#[derive(Debug, Clone)]
pub struct LhdnErrorEnvelope {
    pub code: String,
    pub message: String,
    pub target: Option<String>,
    pub details: Vec<serde_json::Value>,
}

pub struct EnvelopeView {
    pub code: Seq<char>,
    pub message: Seq<char>,
    pub target: Option<Seq<char>>,
    pub details: Seq<Seq<char>>,
}

/// The texts of a sequence of JSON values.
pub open spec fn json_texts(values: Seq<serde_json::Value>) -> Seq<Seq<char>> {
    values.map_values(|value: serde_json::Value| json_text(value))
}

/// The text inside an optional string.
pub open spec fn optional_text(text: Option<String>) -> Option<Seq<char>> {
    match text {
        Some(s) => Some(s@),
        None => None,
    }
}

impl View for LhdnErrorEnvelope {
    type V = EnvelopeView;

    open spec fn view(&self) -> EnvelopeView {
        EnvelopeView {
            code: self.code@,
            message: self.message@,
            target: optional_text(self.target),
            details: json_texts(self.details@),
        }
    }
}

#[derive(Debug, Clone, Copy, PartialEq, Eq, Structural)]
pub enum DocumentStatus {
    Submitted,
    Valid,
    Invalid,
    Cancelled,
}

#[derive(Debug, Clone)]
pub struct DocumentDetails {
    pub uuid: String,
    pub long_id: Option<String>,
    pub internal_id: String,
    pub status: DocumentStatus,
    pub date_time_received: Option<String>,
    pub date_time_validated: Option<String>,
    pub cancel_date_time: Option<String>,
    pub document_status_reason: Option<String>,
}

/// The OAuth2 token endpoint's answer.
#[derive(Debug, Clone)]
pub struct TokenResponse {
    pub access_token: String,
    pub expires_in: i64,
    pub token_type: String,
}

/// Secondary identifier scheme for taxpayer validation.
#[derive(Debug, Clone, Copy, PartialEq, Eq, Structural)]
pub enum IdScheme {
    Nric,
    Passport,
    Brn,
    Army,
}

impl IdScheme {
    pub open spec fn wire_text(self) -> Seq<char> {
        match self {
            IdScheme::Nric => "NRIC"@,
            IdScheme::Passport => "PASSPORT"@,
            IdScheme::Brn => "BRN"@,
            IdScheme::Army => "ARMY"@,
        }
    }

    /// LHDN-recognised wire value used in `idType` query params.
    pub fn as_str(self) -> (wire: &'static str)
        ensures
            wire@ == self.wire_text(),
    {
        match self {
            IdScheme::Nric => "NRIC",
            IdScheme::Passport => "PASSPORT",
            IdScheme::Brn => "BRN",
            IdScheme::Army => "ARMY",
        }
    }
}

} // verus!
