//! LHDN error type.
//!
//! Distinct variants exist for the buckets a retry policy actually cares
//! about: auth (don't retry, fix credentials), bad-request (don't retry,
//! the document is wrong), conflict (don't retry, terminal state),
//! rate-limited / 5xx / transport (retry with backoff).

use std::time::Duration;
use vstd::prelude::*;
use super::models::{EnvelopeView, LhdnErrorEnvelope};
use crate::clock::nanos;
use crate::text::{decimal, decimal_of};

verus! {

#[derive(Debug)]
pub enum LhdnError {
    /// 401 / 403: credentials rejected, or token expired between cache check
    /// and use.
    Auth(String),
    /// 400 / 422: LHDN parsed the request and rejected it on validation.
    BadRequest(LhdnErrorEnvelope),
    /// 404: document or taxpayer not found.
    NotFound,
    /// 409: terminal state conflict.
    Conflict(LhdnErrorEnvelope),
    /// 429: back off and retry. The optional hint comes from the `Retry-After`
    /// header.
    RateLimited { retry_after: Option<Duration> },
    /// 5xx: server problem; safe to retry.
    Server { status: u16, body: String },
    /// Network, TLS or DNS: retry candidate.
    Transport(String),
    /// Response had unexpected shape.
    Schema(String),
    /// Local database problem (token cache).
    Storage(String),
    /// Misconfiguration discovered at runtime.
    Config(String),
}

pub enum ErrorView {
    Auth(Seq<char>),
    BadRequest(EnvelopeView),
    NotFound,
    Conflict(EnvelopeView),
    RateLimited { retry_after_nanos: Option<nat> },
    Server { status: u16, body: Seq<char> },
    Transport(Seq<char>),
    Schema(Seq<char>),
    Storage(Seq<char>),
    Config(Seq<char>),
}

impl View for LhdnError {
    type V = ErrorView;

    open spec fn view(&self) -> ErrorView {
        match self {
            LhdnError::Auth(text) => ErrorView::Auth(text@),
            LhdnError::BadRequest(envelope) => ErrorView::BadRequest(envelope@),
            LhdnError::NotFound => ErrorView::NotFound,
            LhdnError::Conflict(envelope) => ErrorView::Conflict(envelope@),
            LhdnError::RateLimited { retry_after } => ErrorView::RateLimited {
                retry_after_nanos: match retry_after {
                    Some(span) => Some(nanos(*span)),
                    None => None,
                },
            },
            LhdnError::Server { status, body } => ErrorView::Server { status: *status, body: body@ },
            LhdnError::Transport(text) => ErrorView::Transport(text@),
            LhdnError::Schema(text) => ErrorView::Schema(text@),
            LhdnError::Storage(text) => ErrorView::Storage(text@),
            LhdnError::Config(text) => ErrorView::Config(text@),
        }
    }
}

impl ErrorView {
    /// Whether the same call may succeed later.
    pub open spec fn transient(self) -> bool {
        ||| self is RateLimited
        ||| self is Server
        ||| self is Transport
        ||| self is Storage
    }

    /// The error in words.
    pub open spec fn message(self) -> Seq<char> {
        match self {
            ErrorView::Auth(text) => "auth: "@ + text,
            ErrorView::BadRequest(envelope) => "bad request: "@ + envelope.message,
            ErrorView::NotFound => "not found"@,
            ErrorView::Conflict(envelope) => "conflict: "@ + envelope.message,
            ErrorView::RateLimited { .. } => "rate limited"@,
            ErrorView::Server { status, .. } => "server error: status="@ + decimal(status as int),
            ErrorView::Transport(text) => "transport: "@ + text,
            ErrorView::Schema(text) => "response schema: "@ + text,
            ErrorView::Storage(text) => "storage: "@ + text,
            ErrorView::Config(text) => "config: "@ + text,
        }
    }
}

impl LhdnError {
    /// Whether the worker should retry the call later. Auth, BadRequest,
    /// Conflict and NotFound are not transient: fix credentials or the
    /// document, don't bang the retry button.
    pub fn is_transient(&self) -> (transient: bool)
        ensures
            transient == self@.transient(),
    {
        match self {
            LhdnError::RateLimited { .. } => true,
            LhdnError::Server { .. } => true,
            LhdnError::Transport(_) => true,
            LhdnError::Storage(_) => true,
            _ => false,
        }
    }

    /// The error in words, as it is recorded for the operator.
    pub fn message(&self) -> (text: String)
        ensures
            text@ == self@.message(),
    {
        match self {
            LhdnError::Auth(text) => "auth: ".to_owned().concat(text),
            LhdnError::BadRequest(envelope) => "bad request: ".to_owned().concat(&envelope.message),
            LhdnError::NotFound => "not found".to_owned(),
            LhdnError::Conflict(envelope) => "conflict: ".to_owned().concat(&envelope.message),
            LhdnError::RateLimited { .. } => "rate limited".to_owned(),
            LhdnError::Server { status, .. } => "server error: status=".to_owned().concat(
                &decimal_of(*status as u64),
            ),
            LhdnError::Transport(text) => "transport: ".to_owned().concat(text),
            LhdnError::Schema(text) => "response schema: ".to_owned().concat(text),
            LhdnError::Storage(text) => "storage: ".to_owned().concat(text),
            LhdnError::Config(text) => "config: ".to_owned().concat(text),
        }
    }
}

} // verus!
