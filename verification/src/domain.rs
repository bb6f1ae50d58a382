//! Pure domain layer: canonicalisation, signing, document construction.
//!
//! No IO. Everything here is deterministic.

pub mod canonicalize;
pub mod der;
pub mod signer;
pub mod ubl;

use vstd::prelude::*;

pub use signer::Signer;

verus! {

#[derive(Debug)]
pub enum DomainError {
    Canonicalize(String),
    Sign(String),
    InvalidInvoice(String),
}

pub enum DomainErrorView {
    Canonicalize(Seq<char>),
    Sign(Seq<char>),
    InvalidInvoice(Seq<char>),
}

impl View for DomainError {
    type V = DomainErrorView;

    open spec fn view(&self) -> DomainErrorView {
        match self {
            DomainError::Canonicalize(why) => DomainErrorView::Canonicalize(why@),
            DomainError::Sign(why) => DomainErrorView::Sign(why@),
            DomainError::InvalidInvoice(why) => DomainErrorView::InvalidInvoice(why@),
        }
    }
}

impl DomainErrorView {
    /// The error in words.
    pub open spec fn message(self) -> Seq<char> {
        match self {
            DomainErrorView::Canonicalize(why) => "canonicalisation failed: "@ + why,
            DomainErrorView::Sign(why) => "signing failed: "@ + why,
            DomainErrorView::InvalidInvoice(why) => "invalid invoice payload: "@ + why,
        }
    }
}

impl DomainError {
    /// The error in words.
    pub fn message(&self) -> (text: String)
        ensures
            text@ == self@.message(),
    {
        match self {
            DomainError::Canonicalize(why) => "canonicalisation failed: ".to_owned().concat(why),
            DomainError::Sign(why) => "signing failed: ".to_owned().concat(why),
            DomainError::InvalidInvoice(why) => "invalid invoice payload: ".to_owned().concat(why),
        }
    }
}

/// A document that is ready for LHDN.
#[derive(Debug)]
pub struct SignedDocument {
    /// The signed document in canonical form.
    pub canonical_bytes: Vec<u8>,
    /// base64(SHA-256) of the canonical bytes.
    pub document_hash: String,
    /// The number under which LHDN's answer names the document.
    pub code_number: String,
    /// The signature in base64.
    pub signature: String,
}

} // verus!
