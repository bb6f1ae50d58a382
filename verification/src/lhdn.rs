//! The LHDN MyInvois API: environments, wire types, errors, the OAuth token
//! and the requests and replies of the four endpoints the bridge uses.

use vstd::prelude::*;

pub mod client;
pub mod error;
pub mod models;
pub mod oauth;
pub mod token_repo;

pub use client::{LhdnClient, LhdnConfig};
pub use error::LhdnError;
pub use models::{
    AcceptedDocument, DocumentDetails, DocumentStatus, IdScheme, LhdnErrorEnvelope,
    RejectedDocument, SubmissionDocument, SubmissionFormat, SubmissionResponse, TokenResponse,
};
pub use oauth::CachedToken;
pub use token_repo::OauthTokenStore;

verus! {

/// Which MyInvois installation the bridge talks to.
#[derive(Debug, Clone, Copy, PartialEq, Eq, Structural)]
pub enum LhdnEnv {
    Preprod,
    Prod,
}

impl LhdnEnv {
    pub open spec fn base_url_text(self) -> Seq<char> {
        match self {
            LhdnEnv::Preprod => "https://preprod-api.myinvois.hasil.gov.my"@,
            LhdnEnv::Prod => "https://api.myinvois.hasil.gov.my"@,
        }
    }

    pub open spec fn name_text(self) -> Seq<char> {
        match self {
            LhdnEnv::Preprod => "preprod"@,
            LhdnEnv::Prod => "prod"@,
        }
    }

    pub open spec fn portal_base_url_text(self) -> Seq<char> {
        match self {
            LhdnEnv::Preprod => "https://preprod.myinvois.hasil.gov.my"@,
            LhdnEnv::Prod => "https://myinvois.hasil.gov.my"@,
        }
    }

    /// Root of the API, with no trailing slash.
    pub fn base_url(self) -> (url: &'static str)
        ensures
            url@ == self.base_url_text(),
    {
        match self {
            LhdnEnv::Preprod => "https://preprod-api.myinvois.hasil.gov.my",
            LhdnEnv::Prod => "https://api.myinvois.hasil.gov.my",
        }
    }

    /// Stable identifier, used to scope cached tokens.
    pub fn name(self) -> (name: &'static str)
        ensures
            name@ == self.name_text(),
    {
        match self {
            LhdnEnv::Preprod => "preprod",
            LhdnEnv::Prod => "prod",
        }
    }

    /// Root of the public portal, where validated documents are shared.
    pub fn portal_base_url(self) -> (url: &'static str)
        ensures
            url@ == self.portal_base_url_text(),
    {
        match self {
            LhdnEnv::Preprod => "https://preprod.myinvois.hasil.gov.my",
            LhdnEnv::Prod => "https://myinvois.hasil.gov.my",
        }
    }
}

} // verus!
