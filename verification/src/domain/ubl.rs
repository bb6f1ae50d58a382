//! UBL 2.1 invoice documents.

use vstd::prelude::*;
use super::{DomainError, DomainErrorView};

verus! {

/// A UBL invoice.
pub struct UblInvoice;

impl UblInvoice {
    /// Builds the invoice from what the POS sent. No payload is supported so
    /// far: every one is refused.
    pub fn from_pos_payload(_payload: &serde_json::Value) -> (invoice: Result<Self, DomainError>)
        ensures
            invoice matches Err(error) && error@ == DomainErrorView::InvalidInvoice(
                "not yet implemented"@,
            ),
    {
        Err(DomainError::InvalidInvoice("not yet implemented".to_owned()))
    }
}

} // verus!
