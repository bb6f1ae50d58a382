//! A bridge between a Point-of-Sale (POS) and the Malaysian LHDN MyInvois
//! e-invoicing platform.
//!
//! The POS hands an invoice to the bridge, which keeps it in a local database
//! and answers at once. Background workers deliver it to LHDN, follow its
//! validation, and cancel it on request, with retries and LHDN's 72h
//! cancellation window tracked per invoice. If LHDN is unreachable, the invoice
//! stays `Pending` and is retried with backoff.
//!
//! - [`domain`]: canonicalisation, signing, documents.
//! - [`lhdn`]: requests to LHDN and what its replies mean; access tokens.
//! - [`invoice`], [`repo`]: the invoice, the outbox, and every change to them.
//! - [`worker`]: submitter, poller and canceller.
//! - [`api`]: the requests of the POS. [`config`]: settings.
//! - [`laws`]: what holds of all of it together.
//!
//! This library decides; sockets, the database file and sleeping are left to
//! the program around it.

pub mod api;
pub mod clock;
pub mod config;
pub mod domain;
pub mod encoding;
pub mod invoice;
pub mod json;
pub mod laws;
pub mod lhdn;
pub mod repo;
pub mod report;
pub mod table;
pub mod text;
pub mod worker;
