//! Poller worker.
//!
//! For each `Submitted` invoice with a due `poll` event, ask LHDN for the
//! document details and move the row:
//!
//! - `Valid`: set `long_id`, `qr_url` and the 72h cancellation window, drop the
//!   poll event.
//! - `Invalid`: record the reason, drop the poll event.
//! - `Cancelled`: record the cancellation timestamp, drop the poll event.
//!   (LHDN-initiated cancel, distinct from our own cancel flow.)
//! - `Submitted`: reschedule with the poll backoff. Validation is still in
//!   progress; this is normal.
//! - Transient error: reschedule with the poll backoff.
//! - Non-transient error: fail the poll (drop the outbox event, leave
//!   `lhdn_status` as `Submitted` so an operator sees something is off). So it is
//!   with an invoice that has no UUID to ask for.
//! - Orphan event, whose invoice is gone: drop it.

use std::time::Duration;
use vstd::prelude::*;
use super::submitter::retry_fits;
use super::{instant_after, lhdn_variant_name, poll_backoff, poll_backoff_for};
use crate::clock::{is_instant, is_seconds, parse_rfc3339, rfc3339_instant};
use crate::laws::rows::only_event_moved;
use crate::lhdn::error::{ErrorView, LhdnError};
use crate::lhdn::models::{optional_text, DocumentDetails, DocumentStatus};
use crate::lhdn::LhdnEnv;
use crate::repo::due::poll_ids;
use crate::repo::{DuePollEvent, EventKind, InvoiceForPoll, InvoiceRepo, RepoView};
use crate::report::{
    found_invalid, found_invalid_of, poll_exhausted, poll_exhausted_of, poll_precondition,
    poll_precondition_of, row_missing_of, stage_error, stage_error_of,
};

verus! {

/// How long after validation a document can be cancelled, in seconds: 72 hours.
pub const CANCELLATION_WINDOW: i64 = 72 * 60 * 60;

/// Worker tunables.
#[derive(Debug)]
pub struct PollerConfig {
    pub poll_interval: Duration,
    pub batch_size: i64,
    /// Hard ceiling on poll attempts before giving up. With the backoff curve
    /// (5s, 15s, 30s, 60s, then 5min, then 15min) 60 attempts is roughly 13
    /// hours of waiting.
    pub max_attempts: i64,
}

impl Clone for PollerConfig {
    fn clone(&self) -> (copy: Self)
        ensures
            copy == *self,
    {
        PollerConfig {
            poll_interval: self.poll_interval,
            batch_size: self.batch_size,
            max_attempts: self.max_attempts,
        }
    }
}

impl Default for PollerConfig {
    fn default() -> (config: Self)
        ensures
            is_seconds(config.poll_interval, 2),
            config.batch_size == 16,
            config.max_attempts == 60,
    {
        PollerConfig { poll_interval: Duration::from_secs(2), batch_size: 16, max_attempts: 60 }
    }
}

/// The poller: how it is set up, and where the documents can be looked at.
#[derive(Debug)]
pub struct Poller {
    pub env: LhdnEnv,
    pub config: PollerConfig,
}

/// Where anyone can look a validated document up.
pub open spec fn qr_url_text(env: LhdnEnv, uuid: Seq<char>, long_id: Seq<char>) -> Seq<char> {
    env.portal_base_url_text() + "/"@ + uuid + "/share/"@ + long_id
}

/// The URL behind a document's QR code.
pub fn build_qr_url(env: LhdnEnv, uuid: &str, long_id: &str) -> (url: String)
    ensures
        url@ == qr_url_text(env, uuid@, long_id@),
{
    env.portal_base_url().to_owned().concat("/").concat(uuid).concat("/share/").concat(long_id)
}

/// The instant that a date in an answer stands for; the present where there is
/// none or it cannot be read.
pub open spec fn answer_instant(date: Option<Seq<char>>, now: i64) -> i64 {
    instant_or_now(
        match date {
            Some(text) => rfc3339_instant(text),
            None => None,
        },
        now,
    )
}

/// An instant, or the present where there is none.
pub open spec fn instant_or_now(instant: Option<i64>, now: i64) -> i64 {
    match instant {
        Some(at) => at,
        None => now,
    }
}

/// The text, or the empty text where there is none.
pub open spec fn text_or_empty(text: Option<Seq<char>>) -> Seq<char> {
    match text {
        Some(t) => t,
        None => ""@,
    }
}

/// Whether there is a document to ask for.
pub open spec fn can_poll(lhdn_uuid: Option<Seq<char>>) -> bool {
    lhdn_uuid matches Some(uuid) && uuid.len() > 0
}

/// The tables after LHDN found the document valid.
pub open spec fn after_valid(
    repo: RepoView,
    env: LhdnEnv,
    id: Seq<char>,
    outbox_id: i64,
    uuid: Seq<char>,
    long_id: Option<Seq<char>>,
    validated_at: i64,
    now: i64,
) -> RepoView {
    repo.after_validation(
        id,
        outbox_id,
        text_or_empty(long_id),
        qr_url_text(env, uuid, text_or_empty(long_id)),
        validated_at,
        (validated_at + CANCELLATION_WINDOW) as i64,
        now,
    )
}

/// The tables after a poll that found the document still in validation.
pub open spec fn after_still_submitted(
    repo: RepoView,
    max_attempts: i64,
    id: Seq<char>,
    outbox_id: i64,
    attempts: i64,
    now: i64,
) -> RepoView {
    let new_attempts = (attempts + 1) as i64;
    if new_attempts >= max_attempts {
        repo.after_invalidation(id, outbox_id, poll_exhausted(new_attempts as int), now)
    } else {
        repo.with_event_postponed(
            outbox_id,
            new_attempts,
            (now + poll_backoff(new_attempts as int)) as i64,
            None,
        )
    }
}

/// The tables after LHDN described the document.
pub open spec fn after_details(
    repo: RepoView,
    env: LhdnEnv,
    max_attempts: i64,
    id: Seq<char>,
    outbox_id: i64,
    attempts: i64,
    details: DocumentDetails,
    now: i64,
) -> RepoView {
    match details.status {
        DocumentStatus::Valid => after_valid(
            repo,
            env,
            id,
            outbox_id,
            details.uuid@,
            optional_text(details.long_id),
            answer_instant(optional_text(details.date_time_validated), now),
            now,
        ),
        DocumentStatus::Invalid => repo.after_invalidation(
            id,
            outbox_id,
            found_invalid(optional_text(details.document_status_reason)),
            now,
        ),
        DocumentStatus::Cancelled => repo.after_cancellation(
            id,
            outbox_id,
            answer_instant(optional_text(details.cancel_date_time), now),
            now,
        ),
        DocumentStatus::Submitted => after_still_submitted(
            repo,
            max_attempts,
            id,
            outbox_id,
            attempts,
            now,
        ),
    }
}

/// The tables after a poll failed: put off where the same call may succeed later
/// and attempts are left, otherwise given up with the status as it is.
pub open spec fn after_poll_error(
    repo: RepoView,
    max_attempts: i64,
    id: Seq<char>,
    outbox_id: i64,
    attempts: i64,
    error: ErrorView,
    now: i64,
) -> RepoView {
    let new_attempts = (attempts + 1) as i64;
    if !error.transient() || new_attempts >= max_attempts {
        repo.after_note(
            id,
            outbox_id,
            stage_error("poll"@, error.variant_text(), error.message(), new_attempts as int),
            now,
        )
    } else {
        repo.with_event_postponed(
            outbox_id,
            new_attempts,
            (now + poll_backoff(new_attempts as int)) as i64,
            Some(error.message()),
        )
    }
}

/// Whether the counts and instants that come of an answer fit an `i64`.
pub open spec fn answer_fits(status: DocumentStatus, attempts: i64, now: i64) -> bool {
    match status {
        DocumentStatus::Valid => now + CANCELLATION_WINDOW <= i64::MAX,
        DocumentStatus::Submitted => retry_fits(attempts, poll_backoff(attempts + 1), now),
        _ => true,
    }
}

fn parse_date(date: &Option<String>) -> (instant: Option<i64>)
    ensures
        instant == (match optional_text(*date) {
            Some(text) => rfc3339_instant(text),
            None => None,
        }),
        instant matches Some(seconds) ==> is_instant(seconds as int),
{
    match date {
        Some(text) => parse_rfc3339(text),
        None => None,
    }
}

impl Poller {
    /// A poller with the default settings.
    pub fn new(env: LhdnEnv) -> (poller: Self)
        ensures
            poller.env == env,
            is_seconds(poller.config.poll_interval, 2),
            poller.config.batch_size == 16,
            poller.config.max_attempts == 60,
    {
        Poller { env, config: PollerConfig::default() }
    }

    /// The same poller with other settings.
    pub fn with_config(self, config: PollerConfig) -> (poller: Self)
        ensures
            poller.env == self.env,
            poller.config == config,
    {
        Poller { env: self.env, config }
    }

    /// The events that one pass handles.
    pub fn tick(&self, repo: &InvoiceRepo, now: i64) -> (due: Vec<DuePollEvent>)
        requires
            repo.wf(),
        ensures
            repo@.is_due_batch(EventKind::Poll, now, self.config.batch_size, poll_ids(due@)),
            forall|i: int| 0 <= i < due@.len() ==> (#[trigger] due@[i]).is_in(repo@),
    {
        repo.due_poll_events(now, self.config.batch_size)
    }

    /// Takes an event up: gives the invoice and the UUID to ask LHDN for. Where
    /// the invoice is gone, the event is removed; where it has no UUID, the poll
    /// has failed.
    pub fn process_event(&self, repo: &mut InvoiceRepo, event: &DuePollEvent, now: i64) -> (target:
        Option<(InvoiceForPoll, String)>)
        requires
            old(repo).wf(),
        ensures
            final(repo).wf(),
            match old(repo)@.load(event.invoice_id@) {
                None => {
                    &&& target is None
                    &&& final(repo)@ == old(repo)@.without_event(event.outbox_id)
                },
                Some(row) => if can_poll(row.lhdn_uuid) {
                    &&& target matches Some(pair) && pair.0.is_part_of(row) && Some(pair.1@)
                        == row.lhdn_uuid
                    &&& final(repo)@ == old(repo)@
                } else {
                    &&& target is None
                    &&& final(repo)@ == old(repo)@.after_note(
                        event.invoice_id@,
                        event.outbox_id,
                        poll_precondition("missing lhdn_uuid"@),
                        now,
                    )
                },
            },
    {
        let invoice = match repo.load_for_poll(&event.invoice_id) {
            Some(invoice) => invoice,
            None => {
                let body = row_missing_of();
                repo.fail_poll(&event.invoice_id, event.outbox_id, &body, now);
                return None;
            },
        };
        if let Some(uuid) = &invoice.lhdn_uuid {
            if !uuid.as_str().is_empty() {
                let uuid = uuid.clone();
                return Some((invoice, uuid));
            }
        }
        let body = poll_precondition_of("missing lhdn_uuid");
        repo.fail_poll(&event.invoice_id, event.outbox_id, &body, now);
        None
    }

    /// Ends or puts off the event with what LHDN answered.
    pub fn on_answer(
        &self,
        repo: &mut InvoiceRepo,
        event: &DuePollEvent,
        invoice: &InvoiceForPoll,
        answer: Result<DocumentDetails, LhdnError>,
        now: i64,
    )
        requires
            old(repo).wf(),
            match answer {
                Ok(details) => answer_fits(details.status, event.attempts, now),
                Err(_) => retry_fits(event.attempts, poll_backoff(event.attempts + 1), now),
            },
        ensures
            final(repo).wf(),
            final(repo)@ == (match answer {
                Ok(details) => after_details(
                    old(repo)@,
                    self.env,
                    self.config.max_attempts,
                    invoice.id@,
                    event.outbox_id,
                    event.attempts,
                    details,
                    now,
                ),
                Err(error) => after_poll_error(
                    old(repo)@,
                    self.config.max_attempts,
                    event.invoice_id@,
                    event.outbox_id,
                    event.attempts,
                    error@,
                    now,
                ),
            }),
            answer matches Ok(details) ==> details.status == DocumentStatus::Valid
                ==> answer_instant(optional_text(details.date_time_validated), now)
                + CANCELLATION_WINDOW <= i64::MAX,
    {
        match answer {
            Ok(details) => self.handle_details(repo, event, invoice, details, now),
            Err(error) => self.handle_failure(repo, event, error, now),
        }
    }

    /// LHDN described the document.
    pub fn handle_details(
        &self,
        repo: &mut InvoiceRepo,
        event: &DuePollEvent,
        invoice: &InvoiceForPoll,
        details: DocumentDetails,
        now: i64,
    )
        requires
            old(repo).wf(),
            answer_fits(details.status, event.attempts, now),
        ensures
            final(repo).wf(),
            details.status == DocumentStatus::Valid ==> answer_instant(
                optional_text(details.date_time_validated),
                now,
            ) + CANCELLATION_WINDOW <= i64::MAX,
            final(repo)@ == after_details(
                old(repo)@,
                self.env,
                self.config.max_attempts,
                invoice.id@,
                event.outbox_id,
                event.attempts,
                details,
                now,
            ),
    {
        match details.status {
            DocumentStatus::Valid => {
                let validated = parse_date(&details.date_time_validated);
                self.on_valid(
                    repo,
                    &invoice.id,
                    event.outbox_id,
                    &details.uuid,
                    &details.long_id,
                    validated,
                    now,
                );
            },
            DocumentStatus::Invalid => {
                let body = found_invalid_of(&details.document_status_reason);
                repo.mark_invalid(&invoice.id, event.outbox_id, &body, now);
            },
            DocumentStatus::Cancelled => {
                let cancelled = parse_date(&details.cancel_date_time);
                self.on_cancelled(repo, &invoice.id, event.outbox_id, cancelled, now);
            },
            DocumentStatus::Submitted => {
                self.on_still_submitted(repo, &invoice.id, event.outbox_id, event.attempts, now);
            },
        }
    }

    /// LHDN found the document valid, at the time that it gave, or now.
    pub fn on_valid(
        &self,
        repo: &mut InvoiceRepo,
        invoice_id: &str,
        outbox_id: i64,
        uuid: &str,
        long_id: &Option<String>,
        validated: Option<i64>,
        now: i64,
    )
        requires
            old(repo).wf(),
            instant_or_now(validated, now) + CANCELLATION_WINDOW <= i64::MAX,
        ensures
            final(repo).wf(),
            final(repo)@ == after_valid(
                old(repo)@,
                self.env,
                invoice_id@,
                outbox_id,
                uuid@,
                optional_text(*long_id),
                instant_or_now(validated, now),
                now,
            ),
    {
        let validated_at: i64 = match validated {
            Some(at) => at,
            None => now,
        };
        let cancellable_until: i64 = validated_at + CANCELLATION_WINDOW;
        let long_id = match long_id {
            Some(text) => text.as_str(),
            None => "",
        };
        let qr_url = build_qr_url(self.env, uuid, long_id);
        repo.mark_valid(
            invoice_id,
            outbox_id,
            long_id,
            &qr_url,
            validated_at,
            cancellable_until,
            now,
        );
    }

    /// LHDN cancelled the document, at the time that it gave, or now.
    pub fn on_cancelled(
        &self,
        repo: &mut InvoiceRepo,
        invoice_id: &str,
        outbox_id: i64,
        cancelled: Option<i64>,
        now: i64,
    )
        requires
            old(repo).wf(),
        ensures
            final(repo).wf(),
            final(repo)@ == old(repo)@.after_cancellation(
                invoice_id@,
                outbox_id,
                instant_or_now(cancelled, now),
                now,
            ),
    {
        let cancelled_at: i64 = match cancelled {
            Some(at) => at,
            None => now,
        };
        repo.mark_cancelled_via_poll(invoice_id, outbox_id, cancelled_at, now);
    }

    /// LHDN is still validating: back off and check again, or give up.
    pub fn on_still_submitted(
        &self,
        repo: &mut InvoiceRepo,
        invoice_id: &str,
        outbox_id: i64,
        attempts: i64,
        now: i64,
    )
        requires
            old(repo).wf(),
            retry_fits(attempts, poll_backoff(attempts + 1), now),
        ensures
            final(repo).wf(),
            final(repo)@ == after_still_submitted(
                old(repo)@,
                self.config.max_attempts,
                invoice_id@,
                outbox_id,
                attempts,
                now,
            ),
            attempts + 1 < self.config.max_attempts ==> final(repo)@.invoices
                == old(repo)@.invoices && only_event_moved(
                old(repo)@,
                final(repo)@,
                outbox_id,
                attempts + 1,
                now + poll_backoff(attempts + 1),
                None,
            ),
    {
        let new_attempts: i64 = attempts + 1;
        if new_attempts >= self.config.max_attempts {
            let body = poll_exhausted_of(new_attempts);
            repo.mark_invalid(invoice_id, outbox_id, &body, now);
        } else {
            let next_at: i64 = instant_after(now, poll_backoff_for(new_attempts));
            repo.reschedule_poll(outbox_id, new_attempts, next_at, None);
        }
    }

    /// The poll failed: put it off, or give it up.
    pub fn handle_failure(
        &self,
        repo: &mut InvoiceRepo,
        event: &DuePollEvent,
        err: LhdnError,
        now: i64,
    )
        requires
            old(repo).wf(),
            retry_fits(event.attempts, poll_backoff(event.attempts + 1), now),
        ensures
            final(repo).wf(),
            final(repo)@ == after_poll_error(
                old(repo)@,
                self.config.max_attempts,
                event.invoice_id@,
                event.outbox_id,
                event.attempts,
                err@,
                now,
            ),
    {
        let new_attempts: i64 = event.attempts + 1;
        let message = err.message();
        if !err.is_transient() || new_attempts >= self.config.max_attempts {
            let body = stage_error_of("poll", lhdn_variant_name(&err), &message, new_attempts);
            repo.fail_poll(&event.invoice_id, event.outbox_id, &body, now);
        } else {
            let next_at: i64 = instant_after(now, poll_backoff_for(new_attempts));
            repo.reschedule_poll(event.outbox_id, new_attempts, next_at, Some(message.as_str()));
        }
    }
}

} // verus!
