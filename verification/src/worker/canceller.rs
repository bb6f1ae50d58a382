//! Canceller worker.
//!
//! Takes up `cancel` events (enqueued by the cancel API endpoint), has LHDN
//! cancel the document, and moves the invoice to `Cancelled` on success.
//!
//! Failure modes:
//! - Transient (5xx, rate limit, transport): reschedule with the standard
//!   delivery backoff.
//! - Non-transient (auth, bad request, conflict): record the error and drop the
//!   outbox event. `lhdn_status` is left at `Valid` because LHDN did not in fact
//!   cancel the document.
//! - Past the cancellation window at dispatch time: refuse to call LHDN, record
//!   the error, drop the outbox event.

use std::time::Duration;
use vstd::prelude::*;
use super::submitter::retry_fits;
use super::{instant_after, lhdn_variant_name, submit_backoff, submit_backoff_for};
use crate::clock::is_seconds;
use crate::lhdn::error::{ErrorView, LhdnError};
use crate::lhdn::models::optional_text;
use crate::repo::due::cancel_ids;
use crate::repo::{DueCancelEvent, EventKind, InvoiceForCancel, InvoiceRepo, RepoView};
use crate::report::{
    precondition, precondition_of, row_missing, row_missing_of, stage_error, stage_error_of,
};

verus! {

/// Worker tunables.
#[derive(Debug)]
pub struct CancellerConfig {
    pub poll_interval: Duration,
    pub batch_size: i64,
    pub max_attempts: i64,
}

impl Clone for CancellerConfig {
    fn clone(&self) -> (copy: Self)
        ensures
            copy == *self,
    {
        CancellerConfig {
            poll_interval: self.poll_interval,
            batch_size: self.batch_size,
            max_attempts: self.max_attempts,
        }
    }
}

impl Default for CancellerConfig {
    fn default() -> (config: Self)
        ensures
            is_seconds(config.poll_interval, 5),
            config.batch_size == 16,
            config.max_attempts == 8,
    {
        CancellerConfig { poll_interval: Duration::from_secs(5), batch_size: 16, max_attempts: 8 }
    }
}

/// The canceller: how it is set up.
#[derive(Debug)]
pub struct Canceller {
    pub config: CancellerConfig,
}

/// The text is missing or empty.
pub open spec fn is_blank(text: Option<Seq<char>>) -> bool {
    match text {
        Some(t) => t.len() == 0,
        None => true,
    }
}

/// Why a document is not to be cancelled at `now`, if it is not.
pub open spec fn cancel_obstacle(
    lhdn_uuid: Option<Seq<char>>,
    cancellation_reason: Option<Seq<char>>,
    cancellable_until: Option<i64>,
    now: i64,
) -> Option<Seq<char>> {
    if is_blank(lhdn_uuid) {
        Some("missing lhdn_uuid"@)
    } else if is_blank(cancellation_reason) {
        Some("missing cancellation_reason"@)
    } else if cancellable_until is None || cancellable_until->0 <= now {
        Some("past cancellation window"@)
    } else {
        None
    }
}

/// The tables after LHDN did not cancel the document: put off where the same
/// call may succeed later and attempts are left, otherwise given up with the
/// status as it is.
pub open spec fn after_cancel_error(
    repo: RepoView,
    max_attempts: i64,
    id: Seq<char>,
    outbox_id: i64,
    attempts: i64,
    error: ErrorView,
    now: i64,
) -> RepoView {
    let new_attempts = (attempts + 1) as i64;
    if !error.transient() || new_attempts >= max_attempts {
        repo.after_note(
            id,
            outbox_id,
            stage_error("cancel"@, error.variant_text(), error.message(), new_attempts as int),
            now,
        )
    } else {
        repo.with_event_postponed(
            outbox_id,
            new_attempts,
            (now + submit_backoff(new_attempts as int)) as i64,
            Some(error.message()),
        )
    }
}

fn blank(text: &Option<String>) -> (blank: bool)
    ensures
        blank == is_blank(optional_text(*text)),
{
    match text {
        Some(t) => t.as_str().is_empty(),
        None => true,
    }
}

/// Why a document is not to be cancelled at `now`, if it is not.
pub fn check_preconditions(invoice: &InvoiceForCancel, now: i64) -> (obstacle: Option<
    &'static str,
>)
    ensures
        crate::repo::slice_text(obstacle) == cancel_obstacle(
            optional_text(invoice.lhdn_uuid),
            optional_text(invoice.cancellation_reason),
            invoice.cancellable_until,
            now,
        ),
{
    if blank(&invoice.lhdn_uuid) {
        return Some("missing lhdn_uuid");
    }
    if blank(&invoice.cancellation_reason) {
        return Some("missing cancellation_reason");
    }
    match invoice.cancellable_until {
        Some(deadline) => if deadline > now {
            None
        } else {
            Some("past cancellation window")
        },
        None => Some("past cancellation window"),
    }
}

impl Canceller {
    /// A canceller with the default settings.
    pub fn new() -> (canceller: Self)
        ensures
            is_seconds(canceller.config.poll_interval, 5),
            canceller.config.batch_size == 16,
            canceller.config.max_attempts == 8,
    {
        Canceller { config: CancellerConfig::default() }
    }

    /// The same canceller with other settings.
    pub fn with_config(self, config: CancellerConfig) -> (canceller: Self)
        ensures
            canceller.config == config,
    {
        Canceller { config }
    }

    /// The events that one pass handles.
    pub fn tick(&self, repo: &InvoiceRepo, now: i64) -> (due: Vec<DueCancelEvent>)
        requires
            repo.wf(),
        ensures
            repo@.is_due_batch(EventKind::Cancel, now, self.config.batch_size, cancel_ids(due@)),
            forall|i: int| 0 <= i < due@.len() ==> (#[trigger] due@[i]).is_in(repo@),
    {
        repo.due_cancel_events(now, self.config.batch_size)
    }

    /// Takes an event up: gives the UUID of the document to cancel and the
    /// reason to give. Where the invoice is gone or not to be cancelled, LHDN is
    /// not called: the error is recorded and the event removed.
    pub fn process_event(&self, repo: &mut InvoiceRepo, event: &DueCancelEvent, now: i64) -> (call:
        Option<(String, String)>)
        requires
            old(repo).wf(),
        ensures
            final(repo).wf(),
            match old(repo)@.load(event.invoice_id@) {
                None => {
                    &&& call is None
                    &&& final(repo)@ == old(repo)@.after_note(
                        event.invoice_id@,
                        event.outbox_id,
                        row_missing(),
                        now,
                    )
                },
                Some(row) => match cancel_obstacle(
                    row.lhdn_uuid,
                    row.cancellation_reason,
                    row.cancellable_until,
                    now,
                ) {
                    Some(obstacle) => {
                        &&& call is None
                        &&& final(repo)@ == old(repo)@.after_note(
                            row.id,
                            event.outbox_id,
                            precondition(obstacle),
                            now,
                        )
                    },
                    None => {
                        &&& call matches Some(pair) && Some(pair.0@) == row.lhdn_uuid && Some(
                            pair.1@,
                        ) == row.cancellation_reason
                        &&& final(repo)@ == old(repo)@
                    },
                },
            },
    {
        let invoice = match repo.load_for_cancel(&event.invoice_id) {
            Some(invoice) => invoice,
            None => {
                let body = row_missing_of();
                repo.fail_cancel(&event.invoice_id, event.outbox_id, &body, now);
                return None;
            },
        };
        if let Some(reason) = check_preconditions(&invoice, now) {
            let body = precondition_of(reason);
            repo.fail_cancel(&invoice.id, event.outbox_id, &body, now);
            return None;
        }
        match (invoice.lhdn_uuid, invoice.cancellation_reason) {
            (Some(uuid), Some(reason)) => Some((uuid, reason)),
            _ => None,
        }
    }

    /// Ends or puts off the event with what LHDN answered.
    pub fn on_answer(
        &self,
        repo: &mut InvoiceRepo,
        event: &DueCancelEvent,
        answer: Result<(), LhdnError>,
        now: i64,
    )
        requires
            old(repo).wf(),
            answer is Err ==> retry_fits(
                event.attempts,
                submit_backoff(event.attempts + 1),
                now,
            ),
        ensures
            final(repo).wf(),
            final(repo)@ == (match answer {
                Ok(_) => old(repo)@.after_cancellation(
                    event.invoice_id@,
                    event.outbox_id,
                    now,
                    now,
                ),
                Err(error) => after_cancel_error(
                    old(repo)@,
                    self.config.max_attempts,
                    event.invoice_id@,
                    event.outbox_id,
                    event.attempts,
                    error@,
                    now,
                ),
            }),
    {
        match answer {
            Ok(_) => repo.complete_cancel(&event.invoice_id, event.outbox_id, now),
            Err(error) => self.handle_failure(repo, event, error, now),
        }
    }

    /// LHDN did not cancel the document: try again later, or give up.
    pub fn handle_failure(
        &self,
        repo: &mut InvoiceRepo,
        event: &DueCancelEvent,
        err: LhdnError,
        now: i64,
    )
        requires
            old(repo).wf(),
            retry_fits(event.attempts, submit_backoff(event.attempts + 1), now),
        ensures
            final(repo).wf(),
            final(repo)@ == after_cancel_error(
                old(repo)@,
                self.config.max_attempts,
                event.invoice_id@,
                event.outbox_id,
                event.attempts,
                err@,
                now,
            ),
    {
        let new_attempts: i64 = event.attempts + 1;
        let last_error = err.message();
        if !err.is_transient() || new_attempts >= self.config.max_attempts {
            let body = stage_error_of("cancel", lhdn_variant_name(&err), &last_error, new_attempts);
            repo.fail_cancel(&event.invoice_id, event.outbox_id, &body, now);
        } else {
            let next_at: i64 = instant_after(now, submit_backoff_for(new_attempts));
            repo.reschedule_cancel(event.outbox_id, new_attempts, next_at, &last_error);
        }
    }
}

} // verus!
