//! Background workers driven by the `outbox_events` queue.
//!
//! Three loops, each owning one outbox kind:
//! - [`Submitter`] handles `submit` events: build, sign and deliver to LHDN.
//! - [`Poller`] handles `poll` events: fetch document details, move the invoice
//!   from `Submitted` to `Valid`, `Invalid` or `Cancelled`, set `qr_url` and the
//!   72h cancellation window.
//! - [`Canceller`] handles `cancel` events: send the cancel to LHDN, then move
//!   the invoice to `Cancelled`.
//!
//! A worker decides; the loop around it reads the rows, calls LHDN, sleeps, and
//! writes back.

pub mod canceller;
pub mod poller;
pub mod submitter;

use std::time::Duration;
use vstd::prelude::*;
use crate::clock::is_seconds;
use crate::lhdn::error::{ErrorView, LhdnError};

pub use canceller::{Canceller, CancellerConfig};
pub use poller::{Poller, PollerConfig};
pub use submitter::{Submitter, SubmitterConfig};

verus! {

/// Seconds to wait after a failed delivery.
pub open spec fn submit_backoff(attempt: int) -> int {
    if attempt == 1 {
        30
    } else if attempt == 2 {
        120
    } else if attempt == 3 {
        600
    } else {
        3600
    }
}

/// Seconds to wait before the next poll.
pub open spec fn poll_backoff(attempt: int) -> int {
    if attempt == 0 || attempt == 1 {
        5
    } else if attempt == 2 {
        15
    } else if attempt == 3 {
        30
    } else if attempt == 4 {
        60
    } else if 5 <= attempt <= 10 {
        300
    } else {
        900
    }
}

/// Backoff schedule for delivery-style retries (submit and cancel calls): 30s,
/// 2m, 10m, 1h (capped). The argument is the 1-based attempt counter *after* the
/// failure was recorded.
pub fn submit_backoff_for(attempt: i64) -> (span: Duration)
    ensures
        is_seconds(span, submit_backoff(attempt as int)),
{
    match attempt {
        1 => Duration::from_secs(30),
        2 => Duration::from_secs(120),
        3 => Duration::from_secs(600),
        _ => Duration::from_secs(3600),
    }
}

/// Backoff schedule for the poller. LHDN typically validates within seconds to
/// minutes, so the early steps are quick. After about ten polls the cadence is
/// coarser.
pub fn poll_backoff_for(attempt: i64) -> (span: Duration)
    ensures
        is_seconds(span, poll_backoff(attempt as int)),
{
    match attempt {
        0 | 1 => Duration::from_secs(5),
        2 => Duration::from_secs(15),
        3 => Duration::from_secs(30),
        4 => Duration::from_secs(60),
        5..=10 => Duration::from_secs(300),
        _ => Duration::from_secs(900),
    }
}

impl ErrorView {
    /// The name of the kind of error.
    pub open spec fn variant_text(self) -> Seq<char> {
        match self {
            ErrorView::Auth(_) => "Auth"@,
            ErrorView::BadRequest(_) => "BadRequest"@,
            ErrorView::NotFound => "NotFound"@,
            ErrorView::Conflict(_) => "Conflict"@,
            ErrorView::RateLimited { .. } => "RateLimited"@,
            ErrorView::Server { .. } => "Server"@,
            ErrorView::Transport(_) => "Transport"@,
            ErrorView::Schema(_) => "Schema"@,
            ErrorView::Storage(_) => "Storage"@,
            ErrorView::Config(_) => "Config"@,
        }
    }
}

/// Stable, machine-readable name for an `LhdnError` variant. Used in the
/// `error_json` written to the invoice row so that dashboards can group by it.
pub fn lhdn_variant_name(err: &LhdnError) -> (name: &'static str)
    ensures
        name@ == err@.variant_text(),
{
    match err {
        LhdnError::Auth(_) => "Auth",
        LhdnError::BadRequest(_) => "BadRequest",
        LhdnError::NotFound => "NotFound",
        LhdnError::Conflict(_) => "Conflict",
        LhdnError::RateLimited { .. } => "RateLimited",
        LhdnError::Server { .. } => "Server",
        LhdnError::Transport(_) => "Transport",
        LhdnError::Schema(_) => "Schema",
        LhdnError::Storage(_) => "Storage",
        LhdnError::Config(_) => "Config",
    }
}

/// The instant that lies a backoff after another.
pub(crate) fn instant_after(now: i64, span: Duration) -> (at: i64)
    requires
        exists|secs: int|
            #![trigger is_seconds(span, secs)]
            is_seconds(span, secs) && 0 <= secs <= i64::MAX && now + secs <= i64::MAX,
    ensures
        forall|secs: int| #[trigger] is_seconds(span, secs) ==> at == now + secs,
{
    let secs: u64 = span.as_secs();
    assert forall|n: int| #[trigger] is_seconds(span, n) implies secs == n by {}
    now + secs as i64
}

/// Something that happened in a worker's loop.
#[derive(Debug, Clone, Copy, PartialEq, Eq, Structural)]
pub enum LoopEvent {
    /// A pass over the due events is done, with this many of them.
    Ticked(usize),
    /// A pass failed.
    TickFailed,
    /// The time between two passes is over.
    Elapsed,
    /// The shutdown flag changed to this value.
    ShutdownChanged(bool),
    /// Nobody is left who could ask for a shutdown.
    ShutdownLost,
}

/// What a worker's loop does next.
#[derive(Debug, Clone, Copy, PartialEq, Eq, Structural)]
pub enum LoopStep {
    /// Make a pass over the due events.
    Tick,
    /// Wait until the poll interval is over or the shutdown signal changes.
    Wait,
    /// End the loop.
    Stop,
}

/// What follows from what happened.
pub open spec fn step_after(event: LoopEvent) -> LoopStep {
    match event {
        LoopEvent::Ticked(count) => if count > 0 {
            LoopStep::Tick
        } else {
            LoopStep::Wait
        },
        LoopEvent::TickFailed => LoopStep::Wait,
        LoopEvent::Elapsed => LoopStep::Tick,
        LoopEvent::ShutdownChanged(flag) => if flag {
            LoopStep::Stop
        } else {
            LoopStep::Tick
        },
        LoopEvent::ShutdownLost => LoopStep::Stop,
    }
}

/// What a worker's loop does next, where `shutdown` says whether the process is
/// asked to end: then the loop ends, whatever happened. Otherwise, after a pass
/// that found events it makes another at once, as there are likely more, and
/// after an empty or a failed one it waits.
pub fn next_step(event: LoopEvent, shutdown: bool) -> (step: LoopStep)
    ensures
        shutdown ==> step == LoopStep::Stop,
        !shutdown ==> step == step_after(event),
{
    if shutdown {
        return LoopStep::Stop;
    }
    match event {
        LoopEvent::Ticked(count) => if count > 0 {
            LoopStep::Tick
        } else {
            LoopStep::Wait
        },
        LoopEvent::TickFailed => LoopStep::Wait,
        LoopEvent::Elapsed => LoopStep::Tick,
        LoopEvent::ShutdownChanged(flag) => if flag {
            LoopStep::Stop
        } else {
            LoopStep::Tick
        },
        LoopEvent::ShutdownLost => LoopStep::Stop,
    }
}

} // verus!
