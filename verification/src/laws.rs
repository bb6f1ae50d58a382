//! What holds of the bridge as a whole: in every state that it can reach, and
//! over several calls.

pub mod answers;
pub mod bundles;
pub mod calls;
pub mod operations;
pub mod parts;
pub mod repository;
pub mod requests;
pub mod rows;
pub mod wire;

use vstd::prelude::*;
use crate::domain::SignedDocument;
use crate::invoice::{InvoiceStatus, InvoiceView};
use crate::lhdn::error::ErrorView;
use crate::lhdn::models::{optional_text, DocumentDetails, DocumentStatus, SubmissionResponse};
use crate::lhdn::LhdnEnv;
use crate::repo::{EventKind, EventView, RepoView};
use crate::report::{build_error, poll_precondition, precondition};
use crate::worker::canceller::{after_cancel_error, cancel_obstacle};
use crate::worker::poller::{
    after_details, after_poll_error, answer_fits, answer_instant, can_poll, qr_url_text,
    text_or_empty, CANCELLATION_WINDOW,
};
use crate::worker::submitter::{after_answer, after_delivery_error, retry_fits};
use crate::worker::{poll_backoff, submit_backoff};

verus! {

/// Which status an invoice has while an event of the kind waits for it.
pub open spec fn awaited_status(kind: EventKind) -> InvoiceStatus {
    match kind {
        EventKind::Submit => InvoiceStatus::Pending,
        EventKind::Poll => InvoiceStatus::Submitted,
        EventKind::Cancel => InvoiceStatus::Valid,
    }
}

/// Whether LHDN has taken the document in.
pub open spec fn was_submitted(status: InvoiceStatus) -> bool {
    status != InvoiceStatus::Pending && status != InvoiceStatus::Failed
}

/// Whether an invoice holds what belongs to its status, and nothing that comes
/// with a later one.
pub open spec fn milestones(row: InvoiceView) -> bool {
    &&& row.next_attempt_at is Some <==> row.lhdn_status == InvoiceStatus::Pending
    &&& was_submitted(row.lhdn_status) <==> row.submitted_at is Some
    &&& was_submitted(row.lhdn_status) <==> row.lhdn_uuid is Some
    &&& was_submitted(row.lhdn_status) <==> row.signature is Some
    &&& was_submitted(row.lhdn_status) <==> row.ubl_xml is Some
    &&& row.lhdn_status == InvoiceStatus::Valid ==> row.validated_at is Some
    &&& row.validated_at is Some ==> row.lhdn_status == InvoiceStatus::Valid || row.lhdn_status
        == InvoiceStatus::Cancelled
    &&& row.qr_url is Some <==> row.validated_at is Some
    &&& match row.validated_at {
        Some(at) => row.cancellable_until matches Some(until) && until == at + CANCELLATION_WINDOW,
        None => row.cancellable_until is None,
    }
    &&& row.cancelled_at is Some <==> row.lhdn_status == InvoiceStatus::Cancelled
}

/// Whether an event and the invoice that it is for agree.
pub open spec fn agree(event: EventView, row: InvoiceView) -> bool {
    &&& row.lhdn_status == awaited_status(event.kind)
    &&& event.kind == EventKind::Submit ==> row.next_attempt_at == Some(event.available_at)
        && row.attempts == event.attempts
}

impl RepoView {
    /// Whether an event waits for the invoice.
    pub open spec fn has_event_for(self, id: Seq<char>) -> bool {
        exists|e: i64| #[trigger] self.outbox.contains_key(e) && self.outbox[e].invoice_id == id
    }

    /// What holds of the two tables in every state.
    pub open spec fn consistent(self) -> bool {
        &&& self.keyed()
        &&& forall|e: i64| #[trigger]
            self.outbox.contains_key(e) ==> self.invoices.contains_key(self.outbox[e].invoice_id)
                && agree(self.outbox[e], self.invoices[self.outbox[e].invoice_id])
        &&& forall|a: i64, b: i64| #[trigger]
            self.outbox.contains_key(a) && #[trigger] self.outbox.contains_key(b)
                && self.outbox[a].invoice_id == self.outbox[b].invoice_id ==> a == b
        &&& forall|id: Seq<char>| #[trigger]
            self.invoices.contains_key(id) ==> milestones(self.invoices[id])
        &&& forall|id: Seq<char>| #[trigger]
            self.invoices.contains_key(id) && self.invoices[id].lhdn_status
                == InvoiceStatus::Pending ==> self.has_event_for(id)
    }
}

/// Whether an invoice may go from one status to the other in one step.
pub open spec fn may_become(before: InvoiceStatus, after: InvoiceStatus) -> bool {
    ||| before == after
    ||| before == InvoiceStatus::Pending && (after == InvoiceStatus::Submitted || after
        == InvoiceStatus::Failed)
    ||| before == InvoiceStatus::Submitted && (after == InvoiceStatus::Valid || after
        == InvoiceStatus::Invalid || after == InvoiceStatus::Cancelled)
    ||| before == InvoiceStatus::Valid && after == InvoiceStatus::Cancelled
}

/// Whether every invoice is still there, with what the POS sent, and has at most
/// moved on by one step.
pub open spec fn nothing_lost(before: RepoView, after: RepoView) -> bool {
    forall|id: Seq<char>| #[trigger]
        before.invoices.contains_key(id) ==> {
            &&& after.invoices.contains_key(id)
            &&& after.invoices[id].invoice_ref == before.invoices[id].invoice_ref
            &&& after.invoices[id].payload_json == before.invoices[id].payload_json
            &&& after.invoices[id].created_at == before.invoices[id].created_at
            &&& may_become(before.invoices[id].lhdn_status, after.invoices[id].lhdn_status)
        }
}

/// Everything that changes the tables.
pub enum Change {
    /// An invoice came in.
    Create { id: Seq<char>, invoice_ref: Seq<char>, payload_json: Seq<char>, now: i64 },
    /// A cancellation was asked for.
    RequestCancel { invoice_ref: Seq<char>, reason: Seq<char>, now: i64 },
    /// No document could be built for a `submit` event.
    Unbuilt { event: i64, why: Seq<char>, now: i64 },
    /// LHDN answered a delivery.
    SubmitAnswered { event: i64, signed: SignedDocument, resp: SubmissionResponse, now: i64 },
    /// A delivery failed.
    SubmitFailed { event: i64, max_attempts: i64, error: ErrorView, now: i64 },
    /// A `poll` event has nothing to ask for.
    Unaskable { event: i64, now: i64 },
    /// LHDN answered a poll.
    PollAnswered {
        event: i64,
        env: LhdnEnv,
        max_attempts: i64,
        details: DocumentDetails,
        now: i64,
    },
    /// A poll failed.
    PollFailed { event: i64, max_attempts: i64, error: ErrorView, now: i64 },
    /// A `cancel` event is not sent to LHDN.
    CancelStopped { event: i64, obstacle: Seq<char>, now: i64 },
    /// LHDN cancelled the document.
    CancelDone { event: i64, now: i64 },
    /// LHDN did not cancel the document.
    CancelFailed { event: i64, max_attempts: i64, error: ErrorView, now: i64 },
}

/// Whether the id is that of an event of the kind.
pub open spec fn holds(repo: RepoView, event: i64, kind: EventKind) -> bool {
    repo.outbox.contains_key(event) && repo.outbox[event].kind == kind
}

/// Whether the change can come about in that state.
pub open spec fn may_happen(repo: RepoView, change: Change) -> bool {
    match change {
        Change::Create { id, invoice_ref, .. } => !repo.id_or_ref_taken(id, invoice_ref)
            && repo.next_outbox_id < i64::MAX,
        Change::RequestCancel { invoice_ref, now, .. } => repo.cancel_refusal(invoice_ref, now)
            is None && repo.next_outbox_id < i64::MAX,
        Change::Unbuilt { event, .. } => holds(repo, event, EventKind::Submit),
        Change::SubmitAnswered { event, signed, resp, now } => holds(repo, event, EventKind::Submit)
            && repo.next_outbox_id < i64::MAX && after_answer(
            repo,
            repo.outbox[event].invoice_id,
            event,
            signed,
            resp,
            now,
        ) is Some,
        Change::SubmitFailed { event, now, .. } => {
            let attempts = repo.invoices[repo.outbox[event].invoice_id].attempts;
            holds(repo, event, EventKind::Submit) && retry_fits(
                attempts,
                submit_backoff(attempts + 1),
                now,
            )
        },
        Change::Unaskable { event, .. } => holds(repo, event, EventKind::Poll) && !can_poll(
            repo.invoices[repo.outbox[event].invoice_id].lhdn_uuid,
        ),
        Change::PollAnswered { event, details, now, .. } => holds(repo, event, EventKind::Poll)
            && answer_fits(details.status, repo.outbox[event].attempts, now)
            && answer_instant(optional_text(details.date_time_validated), now)
            + CANCELLATION_WINDOW <= i64::MAX,
        Change::PollFailed { event, now, .. } => holds(repo, event, EventKind::Poll) && retry_fits(
            repo.outbox[event].attempts,
            poll_backoff(repo.outbox[event].attempts + 1),
            now,
        ),
        Change::CancelStopped { event, obstacle, now } => {
            let row = repo.invoices[repo.outbox[event].invoice_id];
            holds(repo, event, EventKind::Cancel) && cancel_obstacle(
                row.lhdn_uuid,
                row.cancellation_reason,
                row.cancellable_until,
                now,
            ) == Some(obstacle)
        },
        Change::CancelDone { event, .. } => holds(repo, event, EventKind::Cancel),
        Change::CancelFailed { event, now, .. } => holds(repo, event, EventKind::Cancel)
            && retry_fits(
            repo.outbox[event].attempts,
            submit_backoff(repo.outbox[event].attempts + 1),
            now,
        ),
    }
}

/// The tables after the change.
pub open spec fn after_change(repo: RepoView, change: Change) -> RepoView {
    match change {
        Change::Create { id, invoice_ref, payload_json, now } => repo.with_pending(
            id,
            invoice_ref,
            payload_json,
            now,
        ),
        Change::RequestCancel { invoice_ref, reason, now } => repo.after_cancel_request(
            invoice_ref,
            reason,
            now,
        ),
        Change::Unbuilt { event, why, now } => {
            let id = repo.outbox[event].invoice_id;
            repo.after_failure(id, event, repo.invoices[id].attempts, build_error(why), now)
        },
        Change::SubmitAnswered { event, signed, resp, now } => after_answer(
            repo,
            repo.outbox[event].invoice_id,
            event,
            signed,
            resp,
            now,
        )->0,
        Change::SubmitFailed { event, max_attempts, error, now } => {
            let id = repo.outbox[event].invoice_id;
            after_delivery_error(
                repo,
                max_attempts,
                id,
                event,
                repo.invoices[id].attempts,
                error,
                now,
            )
        },
        Change::Unaskable { event, now } => repo.after_note(
            repo.outbox[event].invoice_id,
            event,
            poll_precondition("missing lhdn_uuid"@),
            now,
        ),
        Change::PollAnswered { event, env, max_attempts, details, now } => after_details(
            repo,
            env,
            max_attempts,
            repo.outbox[event].invoice_id,
            event,
            repo.outbox[event].attempts,
            details,
            now,
        ),
        Change::PollFailed { event, max_attempts, error, now } => after_poll_error(
            repo,
            max_attempts,
            repo.outbox[event].invoice_id,
            event,
            repo.outbox[event].attempts,
            error,
            now,
        ),
        Change::CancelStopped { event, obstacle, now } => repo.after_note(
            repo.outbox[event].invoice_id,
            event,
            precondition(obstacle),
            now,
        ),
        Change::CancelDone { event, now } => repo.after_cancellation(
            repo.outbox[event].invoice_id,
            event,
            now,
            now,
        ),
        Change::CancelFailed { event, max_attempts, error, now } => after_cancel_error(
            repo,
            max_attempts,
            repo.outbox[event].invoice_id,
            event,
            repo.outbox[event].attempts,
            error,
            now,
        ),
    }
}

/// Taking an event out and moving its invoice on keeps the tables consistent.
proof fn lemma_event_ends(before: RepoView, event: i64, row: InvoiceView)
    requires
        before.consistent(),
        before.outbox.contains_key(event),
        ({
            let was = before.invoices[before.outbox[event].invoice_id];
            &&& row.id == was.id
            &&& row.invoice_ref == was.invoice_ref
            &&& row.payload_json == was.payload_json
            &&& row.created_at == was.created_at
            &&& may_become(was.lhdn_status, row.lhdn_status)
        }),
        milestones(row),
        row.lhdn_status != InvoiceStatus::Pending,
    ensures
        ({
            let after = before.with_invoice(row).without_event(event);
            &&& after.consistent()
            &&& nothing_lost(before, after)
        }),
{
    let id = before.outbox[event].invoice_id;
    let after = before.with_invoice(row).without_event(event);
    assert(row.id == id);
    assert forall|e: i64| #[trigger] after.outbox.contains_key(e) implies after.invoices.contains_key(
        after.outbox[e].invoice_id,
    ) && agree(after.outbox[e], after.invoices[after.outbox[e].invoice_id]) by {
        assert(before.outbox.contains_key(e));
        assert(before.outbox[e].invoice_id != id);
    }
    assert forall|a: Seq<char>, b: Seq<char>| #[trigger]
        after.invoices.contains_key(a) && #[trigger] after.invoices.contains_key(b)
            && after.invoices[a].invoice_ref == after.invoices[b].invoice_ref implies a == b by {
        assert(before.invoices.contains_key(a) && before.invoices.contains_key(b));
    }
    assert forall|a: i64, b: i64| #[trigger]
        after.outbox.contains_key(a) && #[trigger] after.outbox.contains_key(b)
            && after.outbox[a].invoice_id == after.outbox[b].invoice_id implies a == b by {
        assert(before.outbox.contains_key(a) && before.outbox.contains_key(b));
    }
    assert forall|k: Seq<char>| #[trigger]
        after.invoices.contains_key(k) && after.invoices[k].lhdn_status
            == InvoiceStatus::Pending implies after.has_event_for(k) by {
        assert(before.invoices.contains_key(k));
        assert(before.has_event_for(k));
        let e = choose|e: i64| #[trigger]
            before.outbox.contains_key(e) && before.outbox[e].invoice_id == k;
        assert(after.outbox.contains_key(e));
    }
}

/// Moving an event to another time, together with its invoice's next attempt
/// where it is one to submit, keeps the tables consistent.
proof fn lemma_event_moves(before: RepoView, event: i64, row: InvoiceView, moved: EventView)
    requires
        before.consistent(),
        before.outbox.contains_key(event),
        ({
            let was = before.invoices[before.outbox[event].invoice_id];
            &&& row.id == was.id
            &&& row.invoice_ref == was.invoice_ref
            &&& row.payload_json == was.payload_json
            &&& row.created_at == was.created_at
            &&& row.lhdn_status == was.lhdn_status
        }),
        milestones(row),
        moved.id == event,
        moved.invoice_id == before.outbox[event].invoice_id,
        moved.kind == before.outbox[event].kind,
        agree(moved, row),
    ensures
        ({
            let after = RepoView {
                outbox: before.outbox.insert(event, moved),
                ..before.with_invoice(row)
            };
            &&& after.consistent()
            &&& nothing_lost(before, after)
        }),
{
    let id = before.outbox[event].invoice_id;
    let after = RepoView { outbox: before.outbox.insert(event, moved), ..before.with_invoice(row) };
    assert(row.id == id);
    assert forall|e: i64| #[trigger] after.outbox.contains_key(e) implies after.invoices.contains_key(
        after.outbox[e].invoice_id,
    ) && agree(after.outbox[e], after.invoices[after.outbox[e].invoice_id]) by {
        assert(before.outbox.contains_key(e));
        if e != event {
            assert(before.outbox[e].invoice_id != id);
        }
    }
    assert forall|a: Seq<char>, b: Seq<char>| #[trigger]
        after.invoices.contains_key(a) && #[trigger] after.invoices.contains_key(b)
            && after.invoices[a].invoice_ref == after.invoices[b].invoice_ref implies a == b by {
        assert(before.invoices.contains_key(a) && before.invoices.contains_key(b));
    }
    assert forall|a: i64, b: i64| #[trigger]
        after.outbox.contains_key(a) && #[trigger] after.outbox.contains_key(b)
            && after.outbox[a].invoice_id == after.outbox[b].invoice_id implies a == b by {
        assert(before.outbox.contains_key(a) && before.outbox.contains_key(b));
    }
    assert forall|k: Seq<char>| #[trigger]
        after.invoices.contains_key(k) && after.invoices[k].lhdn_status
            == InvoiceStatus::Pending implies after.has_event_for(k) by {
        assert(before.invoices.contains_key(k));
        assert(before.has_event_for(k));
        let e = choose|e: i64| #[trigger]
            before.outbox.contains_key(e) && before.outbox[e].invoice_id == k;
        assert(after.outbox.contains_key(e));
    }
}

/// Giving an invoice that no event waits for a new one keeps the tables
/// consistent.
proof fn lemma_event_comes(before: RepoView, row: InvoiceView, kind: EventKind, now: i64)
    requires
        before.keyed(),
        forall|e: i64| #[trigger]
            before.outbox.contains_key(e) ==> before.invoices.contains_key(
                before.outbox[e].invoice_id,
            ) && before.outbox[e].invoice_id != row.id && agree(
                before.outbox[e],
                before.invoices[before.outbox[e].invoice_id],
            ),
        forall|a: i64, b: i64| #[trigger]
            before.outbox.contains_key(a) && #[trigger] before.outbox.contains_key(b)
                && before.outbox[a].invoice_id == before.outbox[b].invoice_id ==> a == b,
        forall|id: Seq<char>| #[trigger]
            before.invoices.contains_key(id) && id != row.id ==> milestones(before.invoices[id])
                && (before.invoices[id].lhdn_status == InvoiceStatus::Pending
                ==> before.has_event_for(id)),
        forall|id: Seq<char>| #[trigger]
            before.invoices.contains_key(id) && before.invoices[id].invoice_ref == row.invoice_ref
                ==> id == row.id,
        milestones(row),
        row.lhdn_status == awaited_status(kind),
        kind == EventKind::Submit ==> row.next_attempt_at == Some(now) && row.attempts == 0,
        before.next_outbox_id < i64::MAX,
    ensures
        before.with_invoice(row).with_new_event(row.id, kind, now).consistent(),
{
    let after = before.with_invoice(row).with_new_event(row.id, kind, now);
    assert forall|e: i64| #[trigger] after.outbox.contains_key(e) implies after.invoices.contains_key(
        after.outbox[e].invoice_id,
    ) && agree(after.outbox[e], after.invoices[after.outbox[e].invoice_id]) && after.outbox[e].id
        == e && e < after.next_outbox_id by {
        if e != before.next_outbox_id {
            assert(before.outbox.contains_key(e));
        }
    }
    assert forall|a: Seq<char>, b: Seq<char>| #[trigger]
        after.invoices.contains_key(a) && #[trigger] after.invoices.contains_key(b)
            && after.invoices[a].invoice_ref == after.invoices[b].invoice_ref implies a == b by {
        if a != row.id {
            assert(before.invoices.contains_key(a));
        }
        if b != row.id {
            assert(before.invoices.contains_key(b));
        }
    }
    assert forall|a: i64, b: i64| #[trigger]
        after.outbox.contains_key(a) && #[trigger] after.outbox.contains_key(b)
            && after.outbox[a].invoice_id == after.outbox[b].invoice_id implies a == b by {
        if a != before.next_outbox_id {
            assert(before.outbox.contains_key(a));
        }
        if b != before.next_outbox_id {
            assert(before.outbox.contains_key(b));
        }
    }
    assert forall|k: Seq<char>| #[trigger]
        after.invoices.contains_key(k) && after.invoices[k].lhdn_status
            == InvoiceStatus::Pending implies after.has_event_for(k) by {
        if k == row.id {
            assert(after.outbox.contains_key(before.next_outbox_id));
        } else {
            assert(before.invoices.contains_key(k));
            assert(before.has_event_for(k));
            let e = choose|e: i64| #[trigger]
                before.outbox.contains_key(e) && before.outbox[e].invoice_id == k;
            assert(after.outbox.contains_key(e));
        }
    }
}

proof fn lemma_create_keeps(
    before: RepoView,
    id: Seq<char>,
    invoice_ref: Seq<char>,
    payload_json: Seq<char>,
    now: i64,
)
    requires
        before.consistent(),
        !before.id_or_ref_taken(id, invoice_ref),
        before.next_outbox_id < i64::MAX,
    ensures
        before.with_pending(id, invoice_ref, payload_json, now).consistent(),
        nothing_lost(before, before.with_pending(id, invoice_ref, payload_json, now)),
{
    lemma_event_comes(
        before,
        InvoiceView::pending(id, invoice_ref, payload_json, now),
        EventKind::Submit,
        now,
    );
}

proof fn lemma_cancel_request_keeps(
    before: RepoView,
    invoice_ref: Seq<char>,
    reason: Seq<char>,
    now: i64,
)
    requires
        before.consistent(),
        before.cancel_refusal(invoice_ref, now) is None,
        before.next_outbox_id < i64::MAX,
    ensures
        before.after_cancel_request(invoice_ref, reason, now).consistent(),
        nothing_lost(before, before.after_cancel_request(invoice_ref, reason, now)),
{
    let id = before.id_of_ref(invoice_ref);
    assert(before.invoices.contains_key(id));
    let row = before.invoices[id].cancel_requested(reason, now);
    assert forall|e: i64| #[trigger] before.outbox.contains_key(e) implies before.outbox[e].invoice_id
        != id by {
        if before.outbox[e].invoice_id == id {
            assert(before.outbox[e].kind == EventKind::Cancel);
            assert(before.cancel_waits(id));
        }
    }
    lemma_event_comes(before, row, EventKind::Cancel, now);
    assert(before.after_cancel_request(invoice_ref, reason, now) =~= before.with_invoice(
        row,
    ).with_new_event(row.id, EventKind::Cancel, now));
}

proof fn lemma_submission_keeps(
    before: RepoView,
    event: i64,
    completion: crate::invoice::CompletionView,
    now: i64,
)
    requires
        before.consistent(),
        holds(before, event, EventKind::Submit),
        before.next_outbox_id < i64::MAX,
    ensures
        ({
            let after = before.after_submission(
                before.outbox[event].invoice_id,
                event,
                completion,
                now,
            );
            &&& after.consistent()
            &&& nothing_lost(before, after)
        }),
{
    let id = before.outbox[event].invoice_id;
    let row = before.invoices[id].submitted(completion, now);
    let base = before.without_event(event);
    assert forall|e: i64| #[trigger] base.outbox.contains_key(e) implies base.invoices.contains_key(
        base.outbox[e].invoice_id,
    ) && base.outbox[e].invoice_id != row.id && agree(
        base.outbox[e],
        base.invoices[base.outbox[e].invoice_id],
    ) by {
        assert(before.outbox.contains_key(e));
    }
    assert forall|a: i64, b: i64| #[trigger]
        base.outbox.contains_key(a) && #[trigger] base.outbox.contains_key(b)
            && base.outbox[a].invoice_id == base.outbox[b].invoice_id implies a == b by {
        assert(before.outbox.contains_key(a) && before.outbox.contains_key(b));
    }
    assert forall|k: Seq<char>| #[trigger] base.invoices.contains_key(k) && k != row.id implies milestones(
        base.invoices[k],
    ) && (base.invoices[k].lhdn_status == InvoiceStatus::Pending ==> base.has_event_for(k)) by {
        if base.invoices[k].lhdn_status == InvoiceStatus::Pending {
            assert(before.invoices.contains_key(k));
            assert(before.has_event_for(k));
            let e = choose|e: i64| #[trigger]
                before.outbox.contains_key(e) && before.outbox[e].invoice_id == k;
            assert(base.outbox.contains_key(e));
        }
    }
    assert(base.keyed()) by {
        assert forall|e: i64| #[trigger] base.outbox.contains_key(e) implies base.outbox[e].id == e
            && e < base.next_outbox_id by {
            assert(before.outbox.contains_key(e));
        }
    }
    assert forall|k: Seq<char>| #[trigger]
        base.invoices.contains_key(k) && base.invoices[k].invoice_ref == row.invoice_ref implies k
        == row.id by {
        assert(before.invoices.contains_key(k) && before.invoices.contains_key(id));
    }
    lemma_event_comes(base, row, EventKind::Poll, now);
    assert(before.after_submission(id, event, completion, now) =~= base.with_invoice(
        row,
    ).with_new_event(row.id, EventKind::Poll, now));
}

/// Whatever happens, the tables stay consistent: ids and references are unique,
/// at most one event waits for an invoice, it is of the kind that the invoice's
/// status calls for, every `Pending` invoice has one, and every invoice holds
/// what belongs to its status. No invoice is lost or loses what the POS sent, and
/// each moves on only along the lifecycle.
pub proof fn law_every_change_keeps_the_tables(repo: RepoView, change: Change)
    requires
        repo.consistent(),
        may_happen(repo, change),
    ensures
        after_change(repo, change).consistent(),
        nothing_lost(repo, after_change(repo, change)),
{
    let after = after_change(repo, change);
    match change {
        Change::Create { id, invoice_ref, payload_json, now } => {
            lemma_create_keeps(repo, id, invoice_ref, payload_json, now);
        },
        Change::RequestCancel { invoice_ref, reason, now } => {
            lemma_cancel_request_keeps(repo, invoice_ref, reason, now);
        },
        Change::Unbuilt { event, why, now } => {
            let id = repo.outbox[event].invoice_id;
            let was = repo.invoices[id];
            let row = was.failed(was.attempts, build_error(why), now);
            lemma_event_ends(repo, event, row);
            assert(after =~= repo.with_invoice(row).without_event(event));
        },
        Change::SubmitAnswered { event, signed, resp, now } => {
            let id = repo.outbox[event].invoice_id;
            let was = repo.invoices[id];
            match crate::worker::submitter::first_rejection(
                resp.rejected_documents@,
                signed.code_number@,
            ) {
                Some(error) => {
                    let row = was.failed(was.attempts, crate::report::rejection(error), now);
                    lemma_event_ends(repo, event, row);
                    assert(after =~= repo.with_invoice(row).without_event(event));
                },
                None => {
                    let completion = crate::invoice::CompletionView {
                        submission_uid: resp.submission_uid@,
                        lhdn_uuid: crate::worker::submitter::accepted_uuid(
                            resp.accepted_documents@,
                            signed.code_number@,
                        ),
                        signature_b64: signed.signature@,
                        signed_document_utf8: vstd::utf8::decode_utf8(signed.canonical_bytes@),
                        document_hash_b64: signed.document_hash@,
                    };
                    lemma_submission_keeps(repo, event, completion, now);
                },
            }
        },
        Change::SubmitFailed { event, max_attempts, error, now } => {
            let id = repo.outbox[event].invoice_id;
            let was = repo.invoices[id];
            let attempts = (was.attempts + 1) as i64;
            let body = crate::report::delivery_error(
                error.variant_text(),
                error.message(),
                attempts as int,
            );
            if !error.transient() || attempts >= max_attempts {
                let row = was.failed(attempts, body, now);
                lemma_event_ends(repo, event, row);
                assert(after =~= repo.with_invoice(row).without_event(event));
            } else {
                let at = (now + submit_backoff(attempts as int)) as i64;
                let row = was.rescheduled(attempts, at, body, now);
                let moved = repo.outbox[event].postponed(attempts, at, Some(error.message()));
                lemma_event_moves(repo, event, row, moved);
                assert(after =~= (RepoView {
                    outbox: repo.outbox.insert(event, moved),
                    ..repo.with_invoice(row)
                }));
            }
        },
        Change::Unaskable { event, now } => {
            let was = repo.invoices[repo.outbox[event].invoice_id];
            let row = was.noted(poll_precondition("missing lhdn_uuid"@), now);
            lemma_event_ends(repo, event, row);
            assert(after =~= repo.with_invoice(row).without_event(event));
        },
        Change::PollAnswered { event, env, max_attempts, details, now } => {
            lemma_poll_answer_keeps(repo, event, env, max_attempts, details, now);
        },
        Change::PollFailed { event, max_attempts, error, now } => {
            let id = repo.outbox[event].invoice_id;
            let was = repo.invoices[id];
            let attempts = (repo.outbox[event].attempts + 1) as i64;
            if !error.transient() || attempts >= max_attempts {
                let row = was.noted(
                    crate::report::stage_error(
                        "poll"@,
                        error.variant_text(),
                        error.message(),
                        attempts as int,
                    ),
                    now,
                );
                lemma_event_ends(repo, event, row);
                assert(after =~= repo.with_invoice(row).without_event(event));
            } else {
                lemma_postponed_keeps(
                    repo,
                    event,
                    attempts,
                    (now + poll_backoff(attempts as int)) as i64,
                    Some(error.message()),
                );
            }
        },
        Change::CancelStopped { event, obstacle, now } => {
            let row = repo.invoices[repo.outbox[event].invoice_id].noted(
                precondition(obstacle),
                now,
            );
            lemma_event_ends(repo, event, row);
            assert(after =~= repo.with_invoice(row).without_event(event));
        },
        Change::CancelDone { event, now } => {
            let row = repo.invoices[repo.outbox[event].invoice_id].cancelled(now, now);
            lemma_event_ends(repo, event, row);
            assert(after =~= repo.with_invoice(row).without_event(event));
        },
        Change::CancelFailed { event, max_attempts, error, now } => {
            let was = repo.invoices[repo.outbox[event].invoice_id];
            let attempts = (repo.outbox[event].attempts + 1) as i64;
            if !error.transient() || attempts >= max_attempts {
                let row = was.noted(
                    crate::report::stage_error(
                        "cancel"@,
                        error.variant_text(),
                        error.message(),
                        attempts as int,
                    ),
                    now,
                );
                lemma_event_ends(repo, event, row);
                assert(after =~= repo.with_invoice(row).without_event(event));
            } else {
                lemma_postponed_keeps(
                    repo,
                    event,
                    attempts,
                    (now + submit_backoff(attempts as int)) as i64,
                    Some(error.message()),
                );
            }
        },
    }
}

proof fn lemma_postponed_keeps(
    before: RepoView,
    event: i64,
    attempts: i64,
    available_at: i64,
    last_error: Option<Seq<char>>,
)
    requires
        before.consistent(),
        before.outbox.contains_key(event),
        before.outbox[event].kind != EventKind::Submit,
    ensures
        before.with_event_postponed(event, attempts, available_at, last_error).consistent(),
        nothing_lost(
            before,
            before.with_event_postponed(event, attempts, available_at, last_error),
        ),
{
    let row = before.invoices[before.outbox[event].invoice_id];
    let moved = before.outbox[event].postponed(attempts, available_at, last_error);
    lemma_event_moves(before, event, row, moved);
    assert(before.invoices.insert(row.id, row) =~= before.invoices);
    assert(before.with_event_postponed(event, attempts, available_at, last_error) =~= (RepoView {
        outbox: before.outbox.insert(event, moved),
        ..before.with_invoice(row)
    }));
}

proof fn lemma_poll_answer_keeps(
    repo: RepoView,
    event: i64,
    env: LhdnEnv,
    max_attempts: i64,
    details: DocumentDetails,
    now: i64,
)
    requires
        repo.consistent(),
        may_happen(repo, Change::PollAnswered { event, env, max_attempts, details, now }),
    ensures
        ({
            let after = after_change(
                repo,
                Change::PollAnswered { event, env, max_attempts, details, now },
            );
            &&& after.consistent()
            &&& nothing_lost(repo, after)
        }),
{
    let after = after_change(repo, Change::PollAnswered { event, env, max_attempts, details, now });
    let was = repo.invoices[repo.outbox[event].invoice_id];
    match details.status {
        DocumentStatus::Valid => {
            let long_id = text_or_empty(optional_text(details.long_id));
            let at = answer_instant(optional_text(details.date_time_validated), now);
            let row = was.validated(
                long_id,
                qr_url_text(env, details.uuid@, long_id),
                at,
                (at + CANCELLATION_WINDOW) as i64,
                now,
            );
            lemma_event_ends(repo, event, row);
            assert(after =~= repo.with_invoice(row).without_event(event));
        },
        DocumentStatus::Invalid => {
            let row = was.invalidated(
                crate::report::found_invalid(optional_text(details.document_status_reason)),
                now,
            );
            lemma_event_ends(repo, event, row);
            assert(after =~= repo.with_invoice(row).without_event(event));
        },
        DocumentStatus::Cancelled => {
            let at = answer_instant(optional_text(details.cancel_date_time), now);
            let row = was.cancelled(at, now);
            lemma_event_ends(repo, event, row);
            assert(after =~= repo.with_invoice(row).without_event(event));
        },
        DocumentStatus::Submitted => {
            let attempts = (repo.outbox[event].attempts + 1) as i64;
            if attempts >= max_attempts {
                let row = was.invalidated(crate::report::poll_exhausted(attempts as int), now);
                lemma_event_ends(repo, event, row);
                assert(after =~= repo.with_invoice(row).without_event(event));
            } else {
                lemma_postponed_keeps(
                    repo,
                    event,
                    attempts,
                    (now + poll_backoff(attempts as int)) as i64,
                    None,
                );
            }
        },
    }
}

/// An empty database is consistent.
pub proof fn law_empty_tables_are_consistent(next_outbox_id: i64)
    ensures
        RepoView::empty(next_outbox_id).consistent(),
{
}

/// The tables after a history of changes.
pub open spec fn after_history(repo: RepoView, history: Seq<Change>) -> RepoView
    decreases history.len(),
{
    if history.len() == 0 {
        repo
    } else {
        after_change(after_history(repo, history.drop_last()), history.last())
    }
}

/// Whether each change of the history can come about when it does.
pub open spec fn possible(repo: RepoView, history: Seq<Change>) -> bool
    decreases history.len(),
{
    history.len() > 0 ==> {
        &&& possible(repo, history.drop_last())
        &&& may_happen(after_history(repo, history.drop_last()), history.last())
    }
}

/// Every state that an empty database can come to is consistent.
pub proof fn law_every_reachable_state_is_consistent(next_outbox_id: i64, history: Seq<Change>)
    requires
        possible(RepoView::empty(next_outbox_id), history),
    ensures
        after_history(RepoView::empty(next_outbox_id), history).consistent(),
    decreases history.len(),
{
    let start = RepoView::empty(next_outbox_id);
    law_empty_tables_are_consistent(next_outbox_id);
    if history.len() > 0 {
        law_every_reachable_state_is_consistent(next_outbox_id, history.drop_last());
        law_every_change_keeps_the_tables(
            after_history(start, history.drop_last()),
            history.last(),
        );
    }
}

} // verus!
