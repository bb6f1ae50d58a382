//! The two tables, as values: what they hold, and what each change makes of
//! them.

use vstd::prelude::*;
use crate::invoice::{CompletionView, InvoiceStatus, InvoiceView};
use crate::lhdn::models::optional_text;

verus! {

/// What an outbox event asks for.
#[derive(Debug, Clone, Copy, PartialEq, Eq, Structural)]
pub enum EventKind {
    /// Build, sign and deliver the document.
    Submit,
    /// Ask LHDN how validation stands.
    Poll,
    /// Cancel the document at LHDN.
    Cancel,
}

impl EventKind {
    pub open spec fn text(self) -> Seq<char> {
        match self {
            EventKind::Submit => "submit"@,
            EventKind::Poll => "poll"@,
            EventKind::Cancel => "cancel"@,
        }
    }

    /// The kind as the database writes it.
    pub fn as_str(self) -> (text: &'static str)
        ensures
            text@ == self.text(),
    {
        match self {
            EventKind::Submit => "submit",
            EventKind::Poll => "poll",
            EventKind::Cancel => "cancel",
        }
    }

    /// Reads a kind back from the text that `as_str` writes.
    pub fn from_text(text: &str) -> (kind: Option<EventKind>)
        ensures
            match kind {
                Some(k) => k.text() == text@,
                None => forall|k: EventKind| #[trigger] k.text() != text@,
            },
    {
        if *text == *"submit" {
            Some(EventKind::Submit)
        } else if *text == *"poll" {
            Some(EventKind::Poll)
        } else if *text == *"cancel" {
            Some(EventKind::Cancel)
        } else {
            None
        }
    }
}

/// A row of the `outbox_events` table.
#[derive(Debug)]
pub struct OutboxEvent {
    pub id: i64,
    pub invoice_id: String,
    pub kind: EventKind,
    pub available_at: i64,
    pub attempts: i64,
    pub last_error: Option<String>,
}

pub struct EventView {
    pub id: i64,
    pub invoice_id: Seq<char>,
    pub kind: EventKind,
    pub available_at: i64,
    pub attempts: i64,
    pub last_error: Option<Seq<char>>,
}

impl View for OutboxEvent {
    type V = EventView;

    open spec fn view(&self) -> EventView {
        EventView {
            id: self.id,
            invoice_id: self.invoice_id@,
            kind: self.kind,
            available_at: self.available_at,
            attempts: self.attempts,
            last_error: optional_text(self.last_error),
        }
    }
}

impl EventView {
    /// The event, moved to another time.
    pub open spec fn postponed(
        self,
        attempts: i64,
        available_at: i64,
        last_error: Option<Seq<char>>,
    ) -> EventView {
        EventView { attempts, available_at, last_error, ..self }
    }

    /// Whether the event is of this kind and its time has come.
    pub open spec fn is_due(self, kind: EventKind, now: i64) -> bool {
        self.kind == kind && self.available_at <= now
    }

    /// Whether the event is taken up before the other: by time, then by id.
    pub open spec fn before(self, other: EventView) -> bool {
        self.available_at < other.available_at || (self.available_at == other.available_at
            && self.id < other.id)
    }
}

#[derive(Debug)]
pub enum RepoError {
    /// The `invoice_ref` already exists.
    DuplicateRef,
    /// The database failed.
    Db(String),
}

impl RepoError {
    /// The error in words.
    pub fn message(&self) -> (text: String)
        ensures
            text@ == (match self {
                RepoError::DuplicateRef => "invoice_ref already exists"@,
                RepoError::Db(inner) => "database: "@ + inner@,
            }),
    {
        match self {
            RepoError::DuplicateRef => "invoice_ref already exists".to_owned(),
            RepoError::Db(inner) => "database: ".to_owned().concat(inner),
        }
    }
}

/// Why a cancellation cannot be asked for.
#[derive(Debug)]
pub enum CancelError {
    /// No invoice has that reference.
    NotFound,
    /// The invoice is in a state that cannot be cancelled.
    NotCancellable { state: String },
    /// LHDN's cancellation window has closed.
    PastWindow,
    /// A cancellation is already under way.
    AlreadyRequested,
    /// The database failed.
    Db(String),
}

pub enum CancelErrorView {
    NotFound,
    NotCancellable { state: Seq<char> },
    PastWindow,
    AlreadyRequested,
    Db(Seq<char>),
}

impl View for CancelError {
    type V = CancelErrorView;

    open spec fn view(&self) -> CancelErrorView {
        match self {
            CancelError::NotFound => CancelErrorView::NotFound,
            CancelError::NotCancellable { state } => CancelErrorView::NotCancellable {
                state: state@,
            },
            CancelError::PastWindow => CancelErrorView::PastWindow,
            CancelError::AlreadyRequested => CancelErrorView::AlreadyRequested,
            CancelError::Db(inner) => CancelErrorView::Db(inner@),
        }
    }
}

/// The two tables: invoices by id, outbox events by id, and the id that the
/// next event gets.
#[verifier::ext_equal]
pub struct RepoView {
    pub invoices: Map<Seq<char>, InvoiceView>,
    pub outbox: Map<i64, EventView>,
    pub next_outbox_id: i64,
}

impl RepoView {
    /// No rows, with the id that the first event will get.
    pub open spec fn empty(next_outbox_id: i64) -> RepoView {
        RepoView { invoices: Map::empty(), outbox: Map::empty(), next_outbox_id }
    }

    /// Whether each row stands under its own id, no reference belongs to two
    /// invoices, and new events get new ids.
    pub open spec fn keyed(self) -> bool {
        &&& forall|id: Seq<char>| #[trigger]
            self.invoices.contains_key(id) ==> self.invoices[id].id == id
        &&& forall|a: Seq<char>, b: Seq<char>| #[trigger]
            self.invoices.contains_key(a) && #[trigger] self.invoices.contains_key(b)
                && self.invoices[a].invoice_ref == self.invoices[b].invoice_ref ==> a == b
        &&& forall|e: i64| #[trigger]
            self.outbox.contains_key(e) ==> self.outbox[e].id == e && e < self.next_outbox_id
    }

    /// Whether some invoice has the reference.
    pub open spec fn has_ref(self, invoice_ref: Seq<char>) -> bool {
        exists|id: Seq<char>| #[trigger]
            self.invoices.contains_key(id) && self.invoices[id].invoice_ref == invoice_ref
    }

    /// The id of the invoice with the reference.
    pub open spec fn id_of_ref(self, invoice_ref: Seq<char>) -> Seq<char> {
        choose|id: Seq<char>| #[trigger]
            self.invoices.contains_key(id) && self.invoices[id].invoice_ref == invoice_ref
    }

    /// The invoice with the reference.
    pub open spec fn find(self, invoice_ref: Seq<char>) -> Option<InvoiceView> {
        if self.has_ref(invoice_ref) {
            Some(self.invoices[self.id_of_ref(invoice_ref)])
        } else {
            None
        }
    }

    /// The invoice under the id.
    pub open spec fn load(self, id: Seq<char>) -> Option<InvoiceView> {
        if self.invoices.contains_key(id) {
            Some(self.invoices[id])
        } else {
            None
        }
    }

    /// Whether a request to cancel the invoice waits in the outbox.
    pub open spec fn cancel_waits(self, id: Seq<char>) -> bool {
        exists|e: i64| #[trigger]
            self.outbox.contains_key(e) && self.outbox[e].invoice_id == id && self.outbox[e].kind
                == EventKind::Cancel
    }

    /// The tables with the invoice put in, in place of one with the same id.
    pub open spec fn with_invoice(self, invoice: InvoiceView) -> RepoView {
        RepoView { invoices: self.invoices.insert(invoice.id, invoice), ..self }
    }

    /// Whether a new invoice cannot have this id or this reference.
    pub open spec fn id_or_ref_taken(self, id: Seq<char>, invoice_ref: Seq<char>) -> bool {
        self.invoices.contains_key(id) || self.has_ref(invoice_ref)
    }

    /// Whether there is a number left for the event of an invoice that comes in;
    /// none is needed where the reference is taken.
    pub open spec fn has_room_for(self, invoice_ref: Seq<char>) -> bool {
        !self.has_ref(invoice_ref) ==> self.next_outbox_id < i64::MAX
    }

    /// The tables after an invoice came in: its row, and an event to submit it.
    pub open spec fn with_pending(
        self,
        id: Seq<char>,
        invoice_ref: Seq<char>,
        payload_json: Seq<char>,
        now: i64,
    ) -> RepoView {
        self.with_invoice(
            InvoiceView::pending(id, invoice_ref, payload_json, now),
        ).with_new_event(id, EventKind::Submit, now)
    }

    /// The tables with the invoice under the id changed; no change where there
    /// is none.
    pub open spec fn changed(
        self,
        id: Seq<char>,
        change: spec_fn(InvoiceView) -> InvoiceView,
    ) -> RepoView {
        if self.invoices.contains_key(id) {
            RepoView { invoices: self.invoices.insert(id, change(self.invoices[id])), ..self }
        } else {
            self
        }
    }

    /// The tables without the event.
    pub open spec fn without_event(self, outbox_id: i64) -> RepoView {
        RepoView { outbox: self.outbox.remove(outbox_id), ..self }
    }

    /// The tables with a new event that is due at once.
    pub open spec fn with_new_event(self, invoice_id: Seq<char>, kind: EventKind, now: i64) -> RepoView {
        let event = EventView {
            id: self.next_outbox_id,
            invoice_id,
            kind,
            available_at: now,
            attempts: 0,
            last_error: None,
        };
        RepoView {
            outbox: self.outbox.insert(self.next_outbox_id, event),
            next_outbox_id: (self.next_outbox_id + 1) as i64,
            ..self
        }
    }

    /// The tables with the event moved to another time; no change where there
    /// is none.
    pub open spec fn with_event_postponed(
        self,
        outbox_id: i64,
        attempts: i64,
        available_at: i64,
        last_error: Option<Seq<char>>,
    ) -> RepoView {
        if self.outbox.contains_key(outbox_id) {
            RepoView {
                outbox: self.outbox.insert(
                    outbox_id,
                    self.outbox[outbox_id].postponed(attempts, available_at, last_error),
                ),
                ..self
            }
        } else {
            self
        }
    }

    /// The tables after LHDN took the document in: the row is `Submitted`, and
    /// in place of the event that asked for the submission stands one that asks
    /// for the outcome.
    pub open spec fn after_submission(
        self,
        id: Seq<char>,
        outbox_id: i64,
        completion: CompletionView,
        now: i64,
    ) -> RepoView {
        let after = self.changed(
            id,
            |row: InvoiceView| row.submitted(completion, now),
        ).without_event(outbox_id);
        if self.invoices.contains_key(id) {
            after.with_new_event(id, EventKind::Poll, now)
        } else {
            after
        }
    }

    /// The tables after the delivery was given up.
    pub open spec fn after_failure(
        self,
        id: Seq<char>,
        outbox_id: i64,
        attempts: i64,
        error_json: Seq<char>,
        now: i64,
    ) -> RepoView {
        self.changed(id, |row: InvoiceView| row.failed(attempts, error_json, now)).without_event(
            outbox_id,
        )
    }

    /// The tables after the delivery was put off.
    pub open spec fn after_reschedule(
        self,
        id: Seq<char>,
        outbox_id: i64,
        attempts: i64,
        next_attempt_at: i64,
        error_json: Seq<char>,
        last_error: Seq<char>,
        now: i64,
    ) -> RepoView {
        self.changed(
            id,
            |row: InvoiceView| row.rescheduled(attempts, next_attempt_at, error_json, now),
        ).with_event_postponed(outbox_id, attempts, next_attempt_at, Some(last_error))
    }

    /// The tables after LHDN validated the document.
    pub open spec fn after_validation(
        self,
        id: Seq<char>,
        outbox_id: i64,
        long_id: Seq<char>,
        qr_url: Seq<char>,
        validated_at: i64,
        cancellable_until: i64,
        now: i64,
    ) -> RepoView {
        self.changed(
            id,
            |row: InvoiceView|
                row.validated(long_id, qr_url, validated_at, cancellable_until, now),
        ).without_event(outbox_id)
    }

    /// The tables after LHDN refused the document.
    pub open spec fn after_invalidation(
        self,
        id: Seq<char>,
        outbox_id: i64,
        error_json: Seq<char>,
        now: i64,
    ) -> RepoView {
        self.changed(id, |row: InvoiceView| row.invalidated(error_json, now)).without_event(
            outbox_id,
        )
    }

    /// The tables after the document was cancelled at LHDN.
    pub open spec fn after_cancellation(
        self,
        id: Seq<char>,
        outbox_id: i64,
        cancelled_at: i64,
        now: i64,
    ) -> RepoView {
        self.changed(id, |row: InvoiceView| row.cancelled(cancelled_at, now)).without_event(
            outbox_id,
        )
    }

    /// The tables after an error that ends the event and leaves the status.
    pub open spec fn after_note(
        self,
        id: Seq<char>,
        outbox_id: i64,
        error_json: Seq<char>,
        now: i64,
    ) -> RepoView {
        self.changed(id, |row: InvoiceView| row.noted(error_json, now)).without_event(outbox_id)
    }

    /// Why the invoice with the reference cannot be cancelled now, if it cannot.
    pub open spec fn cancel_refusal(self, invoice_ref: Seq<char>, now: i64) -> Option<
        CancelErrorView,
    > {
        match self.find(invoice_ref) {
            None => Some(CancelErrorView::NotFound),
            Some(row) => if row.lhdn_status != InvoiceStatus::Valid {
                Some(CancelErrorView::NotCancellable { state: row.lhdn_status.text() })
            } else if !row.window_open(now) {
                Some(CancelErrorView::PastWindow)
            } else if self.cancel_waits(row.id) {
                Some(CancelErrorView::AlreadyRequested)
            } else {
                None
            },
        }
    }

    /// The tables after a cancellation was asked for.
    pub open spec fn after_cancel_request(
        self,
        invoice_ref: Seq<char>,
        reason: Seq<char>,
        now: i64,
    ) -> RepoView {
        let id = self.id_of_ref(invoice_ref);
        self.changed(id, |row: InvoiceView| row.cancel_requested(reason, now)).with_new_event(
            id,
            EventKind::Cancel,
            now,
        )
    }
}

/// The text in an optional string slice.
pub open spec fn slice_text(text: Option<&str>) -> Option<Seq<char>> {
    match text {
        Some(s) => Some(s@),
        None => None,
    }
}

} // verus!
