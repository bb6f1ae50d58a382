//! Repository for the invoice lifecycle: the `invoices` and `outbox_events`
//! tables and every change that is made to them.
//!
//! An [`InvoiceRepo`] holds the rows of the two tables that a piece of work
//! touches. The caller reads them inside a transaction, makes one call, and
//! writes back what changed.

pub mod due;
pub mod tables;

use vstd::prelude::*;
use crate::clock::{is_instant, unix_now};
use crate::invoice::{copied, InvoiceRecord, InvoiceStatus, InvoiceView};
use crate::laws::requests::cancel_event_waits;
use crate::lhdn::models::optional_text;
use crate::table::{
    distinct_keys, has_key, index_of, lemma_table_push, lemma_table_remove, lemma_table_row,
    lemma_table_update, table,
};

pub use crate::invoice::{InvoiceRow, SubmissionCompletion};
pub use due::{DueCancelEvent, DuePollEvent, DueSubmitEvent};
pub use tables::{
    slice_text, CancelError, CancelErrorView, EventKind, EventView, OutboxEvent, RepoError,
    RepoView,
};

verus! {

/// The text of a version 7 UUID in lower case: 32 hexadecimal digits in five
/// groups.
pub open spec fn is_uuid_v7(text: Seq<char>) -> bool {
    &&& text.len() == 36
    &&& forall|i: int|
        0 <= i < 36 ==> if i == 8 || i == 13 || i == 18 || i == 23 {
            #[trigger] text[i] == '-'
        } else {
            '0' <= text[i] <= '9' || 'a' <= text[i] <= 'f'
        }
    &&& text[14] == '7'
    &&& text[19] == '8' || text[19] == '9' || text[19] == 'a' || text[19] == 'b'
}

/// `uuid::Uuid::now_v7`, as text: which one comes is not known beforehand.
#[verifier::external_body]
pub(crate) fn new_invoice_id() -> (id: String)
    ensures
        is_uuid_v7(id@),
{
    uuid::Uuid::now_v7().to_string()
}

/// What putting in a fresh invoice does: a row and an event where neither id nor
/// reference is taken, otherwise nothing.
pub open spec fn created(
    before: RepoView,
    after: RepoView,
    row: Result<InvoiceRow, RepoError>,
    id: Seq<char>,
    invoice_ref: Seq<char>,
    payload_json: Seq<char>,
    now: i64,
) -> bool {
    match row {
        Ok(r) => {
            &&& !before.id_or_ref_taken(id, invoice_ref)
            &&& r@ == InvoiceView::pending(id, invoice_ref, payload_json, now).row()
            &&& after == before.with_pending(id, invoice_ref, payload_json, now)
        },
        Err(e) => {
            &&& before.id_or_ref_taken(id, invoice_ref)
            &&& e is DuplicateRef
            &&& after == before
        },
    }
}

/// The rows at hand.
#[derive(Debug)]
pub struct InvoiceRepo {
    invoices: Vec<InvoiceRecord>,
    outbox: Vec<OutboxEvent>,
    next_outbox_id: i64,
}

spec fn id_key() -> spec_fn(InvoiceRecord) -> Seq<char> {
    |row: InvoiceRecord| row.id@
}

spec fn ref_key() -> spec_fn(InvoiceRecord) -> Seq<char> {
    |row: InvoiceRecord| row.invoice_ref@
}

spec fn invoice_content() -> spec_fn(InvoiceRecord) -> InvoiceView {
    |row: InvoiceRecord| row@
}

spec fn event_key() -> spec_fn(OutboxEvent) -> i64 {
    |event: OutboxEvent| event.id
}

spec fn event_content() -> spec_fn(OutboxEvent) -> EventView {
    |event: OutboxEvent| event@
}

impl View for InvoiceRepo {
    type V = RepoView;

    closed spec fn view(&self) -> RepoView {
        RepoView {
            invoices: table(self.invoices@, id_key(), invoice_content()),
            outbox: table(self.outbox@, event_key(), event_content()),
            next_outbox_id: self.next_outbox_id,
        }
    }
}

impl InvoiceRepo {
    /// Whether ids and references are unique, and new events get new ids.
    pub closed spec fn wf(&self) -> bool {
        &&& distinct_keys(self.invoices@, id_key())
        &&& distinct_keys(self.invoices@, ref_key())
        &&& distinct_keys(self.outbox@, event_key())
        &&& forall|i: int|
            0 <= i < self.outbox@.len() ==> (#[trigger] self.outbox@[i]).id < self.next_outbox_id
    }

    /// What well-formedness says of the two tables.
    pub proof fn lemma_keyed(&self)
        requires
            self.wf(),
        ensures
            self@.keyed(),
    {
        let view = self@;
        assert forall|id: Seq<char>| #[trigger]
            view.invoices.contains_key(id) implies view.invoices[id].id == id by {
            lemma_table_row(
                self.invoices@,
                id_key(),
                invoice_content(),
                index_of(self.invoices@, id_key(), id),
            );
        }
        assert forall|a: Seq<char>, b: Seq<char>| #[trigger]
            view.invoices.contains_key(a) && #[trigger] view.invoices.contains_key(b)
                && view.invoices[a].invoice_ref == view.invoices[b].invoice_ref implies a == b by {
            let i = index_of(self.invoices@, id_key(), a);
            let j = index_of(self.invoices@, id_key(), b);
            lemma_table_row(self.invoices@, id_key(), invoice_content(), i);
            lemma_table_row(self.invoices@, id_key(), invoice_content(), j);
            assert(ref_key()(self.invoices@[i]) == ref_key()(self.invoices@[j]));
            assert(i == j);
        }
        assert forall|e: i64| #[trigger] view.outbox.contains_key(e) implies view.outbox[e].id == e
            && e < view.next_outbox_id by {
            lemma_table_row(
                self.outbox@,
                event_key(),
                event_content(),
                index_of(self.outbox@, event_key(), e),
            );
        }
    }

    /// No rows yet. `next_outbox_id` is the id that the next event gets.
    pub fn new(next_outbox_id: i64) -> (repo: Self)
        ensures
            repo.wf(),
            repo@ == RepoView::empty(next_outbox_id),
    {
        let repo = InvoiceRepo { invoices: Vec::new(), outbox: Vec::new(), next_outbox_id };
        assert(repo@ =~= RepoView::empty(next_outbox_id));
        repo
    }

    fn invoice_position(&self, id: &str) -> (index: Option<usize>)
        requires
            self.wf(),
        ensures
            match index {
                Some(i) => i < self.invoices@.len() && self.invoices@[i as int].id@ == id@
                    && self@.invoices.contains_key(id@) && self@.invoices[id@]
                    == self.invoices@[i as int]@,
                None => !self@.invoices.contains_key(id@) && !has_key(
                    self.invoices@,
                    id_key(),
                    id@,
                ),
            },
    {
        let mut i: usize = 0;
        while i < self.invoices.len()
            invariant
                self.wf(),
                i <= self.invoices@.len(),
                forall|k: int| 0 <= k < i ==> (#[trigger] self.invoices@[k]).id@ != id@,
            decreases self.invoices@.len() - i,
        {
            if *self.invoices[i].id.as_str() == *id {
                proof {
                    lemma_table_row(self.invoices@, id_key(), invoice_content(), i as int);
                }
                return Some(i);
            }
            i = i + 1;
        }
        None
    }

    fn ref_position(&self, invoice_ref: &str) -> (index: Option<usize>)
        requires
            self.wf(),
        ensures
            match index {
                Some(i) => i < self.invoices@.len() && self.invoices@[i as int].invoice_ref@
                    == invoice_ref@ && self@.find(invoice_ref@) == Some(self.invoices@[i as int]@)
                    && self@.has_ref(invoice_ref@) && self@.id_of_ref(invoice_ref@)
                    == self.invoices@[i as int].id@ && self@.load(self.invoices@[i as int].id@)
                    == Some(self.invoices@[i as int]@),
                None => !self@.has_ref(invoice_ref@) && !has_key(
                    self.invoices@,
                    ref_key(),
                    invoice_ref@,
                ),
            },
    {
        let mut i: usize = 0;
        while i < self.invoices.len()
            invariant
                self.wf(),
                i <= self.invoices@.len(),
                forall|k: int|
                    0 <= k < i ==> (#[trigger] self.invoices@[k]).invoice_ref@ != invoice_ref@,
            decreases self.invoices@.len() - i,
        {
            if *self.invoices[i].invoice_ref.as_str() == *invoice_ref {
                proof {
                    lemma_table_row(self.invoices@, id_key(), invoice_content(), i as int);
                    self.lemma_keyed();
                    let id = self.invoices@[i as int].id@;
                    assert(self@.invoices.contains_key(id) && self@.invoices[id].invoice_ref
                        == invoice_ref@);
                    assert(self@.id_of_ref(invoice_ref@) == id);
                }
                return Some(i);
            }
            i = i + 1;
        }
        proof {
            assert forall|id: Seq<char>| #[trigger]
                self@.invoices.contains_key(id) implies self@.invoices[id].invoice_ref
                != invoice_ref@ by {
                lemma_table_row(
                    self.invoices@,
                    id_key(),
                    invoice_content(),
                    index_of(self.invoices@, id_key(), id),
                );
            }
        }
        None
    }

    fn event_position(&self, outbox_id: i64) -> (index: Option<usize>)
        requires
            self.wf(),
        ensures
            match index {
                Some(i) => i < self.outbox@.len() && self.outbox@[i as int].id == outbox_id
                    && self@.outbox.contains_key(outbox_id) && self@.outbox[outbox_id]
                    == self.outbox@[i as int]@,
                None => !self@.outbox.contains_key(outbox_id),
            },
    {
        let mut i: usize = 0;
        while i < self.outbox.len()
            invariant
                self.wf(),
                i <= self.outbox@.len(),
                forall|k: int| 0 <= k < i ==> (#[trigger] self.outbox@[k]).id != outbox_id,
            decreases self.outbox@.len() - i,
        {
            if self.outbox[i].id == outbox_id {
                proof {
                    lemma_table_row(self.outbox@, event_key(), event_content(), i as int);
                }
                return Some(i);
            }
            i = i + 1;
        }
        None
    }

    /// The invoice under the id.
    pub fn invoice(&self, id: &str) -> (row: Option<&InvoiceRecord>)
        requires
            self.wf(),
        ensures
            match row {
                Some(r) => self@.load(id@) == Some(r@),
                None => self@.load(id@) is None,
            },
    {
        match self.invoice_position(id) {
            Some(i) => Some(&self.invoices[i]),
            None => None,
        }
    }

    /// The outbox events.
    pub fn events(&self) -> (events: &Vec<OutboxEvent>)
        requires
            self.wf(),
        ensures
            forall|i: int|
                0 <= i < events@.len() ==> self@.outbox.contains_key((#[trigger] events@[i]).id)
                    && self@.outbox[events@[i].id] == events@[i]@,
            forall|e: i64| #[trigger]
                self@.outbox.contains_key(e) ==> exists|i: int|
                    0 <= i < events@.len() && (#[trigger] events@[i]).id == e,
    {
        proof {
            assert forall|i: int| 0 <= i < self.outbox@.len() implies self@.outbox.contains_key(
                (#[trigger] self.outbox@[i]).id,
            ) && self@.outbox[self.outbox@[i].id] == self.outbox@[i]@ by {
                lemma_table_row(self.outbox@, event_key(), event_content(), i);
            }
            assert forall|e: i64| #[trigger] self@.outbox.contains_key(e) implies exists|i: int|
                0 <= i < self.outbox@.len() && (#[trigger] self.outbox@[i]).id == e by {
                let i = index_of(self.outbox@, event_key(), e);
                assert(self.outbox@[i].id == e);
            }
        }
        &self.outbox
    }

    /// Takes an invoice in that the database holds. Refused, with no change,
    /// where its id or its reference is already here.
    pub fn insert_invoice(&mut self, row: InvoiceRecord) -> (taken: bool)
        requires
            old(self).wf(),
        ensures
            final(self).wf(),
            taken == (old(self)@.load(row@.id) is None && !old(self)@.has_ref(row@.invoice_ref)),
            final(self)@ == (if taken {
                old(self)@.with_invoice(row@)
            } else {
                old(self)@
            }),
    {
        if self.invoice_position(&row.id).is_some() {
            return false;
        }
        if self.ref_position(&row.invoice_ref).is_some() {
            return false;
        }
        proof {
            lemma_table_push(self.invoices@, id_key(), invoice_content(), row);
            lemma_table_push(self.invoices@, ref_key(), invoice_content(), row);
        }
        self.invoices.push(row);
        true
    }

    /// Takes an event in that the database holds. Refused, with no change, where
    /// its id is already here or has not been given out yet.
    pub fn insert_event(&mut self, event: OutboxEvent) -> (taken: bool)
        requires
            old(self).wf(),
        ensures
            final(self).wf(),
            taken == (event.id < old(self)@.next_outbox_id && !old(self)@.outbox.contains_key(
                event.id,
            )),
            final(self)@ == (if taken {
                (RepoView { outbox: old(self)@.outbox.insert(event.id, event@), ..old(self)@ })
            } else {
                old(self)@
            }),
    {
        if event.id >= self.next_outbox_id {
            return false;
        }
        if self.event_position(event.id).is_some() {
            return false;
        }
        proof {
            lemma_table_push(self.outbox@, event_key(), event_content(), event);
        }
        self.outbox.push(event);
        true
    }

    proof fn lemma_changed(
        before: InvoiceRepo,
        after: InvoiceRepo,
        i: int,
        change: spec_fn(InvoiceView) -> InvoiceView,
    )
        requires
            before.wf(),
            0 <= i < before.invoices@.len(),
            after.invoices@ == before.invoices@.update(i, after.invoices@[i]),
            after.invoices@[i]@ == change(before.invoices@[i]@),
            after.invoices@[i].id@ == before.invoices@[i].id@,
            after.invoices@[i].invoice_ref@ == before.invoices@[i].invoice_ref@,
            after.outbox@ == before.outbox@,
            after.next_outbox_id == before.next_outbox_id,
        ensures
            after.wf(),
            after@ == before@.changed(before.invoices@[i].id@, change),
    {
        let row = after.invoices@[i];
        lemma_table_row(before.invoices@, id_key(), invoice_content(), i);
        lemma_table_update(before.invoices@, id_key(), invoice_content(), i, row);
        lemma_table_update(before.invoices@, ref_key(), invoice_content(), i, row);
    }

    fn drop_event(&mut self, outbox_id: i64)
        requires
            old(self).wf(),
        ensures
            final(self).wf(),
            final(self)@ == old(self)@.without_event(outbox_id),
    {
        match self.event_position(outbox_id) {
            Some(i) => {
                proof {
                    lemma_table_remove(self.outbox@, event_key(), event_content(), i as int);
                }
                self.outbox.remove(i);
            },
            None => {
                assert(self@.outbox.remove(outbox_id) =~= self@.outbox);
            },
        }
    }

    fn enqueue(&mut self, invoice_id: &str, kind: EventKind, now: i64)
        requires
            old(self).wf(),
            old(self)@.next_outbox_id < i64::MAX,
        ensures
            final(self).wf(),
            final(self)@ == old(self)@.with_new_event(invoice_id@, kind, now),
    {
        let event = OutboxEvent {
            id: self.next_outbox_id,
            invoice_id: invoice_id.to_owned(),
            kind,
            available_at: now,
            attempts: 0,
            last_error: None,
        };
        proof {
            lemma_table_push(self.outbox@, event_key(), event_content(), event);
        }
        self.outbox.push(event);
        self.next_outbox_id = self.next_outbox_id + 1;
    }

    fn postpone(
        &mut self,
        outbox_id: i64,
        attempts: i64,
        available_at: i64,
        last_error: Option<&str>,
    )
        requires
            old(self).wf(),
        ensures
            final(self).wf(),
            final(self)@ == old(self)@.with_event_postponed(
                outbox_id,
                attempts,
                available_at,
                slice_text(last_error),
            ),
    {
        if let Some(i) = self.event_position(outbox_id) {
            let old_event = &self.outbox[i];
            let event = OutboxEvent {
                id: old_event.id,
                invoice_id: old_event.invoice_id.clone(),
                kind: old_event.kind,
                available_at,
                attempts,
                last_error: match last_error {
                    Some(text) => Some(text.to_owned()),
                    None => None,
                },
            };
            proof {
                lemma_table_update(self.outbox@, event_key(), event_content(), i as int, event);
            }
            self.outbox.set(i, event);
        }
    }

    /// Inserts a fresh `Pending` invoice and enqueues a `submit` event with it.
    /// Gives the inserted row, or `DuplicateRef` where the reference or the id
    /// is taken; then nothing changes.
    pub fn create_pending_at(
        &mut self,
        id: &str,
        invoice_ref: &str,
        payload_json: &str,
        now: i64,
    ) -> (row: Result<InvoiceRow, RepoError>)
        requires
            old(self).wf(),
            old(self)@.has_room_for(invoice_ref@),
        ensures
            final(self).wf(),
            created(old(self)@, final(self)@, row, id@, invoice_ref@, payload_json@, now),
    {
        let record = InvoiceRecord::pending(id, invoice_ref, payload_json, now);
        let row = record.row();
        if !self.insert_invoice(record) {
            return Err(RepoError::DuplicateRef);
        }
        self.enqueue(id, EventKind::Submit, now);
        Ok(row)
    }

    /// Inserts a fresh `Pending` invoice under a new id, now.
    pub fn create_pending(&mut self, invoice_ref: &str, payload_json: &str) -> (row: Result<
        InvoiceRow,
        RepoError,
    >)
        requires
            old(self).wf(),
            old(self)@.has_room_for(invoice_ref@),
        ensures
            final(self).wf(),
            exists|id: Seq<char>, now: i64|
                is_uuid_v7(id) && is_instant(now as int) && #[trigger] created(
                    old(self)@,
                    final(self)@,
                    row,
                    id,
                    invoice_ref@,
                    payload_json@,
                    now,
                ),
    {
        let id = new_invoice_id();
        let now: i64 = unix_now();
        self.create_pending_at(&id, invoice_ref, payload_json, now)
    }

    /// What the API shows of the invoice with the reference.
    pub fn find_by_ref(&self, invoice_ref: &str) -> (row: Option<InvoiceRow>)
        requires
            self.wf(),
        ensures
            match row {
                Some(r) => self@.find(invoice_ref@) matches Some(invoice) && r@ == invoice.row(),
                None => self@.find(invoice_ref@) is None,
            },
    {
        match self.ref_position(invoice_ref) {
            Some(i) => Some(self.invoices[i].row()),
            None => None,
        }
    }

    /// Loads the fields that the submitter needs.
    pub fn load_for_submit(&self, id: &str) -> (part: Option<InvoiceForSubmit>)
        requires
            self.wf(),
        ensures
            match part {
                Some(p) => self@.load(id@) matches Some(row) && p.is_part_of(row),
                None => self@.load(id@) is None,
            },
    {
        match self.invoice_position(id) {
            Some(i) => {
                let row = &self.invoices[i];
                Some(
                    InvoiceForSubmit {
                        id: row.id.clone(),
                        invoice_ref: row.invoice_ref.clone(),
                        payload_json: row.payload_json.clone(),
                        attempts: row.attempts,
                    },
                )
            },
            None => None,
        }
    }

    /// Loads the fields that the poller needs.
    pub fn load_for_poll(&self, id: &str) -> (part: Option<InvoiceForPoll>)
        requires
            self.wf(),
        ensures
            match part {
                Some(p) => self@.load(id@) matches Some(row) && p.is_part_of(row),
                None => self@.load(id@) is None,
            },
    {
        match self.invoice_position(id) {
            Some(i) => {
                let row = &self.invoices[i];
                Some(
                    InvoiceForPoll {
                        id: row.id.clone(),
                        invoice_ref: row.invoice_ref.clone(),
                        lhdn_uuid: copied(&row.lhdn_uuid),
                    },
                )
            },
            None => None,
        }
    }

    /// Loads the fields that the canceller needs.
    pub fn load_for_cancel(&self, id: &str) -> (part: Option<InvoiceForCancel>)
        requires
            self.wf(),
        ensures
            match part {
                Some(p) => self@.load(id@) matches Some(row) && p.is_part_of(row),
                None => self@.load(id@) is None,
            },
    {
        match self.invoice_position(id) {
            Some(i) => {
                let row = &self.invoices[i];
                Some(
                    InvoiceForCancel {
                        id: row.id.clone(),
                        invoice_ref: row.invoice_ref.clone(),
                        lhdn_uuid: copied(&row.lhdn_uuid),
                        cancellation_reason: copied(&row.cancellation_reason),
                        cancellable_until: row.cancellable_until,
                    },
                )
            },
            None => None,
        }
    }

    /// Marks the invoice as `Submitted`, keeps the signed document, its
    /// signature and its digest, and puts a `poll` event in the place of the
    /// `submit` event. Where the invoice is gone, only the event goes.
    pub fn complete_submission_at(
        &mut self,
        invoice_id: &str,
        outbox_id: i64,
        completion: SubmissionCompletion<'_>,
        now: i64,
    )
        requires
            old(self).wf(),
            old(self)@.next_outbox_id < i64::MAX,
        ensures
            final(self).wf(),
            final(self)@ == old(self)@.after_submission(invoice_id@, outbox_id, completion@, now),
    {
        let ghost before = *self;
        match self.invoice_position(invoice_id) {
            Some(i) => {
                self.invoices[i].mark_submitted(completion, now);
                proof {
                    Self::lemma_changed(
                        before,
                        *self,
                        i as int,
                        |row: InvoiceView| row.submitted(completion@, now),
                    );
                }
                self.drop_event(outbox_id);
                self.enqueue(invoice_id, EventKind::Poll, now);
            },
            None => {
                self.drop_event(outbox_id);
            },
        }
    }

    /// Marks the invoice as `Submitted` now.
    pub fn complete_submission(
        &mut self,
        invoice_id: &str,
        outbox_id: i64,
        completion: SubmissionCompletion<'_>,
    )
        requires
            old(self).wf(),
            old(self)@.next_outbox_id < i64::MAX,
        ensures
            final(self).wf(),
            exists|now: i64|
                is_instant(now as int) && final(self)@ == #[trigger] old(self)@.after_submission(
                    invoice_id@,
                    outbox_id,
                    completion@,
                    now,
                ),
    {
        let now: i64 = unix_now();
        self.complete_submission_at(invoice_id, outbox_id, completion, now);
    }

    /// Marks the invoice as `Failed`, with the final count of attempts and the
    /// error, and removes the event. The caller gives `attempts`: the invoice's
    /// own where the failure lies before LHDN (local validation), one more where
    /// LHDN itself refused.
    pub fn fail_permanently_at(
        &mut self,
        invoice_id: &str,
        outbox_id: i64,
        attempts: i64,
        error_json: &str,
        now: i64,
    )
        requires
            old(self).wf(),
        ensures
            final(self).wf(),
            final(self)@ == old(self)@.after_failure(
                invoice_id@,
                outbox_id,
                attempts,
                error_json@,
                now,
            ),
    {
        let ghost before = *self;
        if let Some(i) = self.invoice_position(invoice_id) {
            self.invoices[i].mark_failed(attempts, error_json, now);
            proof {
                Self::lemma_changed(
                    before,
                    *self,
                    i as int,
                    |row: InvoiceView| row.failed(attempts, error_json@, now),
                );
            }
        }
        self.drop_event(outbox_id);
    }

    /// Marks the invoice as `Failed` now.
    pub fn fail_permanently(
        &mut self,
        invoice_id: &str,
        outbox_id: i64,
        attempts: i64,
        error_json: &str,
    )
        requires
            old(self).wf(),
        ensures
            final(self).wf(),
            exists|now: i64|
                is_instant(now as int) && final(self)@ == #[trigger] old(self)@.after_failure(
                    invoice_id@,
                    outbox_id,
                    attempts,
                    error_json@,
                    now,
                ),
    {
        let now: i64 = unix_now();
        self.fail_permanently_at(invoice_id, outbox_id, attempts, error_json, now);
    }

    /// Puts a delivery off after a transient failure: counts the attempt, moves
    /// the invoice's next attempt and the event, and keeps the latest error.
    ///
    /// `error_json` is the structured body that lands on the invoice, of the
    /// shape that `fail_permanently` uses. `last_error` is a short text for
    /// people, kept with the event.
    pub fn reschedule_at(
        &mut self,
        invoice_id: &str,
        outbox_id: i64,
        new_attempts: i64,
        next_attempt_at: i64,
        error_json: &str,
        last_error: &str,
        now: i64,
    )
        requires
            old(self).wf(),
        ensures
            final(self).wf(),
            final(self)@ == old(self)@.after_reschedule(
                invoice_id@,
                outbox_id,
                new_attempts,
                next_attempt_at,
                error_json@,
                last_error@,
                now,
            ),
    {
        let ghost before = *self;
        if let Some(i) = self.invoice_position(invoice_id) {
            self.invoices[i].mark_rescheduled(new_attempts, next_attempt_at, error_json, now);
            proof {
                Self::lemma_changed(
                    before,
                    *self,
                    i as int,
                    |row: InvoiceView|
                        row.rescheduled(new_attempts, next_attempt_at, error_json@, now),
                );
            }
        }
        self.postpone(outbox_id, new_attempts, next_attempt_at, Some(last_error));
    }

    /// Puts a delivery off, now.
    pub fn reschedule(
        &mut self,
        invoice_id: &str,
        outbox_id: i64,
        new_attempts: i64,
        next_attempt_at: i64,
        error_json: &str,
        last_error: &str,
    )
        requires
            old(self).wf(),
        ensures
            final(self).wf(),
            exists|now: i64|
                is_instant(now as int) && final(self)@ == #[trigger] old(self)@.after_reschedule(
                    invoice_id@,
                    outbox_id,
                    new_attempts,
                    next_attempt_at,
                    error_json@,
                    last_error@,
                    now,
                ),
    {
        let now: i64 = unix_now();
        self.reschedule_at(
            invoice_id,
            outbox_id,
            new_attempts,
            next_attempt_at,
            error_json,
            last_error,
            now,
        );
    }

    /// Marks the invoice as `Valid`, with what LHDN gave it, and removes the
    /// event.
    pub fn mark_valid(
        &mut self,
        invoice_id: &str,
        outbox_id: i64,
        long_id: &str,
        qr_url: &str,
        validated_at: i64,
        cancellable_until: i64,
        now: i64,
    )
        requires
            old(self).wf(),
        ensures
            final(self).wf(),
            final(self)@ == old(self)@.after_validation(
                invoice_id@,
                outbox_id,
                long_id@,
                qr_url@,
                validated_at,
                cancellable_until,
                now,
            ),
    {
        let ghost before = *self;
        if let Some(i) = self.invoice_position(invoice_id) {
            self.invoices[i].mark_validated(long_id, qr_url, validated_at, cancellable_until, now);
            proof {
                Self::lemma_changed(
                    before,
                    *self,
                    i as int,
                    |row: InvoiceView|
                        row.validated(long_id@, qr_url@, validated_at, cancellable_until, now),
                );
            }
        }
        self.drop_event(outbox_id);
    }

    /// Marks the invoice as `Invalid`, with the reason, and removes the event.
    pub fn mark_invalid(&mut self, invoice_id: &str, outbox_id: i64, error_json: &str, now: i64)
        requires
            old(self).wf(),
        ensures
            final(self).wf(),
            final(self)@ == old(self)@.after_invalidation(
                invoice_id@,
                outbox_id,
                error_json@,
                now,
            ),
    {
        let ghost before = *self;
        if let Some(i) = self.invoice_position(invoice_id) {
            self.invoices[i].mark_invalidated(error_json, now);
            proof {
                Self::lemma_changed(
                    before,
                    *self,
                    i as int,
                    |row: InvoiceView| row.invalidated(error_json@, now),
                );
            }
        }
        self.drop_event(outbox_id);
    }

    /// Marks the invoice as `Cancelled`, as LHDN reported it, and removes the
    /// event.
    pub fn mark_cancelled_via_poll(
        &mut self,
        invoice_id: &str,
        outbox_id: i64,
        cancelled_at: i64,
        now: i64,
    )
        requires
            old(self).wf(),
        ensures
            final(self).wf(),
            final(self)@ == old(self)@.after_cancellation(
                invoice_id@,
                outbox_id,
                cancelled_at,
                now,
            ),
    {
        let ghost before = *self;
        if let Some(i) = self.invoice_position(invoice_id) {
            self.invoices[i].mark_cancelled(cancelled_at, now);
            proof {
                Self::lemma_changed(
                    before,
                    *self,
                    i as int,
                    |row: InvoiceView| row.cancelled(cancelled_at, now),
                );
            }
        }
        self.drop_event(outbox_id);
    }

    /// Marks the invoice as `Cancelled`, as this bridge brought about, and
    /// removes the event.
    pub fn complete_cancel(&mut self, invoice_id: &str, outbox_id: i64, now: i64)
        requires
            old(self).wf(),
        ensures
            final(self).wf(),
            final(self)@ == old(self)@.after_cancellation(invoice_id@, outbox_id, now, now),
    {
        self.mark_cancelled_via_poll(invoice_id, outbox_id, now, now);
    }

    /// Gives up polling: keeps the error, leaves the status, removes the event.
    pub fn fail_poll(&mut self, invoice_id: &str, outbox_id: i64, error_json: &str, now: i64)
        requires
            old(self).wf(),
        ensures
            final(self).wf(),
            final(self)@ == old(self)@.after_note(invoice_id@, outbox_id, error_json@, now),
    {
        let ghost before = *self;
        if let Some(i) = self.invoice_position(invoice_id) {
            self.invoices[i].note_error(error_json, now);
            proof {
                Self::lemma_changed(
                    before,
                    *self,
                    i as int,
                    |row: InvoiceView| row.noted(error_json@, now),
                );
            }
        }
        self.drop_event(outbox_id);
    }

    /// Gives up cancelling: keeps the error, leaves the status, removes the
    /// event.
    pub fn fail_cancel(&mut self, invoice_id: &str, outbox_id: i64, error_json: &str, now: i64)
        requires
            old(self).wf(),
        ensures
            final(self).wf(),
            final(self)@ == old(self)@.after_note(invoice_id@, outbox_id, error_json@, now),
    {
        self.fail_poll(invoice_id, outbox_id, error_json, now);
    }

    /// Puts a poll off.
    pub fn reschedule_poll(
        &mut self,
        outbox_id: i64,
        attempts: i64,
        available_at: i64,
        last_error: Option<&str>,
    )
        requires
            old(self).wf(),
        ensures
            final(self).wf(),
            final(self)@ == old(self)@.with_event_postponed(
                outbox_id,
                attempts,
                available_at,
                slice_text(last_error),
            ),
    {
        self.postpone(outbox_id, attempts, available_at, last_error);
    }

    /// Puts a cancellation off.
    pub fn reschedule_cancel(
        &mut self,
        outbox_id: i64,
        attempts: i64,
        available_at: i64,
        last_error: &str,
    )
        requires
            old(self).wf(),
        ensures
            final(self).wf(),
            final(self)@ == old(self)@.with_event_postponed(
                outbox_id,
                attempts,
                available_at,
                Some(last_error@),
            ),
    {
        self.postpone(outbox_id, attempts, available_at, Some(last_error));
    }

    fn cancel_is_waiting(&self, invoice_id: &str) -> (waits: bool)
        requires
            self.wf(),
        ensures
            waits == self@.cancel_waits(invoice_id@),
    {
        let mut i: usize = 0;
        while i < self.outbox.len()
            invariant
                self.wf(),
                i <= self.outbox@.len(),
                forall|k: int|
                    0 <= k < i ==> !((#[trigger] self.outbox@[k]).invoice_id@ == invoice_id@
                        && self.outbox@[k].kind == EventKind::Cancel),
            decreases self.outbox@.len() - i,
        {
            if self.outbox[i].kind == EventKind::Cancel && *self.outbox[i].invoice_id.as_str()
                == *invoice_id {
                proof {
                    lemma_table_row(self.outbox@, event_key(), event_content(), i as int);
                    assert(self@.outbox.contains_key(self.outbox@[i as int].id));
                }
                return true;
            }
            i = i + 1;
        }
        proof {
            assert forall|e: i64| #[trigger] self@.outbox.contains_key(e) implies !(
            self@.outbox[e].invoice_id == invoice_id@ && self@.outbox[e].kind
                == EventKind::Cancel) by {
                lemma_table_row(
                    self.outbox@,
                    event_key(),
                    event_content(),
                    index_of(self.outbox@, event_key(), e),
                );
            }
        }
        false
    }

    /// Asks for the cancellation of a `Valid` invoice whose window is open:
    /// keeps the reason and enqueues a `cancel` event. Gives the row as it then
    /// stands; refused, with no change, where it cannot be cancelled.
    pub fn request_cancellation(&mut self, invoice_ref: &str, reason: &str, now: i64) -> (row:
        Result<InvoiceRow, CancelError>)
        requires
            old(self).wf(),
            old(self)@.next_outbox_id < i64::MAX,
        ensures
            final(self).wf(),
            match row {
                Ok(r) => {
                    &&& old(self)@.cancel_refusal(invoice_ref@, now) is None
                    &&& final(self)@ == old(self)@.after_cancel_request(
                        invoice_ref@,
                        reason@,
                        now,
                    )
                    &&& r@ == final(self)@.invoices[old(self)@.id_of_ref(invoice_ref@)].row()
                },
                Err(e) => {
                    &&& old(self)@.cancel_refusal(invoice_ref@, now) == Some(e@)
                    &&& final(self)@ == old(self)@
                },
            },
            old(self)@.find(invoice_ref@) matches Some(invoice) ==> invoice.lhdn_status
                == InvoiceStatus::Valid ==> {
                let open = invoice.cancellable_until matches Some(deadline) && now < deadline;
                &&& (row matches Err(e) && e is PastWindow) <==> !open
                &&& row is Ok <==> open && !cancel_event_waits(old(self)@, invoice.id)
            },
    {
        let i: usize = match self.ref_position(invoice_ref) {
            Some(i) => i,
            None => {
                return Err(CancelError::NotFound);
            },
        };
        let id = self.invoices[i].id.clone();
        let status = self.invoices[i].lhdn_status;
        if status != InvoiceStatus::Valid {
            return Err(CancelError::NotCancellable { state: status.as_str().to_owned() });
        }
        let open = match self.invoices[i].cancellable_until {
            Some(deadline) => deadline > now,
            None => false,
        };
        if !open {
            return Err(CancelError::PastWindow);
        }
        if self.cancel_is_waiting(&id) {
            return Err(CancelError::AlreadyRequested);
        }
        let ghost before = *self;
        self.invoices[i].note_cancel_request(reason, now);
        proof {
            Self::lemma_changed(
                before,
                *self,
                i as int,
                |row: InvoiceView| row.cancel_requested(reason@, now),
            );
        }
        let row = self.invoices[i].row();
        self.enqueue(&id, EventKind::Cancel, now);
        Ok(row)
    }
}

/// What the submitter needs of an invoice.
#[derive(Debug, Clone)]
pub struct InvoiceForSubmit {
    pub id: String,
    pub invoice_ref: String,
    pub payload_json: String,
    pub attempts: i64,
}

impl InvoiceForSubmit {
    /// Whether the fields are those of the row.
    pub open spec fn is_part_of(&self, row: InvoiceView) -> bool {
        &&& self.id@ == row.id
        &&& self.invoice_ref@ == row.invoice_ref
        &&& self.payload_json@ == row.payload_json
        &&& self.attempts == row.attempts
    }
}

/// What the poller needs of an invoice.
#[derive(Debug, Clone)]
pub struct InvoiceForPoll {
    pub id: String,
    pub invoice_ref: String,
    pub lhdn_uuid: Option<String>,
}

impl InvoiceForPoll {
    /// Whether the fields are those of the row.
    pub open spec fn is_part_of(&self, row: InvoiceView) -> bool {
        &&& self.id@ == row.id
        &&& self.invoice_ref@ == row.invoice_ref
        &&& optional_text(self.lhdn_uuid) == row.lhdn_uuid
    }
}

/// What the canceller needs of an invoice.
#[derive(Debug, Clone)]
pub struct InvoiceForCancel {
    pub id: String,
    pub invoice_ref: String,
    pub lhdn_uuid: Option<String>,
    pub cancellation_reason: Option<String>,
    pub cancellable_until: Option<i64>,
}

impl InvoiceForCancel {
    /// Whether the fields are those of the row.
    pub open spec fn is_part_of(&self, row: InvoiceView) -> bool {
        &&& self.id@ == row.id
        &&& self.invoice_ref@ == row.invoice_ref
        &&& optional_text(self.lhdn_uuid) == row.lhdn_uuid
        &&& optional_text(self.cancellation_reason) == row.cancellation_reason
        &&& self.cancellable_until == row.cancellable_until
    }
}

} // verus!
