//! What a change reads and writes: the rows of one invoice. So it can be made on
//! the rows at hand and written back.

use vstd::prelude::*;
use super::{after_change, may_happen, Change};
use crate::repo::RepoView;

verus! {

/// The invoice that the change is about.
pub open spec fn subject(repo: RepoView, change: Change) -> Seq<char> {
    match change {
        Change::Create { id, .. } => id,
        Change::RequestCancel { invoice_ref, .. } => repo.id_of_ref(invoice_ref),
        Change::Unbuilt { event, .. } => repo.outbox[event].invoice_id,
        Change::SubmitAnswered { event, .. } => repo.outbox[event].invoice_id,
        Change::SubmitFailed { event, .. } => repo.outbox[event].invoice_id,
        Change::Unaskable { event, .. } => repo.outbox[event].invoice_id,
        Change::PollAnswered { event, .. } => repo.outbox[event].invoice_id,
        Change::PollFailed { event, .. } => repo.outbox[event].invoice_id,
        Change::CancelStopped { event, .. } => repo.outbox[event].invoice_id,
        Change::CancelDone { event, .. } => repo.outbox[event].invoice_id,
        Change::CancelFailed { event, .. } => repo.outbox[event].invoice_id,
    }
}

/// A change leaves every other invoice as it is, and every event of another
/// invoice.
pub proof fn law_changes_touch_one_invoice(
    repo: RepoView,
    change: Change,
    other: Seq<char>,
    event: i64,
)
    requires
        repo.consistent(),
        may_happen(repo, change),
        other != subject(repo, change),
        repo.outbox.contains_key(event),
        repo.outbox[event].invoice_id != subject(repo, change),
    ensures
        after_change(repo, change).load(other) == repo.load(other),
        after_change(repo, change).outbox.contains_key(event),
        after_change(repo, change).outbox[event] == repo.outbox[event],
{
}

/// Whether the rows are some of those in the tables, among them the invoice and
/// all its events.
pub open spec fn covers(part: RepoView, whole: RepoView, id: Seq<char>) -> bool {
    &&& part.next_outbox_id == whole.next_outbox_id
    &&& forall|k: Seq<char>| #[trigger]
        part.invoices.contains_key(k) ==> whole.invoices.contains_key(k) && part.invoices[k]
            == whole.invoices[k]
    &&& forall|e: i64| #[trigger]
        part.outbox.contains_key(e) ==> whole.outbox.contains_key(e) && part.outbox[e]
            == whole.outbox[e]
    &&& whole.invoices.contains_key(id) ==> part.invoices.contains_key(id)
    &&& forall|e: i64| #[trigger]
        whole.outbox.contains_key(e) && whole.outbox[e].invoice_id == id
            ==> part.outbox.contains_key(e)
}

/// The tables after the rows at hand have been written back.
pub open spec fn written_back(whole: RepoView, part: RepoView, part_after: RepoView) -> RepoView {
    RepoView {
        invoices: whole.invoices.union_prefer_right(part_after.invoices),
        outbox: whole.outbox.remove_keys(part.outbox.dom()).union_prefer_right(part_after.outbox),
        next_outbox_id: part_after.next_outbox_id,
    }
}

/// Making a change on the rows of its invoice and writing them back is making it
/// on the whole tables.
pub proof fn law_rows_at_hand_suffice(whole: RepoView, part: RepoView, change: Change)
    requires
        whole.consistent(),
        may_happen(whole, change),
        covers(part, whole, subject(whole, change)),
    ensures
        may_happen(part, change),
        after_change(whole, change) == written_back(whole, part, after_change(part, change)),
{
    let id = subject(whole, change);
    match change {
        Change::Create { id, invoice_ref, .. } => {
            if part.has_ref(invoice_ref) {
                let k = part.id_of_ref(invoice_ref);
                assert(whole.invoices.contains_key(k) && whole.invoices[k].invoice_ref
                    == invoice_ref);
            }
        },
        Change::RequestCancel { invoice_ref, .. } => {
            assert(part.invoices.contains_key(id) && part.invoices[id].invoice_ref == invoice_ref);
            let k = part.id_of_ref(invoice_ref);
            assert(whole.invoices.contains_key(k) && whole.invoices[k].invoice_ref == invoice_ref);
            assert(k == id);
            if part.cancel_waits(id) {
                let e = choose|e: i64| #[trigger]
                    part.outbox.contains_key(e) && part.outbox[e].invoice_id == id
                        && part.outbox[e].kind == crate::repo::EventKind::Cancel;
                assert(whole.outbox.contains_key(e));
            }
        },
        _ => {
            assert(whole.invoices.contains_key(id));
        },
    }
    let after = after_change(whole, change);
    let part_after = after_change(part, change);
    let back = written_back(whole, part, part_after);
    assert(after.invoices =~= back.invoices);
    assert(after.outbox =~= back.outbox);
}

} // verus!
