//! Which outbox events are taken up next.

use vstd::prelude::*;
use super::{event_content, event_key, EventKind, EventView, InvoiceRepo, OutboxEvent, RepoView};
use crate::table::{index_of, lemma_table_row};

verus! {

/// A `submit` event whose time has come.
#[derive(Debug, Clone)]
pub struct DueSubmitEvent {
    pub outbox_id: i64,
    pub invoice_id: String,
}

/// A `poll` event whose time has come.
#[derive(Debug, Clone)]
pub struct DuePollEvent {
    pub outbox_id: i64,
    pub invoice_id: String,
    pub attempts: i64,
}

/// A `cancel` event whose time has come.
#[derive(Debug, Clone)]
pub struct DueCancelEvent {
    pub outbox_id: i64,
    pub invoice_id: String,
    pub attempts: i64,
}

impl DueSubmitEvent {
    /// Whether this is what the outbox holds under its id.
    pub open spec fn is_in(&self, repo: RepoView) -> bool {
        &&& repo.outbox.contains_key(self.outbox_id)
        &&& repo.outbox[self.outbox_id].kind == EventKind::Submit
        &&& repo.outbox[self.outbox_id].invoice_id == self.invoice_id@
    }
}

impl DuePollEvent {
    /// Whether this is what the outbox holds under its id.
    pub open spec fn is_in(&self, repo: RepoView) -> bool {
        &&& repo.outbox.contains_key(self.outbox_id)
        &&& repo.outbox[self.outbox_id].kind == EventKind::Poll
        &&& repo.outbox[self.outbox_id].invoice_id == self.invoice_id@
        &&& repo.outbox[self.outbox_id].attempts == self.attempts
    }
}

impl DueCancelEvent {
    /// Whether this is what the outbox holds under its id.
    pub open spec fn is_in(&self, repo: RepoView) -> bool {
        &&& repo.outbox.contains_key(self.outbox_id)
        &&& repo.outbox[self.outbox_id].kind == EventKind::Cancel
        &&& repo.outbox[self.outbox_id].invoice_id == self.invoice_id@
        &&& repo.outbox[self.outbox_id].attempts == self.attempts
    }
}

impl RepoView {
    /// Whether the id is that of an event of the kind whose time has come.
    pub open spec fn due(self, kind: EventKind, now: i64, outbox_id: i64) -> bool {
        self.outbox.contains_key(outbox_id) && self.outbox[outbox_id].is_due(kind, now)
    }

    /// Whether these are the due events of the kind, earliest first, the first
    /// `limit` of them where there are more. A negative limit is none.
    pub open spec fn is_due_batch(
        self,
        kind: EventKind,
        now: i64,
        limit: i64,
        batch: Seq<i64>,
    ) -> bool {
        &&& forall|i: int| 0 <= i < batch.len() ==> self.due(kind, now, #[trigger] batch[i])
        &&& forall|i: int, j: int|
            0 <= i < j < batch.len() ==> self.outbox[#[trigger] batch[i]].before(
                self.outbox[#[trigger] batch[j]],
            )
        &&& limit >= 0 ==> batch.len() <= limit
        &&& forall|e: i64| #[trigger]
            self.due(kind, now, e) && !batch.contains(e) ==> {
                &&& limit >= 0 && batch.len() == limit
                &&& forall|i: int|
                    0 <= i < batch.len() ==> self.outbox[#[trigger] batch[i]].before(self.outbox[e])
            }
    }
}

/// The ids of the events.
pub open spec fn submit_ids(events: Seq<DueSubmitEvent>) -> Seq<i64> {
    events.map_values(|event: DueSubmitEvent| event.outbox_id)
}

/// The ids of the events.
pub open spec fn poll_ids(events: Seq<DuePollEvent>) -> Seq<i64> {
    events.map_values(|event: DuePollEvent| event.outbox_id)
}

/// The ids of the events.
pub open spec fn cancel_ids(events: Seq<DueCancelEvent>) -> Seq<i64> {
    events.map_values(|event: DueCancelEvent| event.outbox_id)
}

/// The ids of the events at the positions.
spec fn ids_at(outbox: Seq<OutboxEvent>, positions: Seq<usize>) -> Seq<i64> {
    positions.map_values(|p: usize| outbox[p as int].id)
}

/// Whether the event comes after the one at the position, where there is one.
spec fn comes_after(outbox: Seq<OutboxEvent>, last: Option<usize>, event: EventView) -> bool {
    match last {
        Some(p) => outbox[p as int]@.before(event),
        None => true,
    }
}

impl InvoiceRepo {
    fn is_before(&self, a: usize, b: usize) -> (before: bool)
        requires
            a < self.outbox@.len(),
            b < self.outbox@.len(),
        ensures
            before == self.outbox@[a as int]@.before(self.outbox@[b as int]@),
    {
        let first = &self.outbox[a];
        let second = &self.outbox[b];
        first.available_at < second.available_at || (first.available_at == second.available_at
            && first.id < second.id)
    }

    /// The earliest due event that comes after the one at `last`.
    fn next_due(&self, kind: EventKind, now: i64, last: Option<usize>) -> (next: Option<usize>)
        requires
            self.wf(),
            last matches Some(p) ==> p < self.outbox@.len(),
        ensures
            match next {
                Some(n) => {
                    &&& n < self.outbox@.len()
                    &&& self.outbox@[n as int]@.is_due(kind, now)
                    &&& comes_after(self.outbox@, last, self.outbox@[n as int]@)
                    &&& forall|k: int|
                        0 <= k < self.outbox@.len() && k != n && (
                        #[trigger] self.outbox@[k])@.is_due(kind, now) && comes_after(
                            self.outbox@,
                            last,
                            self.outbox@[k]@,
                        ) ==> self.outbox@[n as int]@.before(self.outbox@[k]@)
                },
                None => forall|k: int|
                    0 <= k < self.outbox@.len() && (#[trigger] self.outbox@[k])@.is_due(kind, now)
                        ==> !comes_after(self.outbox@, last, self.outbox@[k]@),
            },
    {
        let mut next: Option<usize> = None;
        let mut i: usize = 0;
        while i < self.outbox.len()
            invariant
                self.wf(),
                i <= self.outbox@.len(),
                last matches Some(p) ==> p < self.outbox@.len(),
                match next {
                    Some(n) => {
                        &&& n < i
                        &&& self.outbox@[n as int]@.is_due(kind, now)
                        &&& comes_after(self.outbox@, last, self.outbox@[n as int]@)
                        &&& forall|k: int|
                            0 <= k < i && k != n && (#[trigger] self.outbox@[k])@.is_due(kind, now)
                                && comes_after(self.outbox@, last, self.outbox@[k]@)
                                ==> self.outbox@[n as int]@.before(self.outbox@[k]@)
                    },
                    None => forall|k: int|
                        0 <= k < i && (#[trigger] self.outbox@[k])@.is_due(kind, now)
                            ==> !comes_after(self.outbox@, last, self.outbox@[k]@),
                },
            decreases self.outbox@.len() - i,
        {
            let after_last = match last {
                Some(p) => self.is_before(p, i),
                None => true,
            };
            if self.outbox[i].kind == kind && self.outbox[i].available_at <= now && after_last {
                match next {
                    Some(n) => {
                        assert(event_key()(self.outbox@[n as int]) != event_key()(
                            self.outbox@[i as int],
                        ));
                        if self.is_before(i, n) {
                            next = Some(i);
                        }
                    },
                    None => {
                        next = Some(i);
                    },
                }
            }
            i = i + 1;
        }
        next
    }

    /// The positions of the due events, earliest first, at most `limit` of them.
    fn due_positions(&self, kind: EventKind, now: i64, limit: i64) -> (positions: Vec<usize>)
        requires
            self.wf(),
        ensures
            forall|i: int|
                0 <= i < positions@.len() ==> (#[trigger] positions@[i]) < self.outbox@.len()
                    && self.outbox@[positions@[i] as int]@.is_due(kind, now),
            self@.is_due_batch(kind, now, limit, ids_at(self.outbox@, positions@)),
    {
        let total: usize = self.outbox.len();
        let mut positions: Vec<usize> = Vec::new();
        let mut last: Option<usize> = None;
        let mut room: i64 = limit;
        let mut exhausted = false;
        while !exhausted && room != 0
            invariant
                self.wf(),
                total == self.outbox@.len(),
                limit >= 0 ==> 0 <= room && room + positions@.len() == limit,
                limit < 0 ==> room == limit,
                positions@.len() <= self.outbox@.len(),
                forall|i: int|
                    0 <= i < positions@.len() ==> (#[trigger] positions@[i]) < self.outbox@.len()
                        && self.outbox@[positions@[i] as int]@.is_due(kind, now),
                forall|i: int, j: int|
                    0 <= i < j < positions@.len() ==> self.outbox@[(
                    #[trigger] positions@[i]) as int]@.before(
                        self.outbox@[(#[trigger] positions@[j]) as int]@,
                    ),
                last == (if positions@.len() == 0 {
                    None
                } else {
                    Some(positions@.last())
                }),
                forall|k: int|
                    0 <= k < self.outbox@.len() && (#[trigger] self.outbox@[k])@.is_due(kind, now)
                        ==> positions@.contains(k as usize) || comes_after(
                        self.outbox@,
                        last,
                        self.outbox@[k]@,
                    ),
                exhausted ==> forall|k: int|
                    0 <= k < self.outbox@.len() && (#[trigger] self.outbox@[k])@.is_due(kind, now)
                        ==> positions@.contains(k as usize),
            decreases (if exhausted {
                0
            } else {
                1int
            }), self.outbox@.len() - positions@.len(),
        {
            match self.next_due(kind, now, last) {
                Some(n) => {
                    let ghost before = positions@;
                    positions.push(n);
                    proof {
                        Self::lemma_distinct_positions(self.outbox@, positions@);
                        assert forall|k: int|
                            0 <= k < self.outbox@.len() && (#[trigger] self.outbox@[k])@.is_due(
                                kind,
                                now,
                            ) implies positions@.contains(k as usize) || comes_after(
                            self.outbox@,
                            Some(n),
                            self.outbox@[k]@,
                        ) by {
                            if before.contains(k as usize) {
                                let m = before.index_of(k as usize);
                                assert(positions@[m] == k as usize);
                            } else if k == n {
                                assert(positions@[before.len() as int] == n);
                            }
                        }
                    }
                    last = Some(n);
                    if room > 0 {
                        room = room - 1;
                    }
                },
                None => {
                    exhausted = true;
                },
            }
        }
        proof {
            let batch = ids_at(self.outbox@, positions@);
            let view = self@;
            assert forall|i: int| 0 <= i < batch.len() implies view.due(
                kind,
                now,
                #[trigger] batch[i],
            ) && view.outbox[batch[i]] == self.outbox@[positions@[i] as int]@ by {
                lemma_table_row(self.outbox@, event_key(), event_content(), positions@[i] as int);
            }
            assert forall|e: i64| #[trigger] view.due(kind, now, e) && !batch.contains(e) implies {
                &&& limit >= 0 && batch.len() == limit
                &&& forall|i: int|
                    0 <= i < batch.len() ==> view.outbox[#[trigger] batch[i]].before(view.outbox[e])
            } by {
                let k = index_of(self.outbox@, event_key(), e);
                lemma_table_row(self.outbox@, event_key(), event_content(), k);
                if positions@.contains(k as usize) {
                    let m = positions@.index_of(k as usize);
                    assert(batch[m] == e);
                }
                assert(room == 0);
                assert forall|i: int| 0 <= i < batch.len() implies view.outbox[
                    #[trigger] batch[i]
                ].before(view.outbox[e]) by {
                    let m = positions@.len() - 1;
                    assert(self.outbox@[positions@[m] as int]@.before(view.outbox[e]));
                    if i < m {
                        assert(self.outbox@[positions@[i] as int]@.before(
                            self.outbox@[positions@[m] as int]@,
                        ));
                    }
                }
            }
        }
        positions
    }

    /// Positions in ascending order of their events are distinct, so there are
    /// no more of them than events.
    proof fn lemma_distinct_positions(outbox: Seq<OutboxEvent>, positions: Seq<usize>)
        requires
            forall|i: int|
                0 <= i < positions.len() ==> (#[trigger] positions[i]) < outbox.len(),
            forall|i: int, j: int|
                0 <= i < j < positions.len() ==> outbox[(#[trigger] positions[i]) as int]@.before(
                    outbox[(#[trigger] positions[j]) as int]@,
                ),
        ensures
            positions.len() <= outbox.len(),
    {
        let all = vstd::set_lib::set_int_range(0, outbox.len() as int);
        vstd::set_lib::lemma_int_range(0, outbox.len() as int);
        let wide = positions.map_values(|p: usize| p as int);
        assert forall|i: int, j: int| 0 <= i < j < wide.len() implies wide[i] != wide[j] by {
            assert(outbox[positions[i] as int]@.before(outbox[positions[j] as int]@));
        }
        assert(wide.no_duplicates());
        wide.unique_seq_to_set();
        assert(wide.to_set().subset_of(all)) by {
            assert forall|x: int| wide.to_set().contains(x) implies all.contains(x) by {
                let i = wide.index_of(x);
                assert(positions[i] < outbox.len());
            }
        }
        vstd::set_lib::lemma_len_subset(wide.to_set(), all);
    }

    /// The `submit` events whose time has come, earliest first, at most `limit`
    /// of them.
    pub fn due_submit_events(&self, now: i64, limit: i64) -> (events: Vec<DueSubmitEvent>)
        requires
            self.wf(),
        ensures
            self@.is_due_batch(EventKind::Submit, now, limit, submit_ids(events@)),
            forall|i: int| 0 <= i < events@.len() ==> (#[trigger] events@[i]).is_in(self@),
    {
        let positions = self.due_positions(EventKind::Submit, now, limit);
        let mut events: Vec<DueSubmitEvent> = Vec::new();
        let mut i: usize = 0;
        while i < positions.len()
            invariant
                self.wf(),
                i <= positions@.len(),
                i == events@.len(),
                forall|k: int|
                    0 <= k < positions@.len() ==> (#[trigger] positions@[k]) < self.outbox@.len()
                        && self.outbox@[positions@[k] as int]@.is_due(EventKind::Submit, now),
                forall|k: int|
                    0 <= k < i ==> (#[trigger] events@[k]).outbox_id
                        == self.outbox@[positions@[k] as int].id && events@[k].is_in(self@),
            decreases positions@.len() - i,
        {
            let event = &self.outbox[positions[i]];
            proof {
                lemma_table_row(
                    self.outbox@,
                    event_key(),
                    event_content(),
                    positions@[i as int] as int,
                );
            }
            events.push(
                DueSubmitEvent { outbox_id: event.id, invoice_id: event.invoice_id.clone() },
            );
            i = i + 1;
        }
        assert(submit_ids(events@) =~= ids_at(self.outbox@, positions@));
        events
    }

    /// The `poll` events whose time has come, earliest first, at most `limit` of
    /// them.
    pub fn due_poll_events(&self, now: i64, limit: i64) -> (events: Vec<DuePollEvent>)
        requires
            self.wf(),
        ensures
            self@.is_due_batch(EventKind::Poll, now, limit, poll_ids(events@)),
            forall|i: int| 0 <= i < events@.len() ==> (#[trigger] events@[i]).is_in(self@),
    {
        let positions = self.due_positions(EventKind::Poll, now, limit);
        let mut events: Vec<DuePollEvent> = Vec::new();
        let mut i: usize = 0;
        while i < positions.len()
            invariant
                self.wf(),
                i <= positions@.len(),
                i == events@.len(),
                forall|k: int|
                    0 <= k < positions@.len() ==> (#[trigger] positions@[k]) < self.outbox@.len()
                        && self.outbox@[positions@[k] as int]@.is_due(EventKind::Poll, now),
                forall|k: int|
                    0 <= k < i ==> (#[trigger] events@[k]).outbox_id
                        == self.outbox@[positions@[k] as int].id && events@[k].is_in(self@),
            decreases positions@.len() - i,
        {
            let event = &self.outbox[positions[i]];
            proof {
                lemma_table_row(
                    self.outbox@,
                    event_key(),
                    event_content(),
                    positions@[i as int] as int,
                );
            }
            events.push(
                DuePollEvent {
                    outbox_id: event.id,
                    invoice_id: event.invoice_id.clone(),
                    attempts: event.attempts,
                },
            );
            i = i + 1;
        }
        assert(poll_ids(events@) =~= ids_at(self.outbox@, positions@));
        events
    }

    /// The `cancel` events whose time has come, earliest first, at most `limit`
    /// of them.
    pub fn due_cancel_events(&self, now: i64, limit: i64) -> (events: Vec<DueCancelEvent>)
        requires
            self.wf(),
        ensures
            self@.is_due_batch(EventKind::Cancel, now, limit, cancel_ids(events@)),
            forall|i: int| 0 <= i < events@.len() ==> (#[trigger] events@[i]).is_in(self@),
    {
        let positions = self.due_positions(EventKind::Cancel, now, limit);
        let mut events: Vec<DueCancelEvent> = Vec::new();
        let mut i: usize = 0;
        while i < positions.len()
            invariant
                self.wf(),
                i <= positions@.len(),
                i == events@.len(),
                forall|k: int|
                    0 <= k < positions@.len() ==> (#[trigger] positions@[k]) < self.outbox@.len()
                        && self.outbox@[positions@[k] as int]@.is_due(EventKind::Cancel, now),
                forall|k: int|
                    0 <= k < i ==> (#[trigger] events@[k]).outbox_id
                        == self.outbox@[positions@[k] as int].id && events@[k].is_in(self@),
            decreases positions@.len() - i,
        {
            let event = &self.outbox[positions[i]];
            proof {
                lemma_table_row(
                    self.outbox@,
                    event_key(),
                    event_content(),
                    positions@[i as int] as int,
                );
            }
            events.push(
                DueCancelEvent {
                    outbox_id: event.id,
                    invoice_id: event.invoice_id.clone(),
                    attempts: event.attempts,
                },
            );
            i = i + 1;
        }
        assert(cancel_ids(events@) =~= ids_at(self.outbox@, positions@));
        events
    }
}

} // verus!
