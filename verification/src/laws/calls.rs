//! What one call promises of the next.

use vstd::prelude::*;
use super::nothing_lost;
use crate::api::{cancellation, submission, ApiError};
use crate::invoice::{InvoiceRow, InvoiceStatus, InvoiceView};
use crate::lhdn::client::{
    is_success, reply_error, token_outcome, token_step, ApiReply, ClientView, TokenActionView,
    TokenEvent,
};
use crate::lhdn::error::ErrorView;
use crate::lhdn::models::{EnvelopeView, TokenResponse};
use crate::lhdn::oauth::{CachedToken, TokenView, TOKEN_LEEWAY};
use crate::repo::{created, CancelErrorView, EventKind, RepoError, RepoView};
use crate::worker::canceller::{after_cancel_error, cancel_obstacle};
use crate::worker::poller::{after_poll_error, CANCELLATION_WINDOW};
use crate::worker::submitter::{after_delivery_error, retry_fits};
use crate::worker::{poll_backoff, step_after, submit_backoff, LoopEvent, LoopStep};

verus! {

/// An invoice that came in is found under its reference, `Pending`, with an
/// event to submit it that is due at once, and its reference is taken from then
/// on: the same reference cannot come in twice.
pub proof fn law_created_is_found_and_unique(
    repo: RepoView,
    id: Seq<char>,
    invoice_ref: Seq<char>,
    payload_json: Seq<char>,
    now: i64,
    other_id: Seq<char>,
)
    requires
        repo.keyed(),
        !repo.id_or_ref_taken(id, invoice_ref),
    ensures
        ({
            let after = repo.with_pending(id, invoice_ref, payload_json, now);
            &&& after.find(invoice_ref) == Some(
                InvoiceView::pending(id, invoice_ref, payload_json, now),
            )
            &&& after.due(EventKind::Submit, now, repo.next_outbox_id)
            &&& after.outbox[repo.next_outbox_id].invoice_id == id
            &&& after.id_or_ref_taken(other_id, invoice_ref)
        }),
{
    let after = repo.with_pending(id, invoice_ref, payload_json, now);
    assert(after.invoices.contains_key(id) && after.invoices[id].invoice_ref == invoice_ref);
    let found = after.id_of_ref(invoice_ref);
    assert(after.invoices.contains_key(found) && after.invoices[found].invoice_ref == invoice_ref);
    if found != id {
        assert(repo.invoices.contains_key(found));
    }
}

/// Once an invoice came in, its reference stays taken, whatever happened since: a
/// second one with that reference is refused, whatever it holds. Nothing changes
/// then, and the payload of the first is kept.
pub proof fn law_second_creation_is_refused(
    first: RepoView,
    first_row: Result<InvoiceRow, RepoError>,
    id: Seq<char>,
    invoice_ref: Seq<char>,
    payload_json: Seq<char>,
    at: i64,
    created_first: RepoView,
    later: RepoView,
    after: RepoView,
    row: Result<InvoiceRow, RepoError>,
    other_id: Seq<char>,
    other_payload: Seq<char>,
    now: i64,
)
    requires
        created(first, created_first, first_row, id, invoice_ref, payload_json, at),
        first_row is Ok,
        nothing_lost(created_first, later),
        later.keyed(),
        created(later, after, row, other_id, invoice_ref, other_payload, now),
    ensures
        row matches Err(error) && error is DuplicateRef,
        after == later,
        after.find(invoice_ref) matches Some(kept) && kept.id == id && kept.payload_json
            == payload_json,
{
    assert(created_first.invoices.contains_key(id));
    assert(later.invoices.contains_key(id) && later.invoices[id].invoice_ref == invoice_ref);
    assert(later.has_ref(invoice_ref));
    let found = later.id_of_ref(invoice_ref);
    assert(later.invoices.contains_key(found) && later.invoices[found].invoice_ref == invoice_ref);
}

/// What other invoices show does not change when an invoice comes in.
pub proof fn law_creating_leaves_others(
    repo: RepoView,
    id: Seq<char>,
    invoice_ref: Seq<char>,
    payload_json: Seq<char>,
    now: i64,
    other_ref: Seq<char>,
)
    requires
        repo.keyed(),
        !repo.id_or_ref_taken(id, invoice_ref),
        other_ref != invoice_ref,
    ensures
        repo.with_pending(id, invoice_ref, payload_json, now).find(other_ref) == repo.find(
            other_ref,
        ),
{
    let after = repo.with_pending(id, invoice_ref, payload_json, now);
    if repo.has_ref(other_ref) {
        let was = repo.id_of_ref(other_ref);
        assert(after.invoices.contains_key(was) && after.invoices[was].invoice_ref == other_ref);
    }
    if after.has_ref(other_ref) {
        let found = after.id_of_ref(other_ref);
        assert(repo.invoices.contains_key(found) && repo.invoices[found].invoice_ref == other_ref);
        if repo.has_ref(other_ref) {
            let was = repo.id_of_ref(other_ref);
            assert(was == found);
        }
    }
}

/// A request that the API refuses changes nothing, and is answered with a status
/// of 400 or above.
pub proof fn law_refused_requests_change_nothing(
    before: RepoView,
    after: RepoView,
    answer: Result<(u16, InvoiceRow), ApiError>,
    text: Option<Seq<char>>,
    payload_json: Seq<char>,
    id: Seq<char>,
    invoice_ref: Seq<char>,
    now: i64,
)
    requires
        answer is Err,
        submission(before, after, answer, text, payload_json, id, now) || cancellation(
            before,
            after,
            answer,
            invoice_ref,
            text,
            now,
        ),
    ensures
        after == before,
        answer->Err_0@.status() >= 400,
{
}

/// A cancellation is taken in only for an invoice that LHDN validated, before 72
/// hours have passed since; and a reason was given.
pub proof fn law_cancellation_is_asked_for_within_the_window(
    before: RepoView,
    after: RepoView,
    answer: Result<(u16, InvoiceRow), ApiError>,
    invoice_ref: Seq<char>,
    reason: Option<Seq<char>>,
    now: i64,
)
    requires
        before.consistent(),
        cancellation(before, after, answer, invoice_ref, reason, now),
        answer is Ok,
    ensures
        reason is Some,
        before.find(invoice_ref) matches Some(row) && row.lhdn_status == InvoiceStatus::Valid
            && (row.validated_at matches Some(at) && now < at + CANCELLATION_WINDOW),
{
    assert(before.cancel_refusal(invoice_ref, now) is None);
    let id = before.id_of_ref(invoice_ref);
    assert(before.invoices.contains_key(id));
}

/// LHDN is asked to cancel a document only before 72 hours have passed since it
/// validated it, though the request may have been taken in earlier.
pub proof fn law_cancel_is_sent_within_the_window(repo: RepoView, event: i64, now: i64)
    requires
        repo.consistent(),
        repo.outbox.contains_key(event),
        repo.outbox[event].kind == EventKind::Cancel,
        ({
            let row = repo.invoices[repo.outbox[event].invoice_id];
            cancel_obstacle(
                row.lhdn_uuid,
                row.cancellation_reason,
                row.cancellable_until,
                now,
            ) is None
        }),
    ensures
        ({
            let row = repo.invoices[repo.outbox[event].invoice_id];
            &&& row.lhdn_status == InvoiceStatus::Valid
            &&& row.validated_at matches Some(at) && now < at + CANCELLATION_WINDOW
        }),
{
    let id = repo.outbox[event].invoice_id;
    assert(repo.invoices.contains_key(id));
}

/// While a cancellation is under way, asking again is refused as such, as long as
/// the window is open, and as too late afterwards.
pub proof fn law_second_cancellation_is_refused(
    repo: RepoView,
    invoice_ref: Seq<char>,
    reason: Seq<char>,
    now: i64,
    later: i64,
)
    requires
        repo.keyed(),
        repo.cancel_refusal(invoice_ref, now) is None,
        repo.next_outbox_id < i64::MAX,
    ensures
        ({
            let after = repo.after_cancel_request(invoice_ref, reason, now);
            after.cancel_refusal(invoice_ref, later) == Some(
                if repo.find(invoice_ref)->0.window_open(later) {
                    CancelErrorView::AlreadyRequested
                } else {
                    CancelErrorView::PastWindow
                },
            )
        }),
{
    let after = repo.after_cancel_request(invoice_ref, reason, now);
    let id = repo.id_of_ref(invoice_ref);
    assert(repo.invoices.contains_key(id));
    assert(after.invoices.contains_key(id) && after.invoices[id].invoice_ref == invoice_ref);
    let found = after.id_of_ref(invoice_ref);
    assert(after.invoices.contains_key(found) && after.invoices[found].invoice_ref == invoice_ref);
    assert(repo.invoices.contains_key(found) && repo.invoices[found].invoice_ref == invoice_ref);
    assert(found == id);
    assert(after.outbox.contains_key(repo.next_outbox_id));
    assert(after.cancel_waits(id));
}

/// While LHDN cannot be reached and attempts are left, the invoice stays
/// `Pending`, counts the attempt, and its event stays in the queue, due again
/// after the backoff.
pub proof fn law_unreachable_lhdn_costs_only_time(
    repo: RepoView,
    max_attempts: i64,
    event: i64,
    error: ErrorView,
    now: i64,
)
    requires
        repo.consistent(),
        repo.outbox.contains_key(event),
        repo.outbox[event].kind == EventKind::Submit,
        error.transient(),
        ({
            let attempts = repo.invoices[repo.outbox[event].invoice_id].attempts;
            &&& attempts + 1 < max_attempts
            &&& retry_fits(attempts, submit_backoff(attempts + 1), now)
        }),
    ensures
        ({
            let id = repo.outbox[event].invoice_id;
            let attempts = repo.invoices[id].attempts;
            let after = after_delivery_error(repo, max_attempts, id, event, attempts, error, now);
            &&& after.invoices[id].lhdn_status == InvoiceStatus::Pending
            &&& after.invoices[id].payload_json == repo.invoices[id].payload_json
            &&& after.invoices[id].attempts == attempts + 1
            &&& after.outbox.contains_key(event)
            &&& after.outbox[event].available_at == now + submit_backoff(attempts + 1)
            &&& after.invoices[id].next_attempt_at == Some(after.outbox[event].available_at)
        }),
{
    let id = repo.outbox[event].invoice_id;
    assert(repo.invoices.contains_key(id));
}

/// An error that a retry cannot mend, or one attempt too many, ends the delivery
/// at once: the invoice is `Failed`, with the error, and no event is left for it.
pub proof fn law_hopeless_deliveries_fail(
    repo: RepoView,
    max_attempts: i64,
    event: i64,
    error: ErrorView,
    now: i64,
)
    requires
        repo.consistent(),
        repo.outbox.contains_key(event),
        repo.outbox[event].kind == EventKind::Submit,
        repo.invoices[repo.outbox[event].invoice_id].attempts < i64::MAX,
        !error.transient() || repo.invoices[repo.outbox[event].invoice_id].attempts + 1
            >= max_attempts,
    ensures
        ({
            let id = repo.outbox[event].invoice_id;
            let attempts = repo.invoices[id].attempts;
            let after = after_delivery_error(repo, max_attempts, id, event, attempts, error, now);
            &&& after.invoices[id].lhdn_status == InvoiceStatus::Failed
            &&& after.invoices[id].attempts == attempts + 1
            &&& after.invoices[id].error_json is Some
            &&& !after.has_event_for(id)
        }),
{
    let id = repo.outbox[event].invoice_id;
    let after = after_delivery_error(
        repo,
        max_attempts,
        id,
        event,
        repo.invoices[id].attempts,
        error,
        now,
    );
    assert(repo.invoices.contains_key(id));
    assert forall|e: i64| #[trigger] after.outbox.contains_key(e) implies after.outbox[e].invoice_id
        != id by {
        assert(repo.outbox.contains_key(e));
    }
}

/// A poll that fails never changes what the invoice's status is.
pub proof fn law_failed_polls_keep_the_status(
    repo: RepoView,
    max_attempts: i64,
    id: Seq<char>,
    event: i64,
    attempts: i64,
    error: ErrorView,
    now: i64,
    any: Seq<char>,
)
    ensures
        ({
            let after = after_poll_error(repo, max_attempts, id, event, attempts, error, now);
            &&& after.invoices.contains_key(any) == repo.invoices.contains_key(any)
            &&& repo.invoices.contains_key(any) ==> after.invoices[any].lhdn_status
                == repo.invoices[any].lhdn_status
        }),
{
}

/// A cancellation that fails never changes what the invoice's status is.
pub proof fn law_failed_cancellations_keep_the_status(
    repo: RepoView,
    max_attempts: i64,
    id: Seq<char>,
    event: i64,
    attempts: i64,
    error: ErrorView,
    now: i64,
    any: Seq<char>,
)
    ensures
        ({
            let after = after_cancel_error(repo, max_attempts, id, event, attempts, error, now);
            &&& after.invoices.contains_key(any) == repo.invoices.contains_key(any)
            &&& repo.invoices.contains_key(any) ==> after.invoices[any].lhdn_status
                == repo.invoices[any].lhdn_status
        }),
{
}

/// The wait after a failed delivery never gets shorter with more attempts, and
/// is an hour at most.
pub proof fn law_submit_backoff_grows_to_an_hour(a: int, b: int)
    requires
        1 <= a <= b,
    ensures
        30 <= submit_backoff(a) <= submit_backoff(b) <= 3600,
{
}

/// The wait between polls never gets shorter with more attempts, and is a
/// quarter of an hour at most.
pub proof fn law_poll_backoff_grows_to_a_quarter_hour(a: int, b: int)
    requires
        0 <= a <= b,
    ensures
        5 <= poll_backoff(a) <= poll_backoff(b) <= 900,
{
}

/// Which events a pass takes up is settled by the tables, the time and the limit.
pub proof fn law_due_batch_is_settled(
    repo: RepoView,
    kind: EventKind,
    now: i64,
    limit: i64,
    a: Seq<i64>,
    b: Seq<i64>,
)
    requires
        repo.is_due_batch(kind, now, limit, a),
        repo.is_due_batch(kind, now, limit, b),
    ensures
        a == b,
{
    lemma_batches_agree(repo, kind, now, limit, a, b, 0);
}

/// Two batches that agree on the first `n` events agree altogether.
proof fn lemma_batches_agree(
    repo: RepoView,
    kind: EventKind,
    now: i64,
    limit: i64,
    a: Seq<i64>,
    b: Seq<i64>,
    n: int,
)
    requires
        repo.is_due_batch(kind, now, limit, a),
        repo.is_due_batch(kind, now, limit, b),
        0 <= n <= a.len(),
        n <= b.len(),
        forall|i: int| 0 <= i < n ==> a[i] == b[i],
    ensures
        a == b,
    decreases a.len() - n,
{
    if n < a.len() && n < b.len() {
        if a[n] != b[n] {
            lemma_first_difference(repo, kind, now, limit, a, b, n);
            lemma_first_difference(repo, kind, now, limit, b, a, n);
        }
        lemma_batches_agree(repo, kind, now, limit, a, b, n + 1);
    } else if n < a.len() {
        lemma_not_missed(repo, kind, now, limit, a, b, n);
    } else if n < b.len() {
        lemma_not_missed(repo, kind, now, limit, b, a, n);
    } else {
        assert(a =~= b);
    }
}

/// Where two batches first differ, the one's event comes before the other's.
proof fn lemma_first_difference(
    repo: RepoView,
    kind: EventKind,
    now: i64,
    limit: i64,
    a: Seq<i64>,
    b: Seq<i64>,
    n: int,
)
    requires
        repo.is_due_batch(kind, now, limit, a),
        repo.is_due_batch(kind, now, limit, b),
        0 <= n < a.len(),
        n < b.len(),
        forall|i: int| 0 <= i < n ==> a[i] == b[i],
        a[n] != b[n],
    ensures
        repo.outbox[b[n]].before(repo.outbox[a[n]]),
{
    assert(repo.due(kind, now, a[n]));
    if b.contains(a[n]) {
        let k = b.index_of(a[n]);
        if k < n {
            assert(a[k] == a[n]);
            assert(repo.outbox[a[k]].before(repo.outbox[a[n]]));
        }
        assert(k > n);
        assert(repo.outbox[b[n]].before(repo.outbox[b[k]]));
    }
}

/// A batch that another one starts with misses none of its events.
proof fn lemma_not_missed(
    repo: RepoView,
    kind: EventKind,
    now: i64,
    limit: i64,
    long: Seq<i64>,
    short: Seq<i64>,
    n: int,
)
    requires
        repo.is_due_batch(kind, now, limit, long),
        repo.is_due_batch(kind, now, limit, short),
        n == short.len(),
        n <= long.len(),
        forall|i: int| 0 <= i < n ==> long[i] == short[i],
    ensures
        long.len() == n,
{
    if n < long.len() {
        assert(repo.due(kind, now, long[n]));
        if short.contains(long[n]) {
            let k = short.index_of(long[n]);
            assert(long[k] == long[n]);
            assert(repo.outbox[long[k]].before(repo.outbox[long[n]]));
        }
    }
}

/// An event whose time has not come is not taken up; one whose time has come is,
/// unless the pass is full with earlier ones.
pub proof fn law_only_due_events_are_taken_up(
    repo: RepoView,
    kind: EventKind,
    now: i64,
    limit: i64,
    batch: Seq<i64>,
    event: i64,
)
    requires
        repo.is_due_batch(kind, now, limit, batch),
        repo.outbox.contains_key(event),
        repo.outbox[event].kind == kind,
    ensures
        repo.outbox[event].available_at > now ==> !batch.contains(event),
        repo.outbox[event].available_at <= now && (limit < 0 || batch.len() < limit)
            ==> batch.contains(event),
{
    if batch.contains(event) {
        let i = batch.index_of(event);
        assert(repo.due(kind, now, batch[i]));
    } else if repo.outbox[event].available_at <= now {
        assert(repo.due(kind, now, event));
    }
}

/// Unless a shutdown is asked for, a worker's loop goes on after every pass,
/// whether it found events, found none or failed, and makes another at once after
/// one that found some. It ends where nobody is left who could ask.
pub proof fn law_loop_goes_on_after_every_pass(event: LoopEvent)
    ensures
        step_after(event) == LoopStep::Stop <==> event == LoopEvent::ShutdownChanged(true) || event
            == LoopEvent::ShutdownLost,
        event is Ticked || event is TickFailed ==> step_after(event) != LoopStep::Stop,
        event matches LoopEvent::Ticked(count) && count > 0 ==> step_after(event) == LoopStep::Tick,
{
}

/// A reply without success is worth a retry unless LHDN turned the request down
/// for what it says: credentials, document, or the document's state.
pub proof fn law_retries_follow_the_status(
    status: u16,
    body: Seq<char>,
    retry_after: Option<u64>,
    envelope: EnvelopeView,
)
    requires
        !is_success(status),
    ensures
        reply_error(status, body, retry_after, envelope).transient() <==> !(status == 401 || status
            == 403 || status == 400 || status == 422 || status == 404 || status == 409),
{
}

/// A token that was saved is used again, without the OAuth endpoint, as long as
/// it is fresh.
pub proof fn law_saved_token_is_reused(client: ClientView, token: CachedToken, at: int, now: int)
    requires
        token@.fresh_at(at),
        token@.fresh_at(now),
    ensures
        ({
            let (after, action) = token_step(client, TokenEvent::Saved(token), at);
            &&& action == TokenActionView::Done(token@.access_token)
            &&& token_step(after, TokenEvent::Wanted, now) == (
                after,
                TokenActionView::Done(token@.access_token),
            )
        }),
{
}

/// A fresh token in the token table spares the OAuth endpoint; a token that is
/// missing or about to expire does not.
pub proof fn law_stored_token_spares_the_endpoint(
    client: ClientView,
    stored: Option<CachedToken>,
    now: int,
)
    ensures
        ({
            let action = token_step(client, TokenEvent::Stored(stored), now).1;
            if stored is Some && stored->0@.fresh_at(now) {
                action == TokenActionView::Done(stored->0@.access_token)
            } else {
                action == TokenActionView::Fetch(client.token_request())
            }
        }),
{
}

/// A token is never handed out when it is about to expire, wherever it came from:
/// the cache, the table or the OAuth endpoint.
pub proof fn law_stale_tokens_are_not_handed_out(client: ClientView, event: TokenEvent, now: int)
    requires
        token_step(client, event, now).1 is Done,
    ensures
        ({
            let (after, action) = token_step(client, event, now);
            after.cache matches Some(token) && token.expires_at - now >= TOKEN_LEEWAY && action
                == TokenActionView::Done(token.access_token)
        }),
{
}

/// Whether this is what the token table holds for the environment.
pub open spec fn is_stored(
    tokens: Map<Seq<char>, TokenView>,
    env: Seq<char>,
    stored: Option<CachedToken>,
) -> bool {
    match stored {
        Some(token) => tokens.contains_key(env) && tokens[env] == token@,
        None => !tokens.contains_key(env),
    }
}

/// Where neither the cache nor the table holds a fresh token, the OAuth endpoint
/// is asked, once. The token that it grants is stored for the environment, cached
/// and handed out; as long as it is fresh, every other call gets it from the
/// cache, before the lock or once it has the lock, and a client that starts anew
/// gets it from the table: none asks the endpoint.
pub proof fn law_one_fetch_serves_every_call(
    client: ClientView,
    tokens: Map<Seq<char>, TokenView>,
    stored: Option<CachedToken>,
    reply: ApiReply,
    parsed: Result<TokenResponse, String>,
    granted: CachedToken,
    now: int,
    later: int,
)
    requires
        client.cache matches Some(cached) ==> !cached.fresh_at(now),
        is_stored(tokens, client.env_name, stored),
        stored matches Some(token) ==> !token@.fresh_at(now),
        token_outcome(reply, parsed, now) == Ok::<TokenView, ErrorView>(granted@),
        granted@.fresh_at(later),
    ensures
        token_step(client, TokenEvent::Wanted, now) == (client, TokenActionView::Lock),
        token_step(client, TokenEvent::Locked, now) == (client, TokenActionView::LoadStored),
        token_step(client, TokenEvent::Stored(stored), now) == (
            client,
            TokenActionView::Fetch(client.token_request()),
        ),
        token_step(client, TokenEvent::Replied(reply, parsed), now) == (
            client,
            TokenActionView::Save(granted@),
        ),
        ({
            let after = client.with_cache(granted@);
            let table = tokens.insert(client.env_name, granted@);
            let done = TokenActionView::Done(granted@.access_token);
            &&& is_stored(table, client.env_name, Some(granted))
            &&& token_step(client, TokenEvent::Saved(granted), now) == (after, done)
            &&& token_step(after, TokenEvent::Wanted, later) == (after, done)
            &&& token_step(after, TokenEvent::Locked, later) == (after, done)
            &&& token_step(client, TokenEvent::Stored(Some(granted)), later) == (after, done)
        }),
{
}

/// Where the OAuth endpoint grants no token, or cannot be reached, the call fails
/// with that error: the cache stays as it is, and nothing is stored.
pub proof fn law_failed_fetch_changes_nothing(client: ClientView, event: TokenEvent, now: int)
    requires
        event matches TokenEvent::Replied(reply, parsed) ==> token_outcome(reply, parsed, now)
            is Err,
        event is Replied || event is Unreachable || event is StorageFailed,
    ensures
        token_step(client, event, now).0 == client,
        event matches TokenEvent::Replied(reply, parsed) ==> token_step(client, event, now).1
            == TokenActionView::Fail(token_outcome(reply, parsed, now)->Err_0),
        event matches TokenEvent::Unreachable(why) ==> token_step(client, event, now).1
            == TokenActionView::Fail(ErrorView::Transport(why@)),
        event matches TokenEvent::StorageFailed(why) ==> token_step(client, event, now).1
            == TokenActionView::Fail(ErrorView::Storage(why@)),
{
}

/// A token that was stored for an environment is read back for it, and what is
/// stored for others stays.
pub proof fn law_stored_token_is_read_back(
    tokens: Map<Seq<char>, TokenView>,
    env: Seq<char>,
    token: TokenView,
    other: Seq<char>,
)
    requires
        other != env,
    ensures
        tokens.insert(env, token).contains_key(env),
        tokens.insert(env, token)[env] == token,
        tokens.insert(env, token).contains_key(other) == tokens.contains_key(other),
        tokens.contains_key(other) ==> tokens.insert(env, token)[other] == tokens[other],
{
}

/// No two statuses are written alike, so reading one back gives the same status.
pub proof fn law_statuses_are_told_apart(a: InvoiceStatus, b: InvoiceStatus)
    requires
        a.text() == b.text(),
    ensures
        a == b,
{
    reveal_strlit("Pending");
    reveal_strlit("Submitted");
    reveal_strlit("Valid");
    reveal_strlit("Invalid");
    reveal_strlit("Cancelled");
    reveal_strlit("Failed");
    assert("Pending"@[0] == 'P' && "Submitted"@[0] == 'S' && "Valid"@[0] == 'V' && "Invalid"@[0]
        == 'I' && "Cancelled"@[0] == 'C' && "Failed"@[0] == 'F');
    assert(a.text()[0] == b.text()[0]);
}

/// No two kinds of event are written alike, so reading one back gives the same
/// kind.
pub proof fn law_event_kinds_are_told_apart(a: EventKind, b: EventKind)
    requires
        a.text() == b.text(),
    ensures
        a == b,
{
    reveal_strlit("submit");
    reveal_strlit("poll");
    reveal_strlit("cancel");
    assert("submit"@[0] == 's' && "poll"@[0] == 'p' && "cancel"@[0] == 'c');
    assert(a.text()[0] == b.text()[0]);
}

} // verus!
