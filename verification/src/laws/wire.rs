//! What is said to LHDN and understood of its replies, and what settings and
//! texts stand for.

use vstd::prelude::*;
use crate::config::{is_on, plain};
use crate::domain::canonicalize::canonical_outcome;
use crate::domain::{DomainError, DomainErrorView};
use crate::lhdn::client::{
    document_views, is_success, plain_envelope, reply_error, token_outcome, token_step,
    too_short_lived, ApiReply, ApiRequest, BodyView, ClientView, HttpMethod, RequestBody,
    TokenAction, TokenActionView, TokenEvent,
};
use crate::lhdn::error::{ErrorView, LhdnError};
use crate::lhdn::models::{
    optional_text, EnvelopeView, IdScheme, LhdnErrorEnvelope, SubmissionDocument,
    SubmissionDocumentView, TokenResponse,
};
use crate::lhdn::oauth::CachedToken;
use crate::lhdn::LhdnEnv;
use crate::text::{
    all_digits, ascii_lower, ascii_lowered, debug_text, decimal, digits, digits_value, trimmed,
    unsigned_value,
};
use crate::worker::{step_after, LoopEvent, LoopStep};

verus! {

/// Documents are delivered by `POST` to the endpoint for submissions, as they are
/// and all of them, with the token.
pub proof fn law_deliveries_are_posted(
    client: ClientView,
    token: Seq<char>,
    docs: Seq<SubmissionDocumentView>,
)
    ensures
        client.delivery_request(token, docs).method == HttpMethod::Post,
        client.delivery_request(token, docs).url == client.base_url
            + "/api/v1.0/documentsubmissions"@,
        client.delivery_request(token, docs).bearer == Some(token),
        client.delivery_request(token, docs).query.len() == 0,
        client.delivery_request(token, docs).body matches BodyView::Documents(sent) && sent == docs,
{
}

/// How a document stands is asked for by its UUID, with the token.
pub proof fn law_details_are_asked_for_by_uuid(
    client: ClientView,
    token: Seq<char>,
    uuid: Seq<char>,
)
    ensures
        client.details_request(token, uuid).method == HttpMethod::Get,
        client.details_request(token, uuid).url == client.base_url + "/api/v1.0/documents/"@ + uuid
            + "/details"@,
        client.details_request(token, uuid).bearer == Some(token),
        client.details_request(token, uuid).query.len() == 0,
        client.details_request(token, uuid).body is Empty,
{
}

/// A document is cancelled by its UUID, with the reason and the token.
pub proof fn law_cancellations_are_put_with_the_reason(
    client: ClientView,
    token: Seq<char>,
    uuid: Seq<char>,
    reason: Seq<char>,
)
    ensures
        client.cancel_request(token, uuid, reason).method == HttpMethod::Put,
        client.cancel_request(token, uuid, reason).url == client.base_url
            + "/api/v1.0/documents/state/"@ + uuid + "/state"@,
        client.cancel_request(token, uuid, reason).bearer == Some(token),
        client.cancel_request(token, uuid, reason).query.len() == 0,
        client.cancel_request(token, uuid, reason).body == (BodyView::StateChange {
            status: "cancelled"@,
            reason,
        }),
{
}

/// A taxpayer is asked for by the number and a second identifier, with the token.
pub proof fn law_taxpayers_are_asked_for_by_number(
    client: ClientView,
    token: Seq<char>,
    tin: Seq<char>,
    scheme: IdScheme,
    value: Seq<char>,
)
    ensures
        ({
            let request = client.taxpayer_request(token, tin, scheme.wire_text(), value);
            let id_type = match scheme {
                IdScheme::Nric => "NRIC"@,
                IdScheme::Passport => "PASSPORT"@,
                IdScheme::Brn => "BRN"@,
                IdScheme::Army => "ARMY"@,
            };
            &&& request.method == HttpMethod::Get
            &&& request.url == client.base_url + "/api/v1.0/taxpayer/validate/"@ + tin
            &&& request.bearer == Some(token)
            &&& request.query.len() == 2
            &&& request.query[0] == ("idType"@, id_type)
            &&& request.query[1] == ("idValue"@, value)
            &&& request.body is Empty
        }),
{
}

/// A token is asked for with the credentials and the scope, and without a token.
pub proof fn law_tokens_are_asked_for_with_the_credentials(client: ClientView)
    ensures
        client.token_request().method == HttpMethod::Post,
        client.token_request().url == client.base_url + "/connect/token"@,
        client.token_request().bearer is None,
        client.token_request().query.len() == 0,
        client.token_request().body matches BodyView::Form(form) && form.len() == 4 && form[0] == (
            "client_id"@,
            client.client_id,
        ) && form[1] == ("client_secret"@, client.client_secret) && form[2] == (
            "grant_type"@,
            "client_credentials"@,
        ) && form[3] == ("scope"@, client.scope),
{
}

/// A request is seen with each of its parts, and its documents with each of their
/// fields.
pub proof fn law_requests_are_seen_whole(request: ApiRequest, docs: Seq<SubmissionDocument>, i: int)
    ensures
        request@.method == request.method,
        request@.url == request.url@,
        request@.bearer == optional_text(request.bearer),
        request@.query.len() == request.query@.len(),
        0 <= i < request.query@.len() ==> request@.query[i].0 == request.query@[i].0@
            && request@.query[i].1 == request.query@[i].1@,
        request@.body == request.body@,
        request.body is Empty ==> request@.body is Empty,
        request.body matches RequestBody::Form(form) ==> (request@.body matches BodyView::Form(
            seen,
        ) && seen.len() == form@.len() && (0 <= i < form@.len() ==> seen[i].0 == form@[i].0@
            && seen[i].1 == form@[i].1@)),
        request.body matches RequestBody::Documents(sent) ==> request@.body
            == BodyView::Documents(document_views(sent@)),
        request.body matches RequestBody::StateChange { status, reason } ==> request@.body == (
        BodyView::StateChange { status: status@, reason: reason@ }),
        document_views(docs).len() == docs.len(),
        0 <= i < docs.len() ==> {
            &&& document_views(docs)[i].format == docs[i].format
            &&& document_views(docs)[i].document_hash == docs[i].document_hash@
            &&& document_views(docs)[i].code_number == docs[i].code_number@
            &&& document_views(docs)[i].document == docs[i].document@
        },
{
}

/// Each environment has its API, its portal and its name.
pub proof fn law_environments_have_their_addresses(env: LhdnEnv)
    ensures
        env == LhdnEnv::Preprod ==> {
            &&& env.base_url_text() == "https://preprod-api.myinvois.hasil.gov.my"@
            &&& env.portal_base_url_text() == "https://preprod.myinvois.hasil.gov.my"@
            &&& env.name_text() == "preprod"@
        },
        env == LhdnEnv::Prod ==> {
            &&& env.base_url_text() == "https://api.myinvois.hasil.gov.my"@
            &&& env.portal_base_url_text() == "https://myinvois.hasil.gov.my"@
            &&& env.name_text() == "prod"@
        },
{
}

/// A reply is a success exactly where its status is one of the two hundreds.
pub proof fn law_success_is_a_status_of_two_hundred(status: u16)
    ensures
        is_success(status) <==> status / 100 == 2,
{
}

/// A reply without success is sorted by its status, and keeps what LHDN said.
pub proof fn law_replies_are_sorted_by_status(
    status: u16,
    body: Seq<char>,
    retry_after: Option<u64>,
    envelope: EnvelopeView,
)
    ensures
        ({
            let error = reply_error(status, body, retry_after, envelope);
            &&& status == 401 || status == 403 ==> error == ErrorView::Auth(envelope.message)
            &&& status == 400 || status == 422 ==> error == ErrorView::BadRequest(envelope)
            &&& status == 404 ==> error == ErrorView::NotFound
            &&& status == 409 ==> error == ErrorView::Conflict(envelope)
            &&& status == 429 && retry_after is None ==> error == (ErrorView::RateLimited {
                retry_after_nanos: None,
            })
            &&& status == 429 && retry_after is Some ==> (error matches ErrorView::RateLimited {
                retry_after_nanos: Some(nanos),
            } && nanos == retry_after->0 * 1_000_000_000)
            &&& status / 100 == 5 ==> error == (ErrorView::Server { status, body })
            &&& !(status == 401 || status == 403 || status == 400 || status == 422 || status == 404
                || status == 409 || status == 429) ==> error == (ErrorView::Server { status, body })
        }),
{
}

/// The error of a reply is made of its own status, body, hint and envelope; where
/// the body has no envelope, the status and the body stand for it.
pub proof fn law_reply_errors_come_from_the_reply(reply: ApiReply)
    ensures
        reply.envelope matches Some(envelope) ==> reply.error() == reply_error(
            reply.status,
            reply.body@,
            reply.retry_after,
            envelope@,
        ),
        reply.envelope is None ==> reply.error() == reply_error(
            reply.status,
            reply.body@,
            reply.retry_after,
            plain_envelope(reply.status, reply.body@),
        ),
        plain_envelope(reply.status, reply.body@).code == "HTTP"@ + decimal(reply.status as int),
        plain_envelope(reply.status, reply.body@).message == reply.body@,
        plain_envelope(reply.status, reply.body@).target is None,
        plain_envelope(reply.status, reply.body@).details.len() == 0,
{
}

/// Each error has its name and its words.
pub proof fn law_errors_have_name_and_words(error: ErrorView)
    ensures
        error matches ErrorView::Auth(text) ==> error.variant_text() == "Auth"@ && error.message()
            == "auth: "@ + text,
        error matches ErrorView::BadRequest(envelope) ==> error.variant_text() == "BadRequest"@
            && error.message() == "bad request: "@ + envelope.message,
        error is NotFound ==> error.variant_text() == "NotFound"@ && error.message()
            == "not found"@,
        error matches ErrorView::Conflict(envelope) ==> error.variant_text() == "Conflict"@
            && error.message() == "conflict: "@ + envelope.message,
        error is RateLimited ==> error.variant_text() == "RateLimited"@ && error.message()
            == "rate limited"@,
        error matches ErrorView::Server { status, body } ==> error.variant_text() == "Server"@
            && error.message() == "server error: status="@ + decimal(status as int),
        error matches ErrorView::Transport(text) ==> error.variant_text() == "Transport"@
            && error.message() == "transport: "@ + text,
        error matches ErrorView::Schema(text) ==> error.variant_text() == "Schema"@
            && error.message() == "response schema: "@ + text,
        error matches ErrorView::Storage(text) ==> error.variant_text() == "Storage"@
            && error.message() == "storage: "@ + text,
        error matches ErrorView::Config(text) ==> error.variant_text() == "Config"@
            && error.message() == "config: "@ + text,
{
}

/// An error is seen with all that it holds.
pub proof fn law_errors_are_seen_whole(error: LhdnError, envelope: LhdnErrorEnvelope, i: int)
    ensures
        error matches LhdnError::Auth(text) ==> error@ == ErrorView::Auth(text@),
        error matches LhdnError::BadRequest(inner) ==> error@ == ErrorView::BadRequest(inner@),
        error is NotFound ==> error@ == ErrorView::NotFound,
        error matches LhdnError::Conflict(inner) ==> error@ == ErrorView::Conflict(inner@),
        error is RateLimited ==> error@ is RateLimited,
        error matches LhdnError::Server { status, body } ==> error@ == (ErrorView::Server {
            status,
            body: body@,
        }),
        error matches LhdnError::Transport(text) ==> error@ == ErrorView::Transport(text@),
        error matches LhdnError::Schema(text) ==> error@ == ErrorView::Schema(text@),
        error matches LhdnError::Storage(text) ==> error@ == ErrorView::Storage(text@),
        error matches LhdnError::Config(text) ==> error@ == ErrorView::Config(text@),
        envelope@.code == envelope.code@,
        envelope@.message == envelope.message@,
        envelope@.target == optional_text(envelope.target),
        envelope@.details.len() == envelope.details@.len(),
        0 <= i < envelope.details@.len() ==> envelope@.details[i] == crate::json::json_text(
            envelope.details@[i],
        ),
{
}

/// A token is fresh exactly as long as a minute is left of it.
pub proof fn law_tokens_are_fresh_up_to_a_minute(token: CachedToken, now: int)
    ensures
        token@.access_token == token.access_token@,
        token@.expires_at == token.expires_at,
        token@.fresh_at(now) <==> token.expires_at >= now + 60,
{
}

/// A token that the endpoint grants for at least a minute, as a bearer token and
/// with success, is taken as it is, up to when it expires; any other reply is the
/// error that it stands for.
pub proof fn law_granted_tokens_are_taken(
    reply: ApiReply,
    parsed: Result<TokenResponse, String>,
    now: int,
)
    ensures
        ({
            let outcome = token_outcome(reply, parsed, now);
            let refused = reply.status == 400 || reply.status == 401 || reply.status == 403;
            let success = reply.status / 100 == 2;
            &&& success && parsed is Ok && parsed->Ok_0.token_type@ == "Bearer"@
                && parsed->Ok_0.expires_in >= 60 ==> (outcome matches Ok(token)
                && token.access_token == parsed->Ok_0.access_token@ && token.expires_at == now
                + parsed->Ok_0.expires_in)
            &&& success && parsed is Ok && parsed->Ok_0.token_type@ != "Bearer"@ ==> (
            outcome matches Err(error) && error == ErrorView::Schema(
                "expected token_type \"Bearer\", got "@ + debug_text(parsed->Ok_0.token_type@),
            ))
            &&& success && parsed is Ok && parsed->Ok_0.token_type@ == "Bearer"@
                && parsed->Ok_0.expires_in < 60 ==> (outcome matches Err(error) && error
                == ErrorView::Schema("token expires within the leeway"@))
            &&& success && parsed is Err ==> (outcome matches Err(error) && error
                == ErrorView::Schema(parsed->Err_0@))
            &&& refused ==> (outcome matches Err(error) && error == ErrorView::Auth(reply.body@))
            &&& !success && !refused ==> (outcome matches Err(error) && error == (
            ErrorView::Server { status: reply.status, body: reply.body@ }))
        }),
{
}

/// A fresh token in the cache is used at once; without one, the lock is taken,
/// then the table is read, and a fresh token there is used and cached. Only then
/// is the endpoint asked, and what it grants is stored, cached and used.
pub proof fn law_tokens_come_from_cache_table_and_endpoint(
    client: ClientView,
    stored: Option<CachedToken>,
    reply: ApiReply,
    parsed: Result<TokenResponse, String>,
    now: int,
)
    ensures
        ({
            let cached = client.cache matches Some(token) && token.expires_at >= now + 60;
            let kept = stored matches Some(token) && token.expires_at >= now + 60;
            &&& cached ==> token_step(client, TokenEvent::Wanted, now) == (
                client,
                TokenActionView::Done(client.cache->0.access_token),
            )
            &&& cached ==> token_step(client, TokenEvent::Locked, now) == (
                client,
                TokenActionView::Done(client.cache->0.access_token),
            )
            &&& !cached ==> token_step(client, TokenEvent::Wanted, now) == (
                client,
                TokenActionView::Lock,
            )
            &&& !cached ==> token_step(client, TokenEvent::Locked, now) == (
                client,
                TokenActionView::LoadStored,
            )
            &&& kept ==> {
                let (after, action) = token_step(client, TokenEvent::Stored(stored), now);
                &&& action == TokenActionView::Done(stored->0.access_token@)
                &&& after == (ClientView { cache: Some(stored->0@), ..client })
            }
            &&& !kept ==> token_step(client, TokenEvent::Stored(stored), now) == (
                client,
                TokenActionView::Fetch(client.token_request()),
            )
            &&& token_outcome(reply, parsed, now) is Ok ==> token_step(
                client,
                TokenEvent::Replied(reply, parsed),
                now,
            ) == (client, TokenActionView::Save(token_outcome(reply, parsed, now)->Ok_0))
            &&& kept ==> {
                let (after, action) = token_step(client, TokenEvent::Saved(stored->0), now);
                &&& action == TokenActionView::Done(stored->0.access_token@)
                &&& after == (ClientView { cache: Some(stored->0@), ..client })
            }
            &&& stored is Some && !kept ==> token_step(client, TokenEvent::Saved(stored->0), now)
                == (client, TokenActionView::Fail(too_short_lived()))
        }),
{
}

/// What is to be done for a token is seen with all that belongs to it, and a token
/// that expires too soon is refused as such.
pub proof fn law_token_actions_are_seen_whole(action: TokenAction)
    ensures
        action is Lock ==> action@ == TokenActionView::Lock,
        action is LoadStored ==> action@ == TokenActionView::LoadStored,
        action matches TokenAction::Fetch(request) ==> action@ == TokenActionView::Fetch(request@),
        action matches TokenAction::Save(token) ==> action@ == TokenActionView::Save(token@),
        action matches TokenAction::Done(text) ==> action@ == TokenActionView::Done(text@),
        action matches TokenAction::Fail(error) ==> action@ == TokenActionView::Fail(error@),
        too_short_lived() == ErrorView::Schema("token expires within the leeway"@),
{
}

/// What the loop of a worker does after each event, unless a shutdown is asked for:
/// another pass at once where the last one found events, a wait where it found none
/// or failed, and a pass when the wait is over.
pub proof fn law_loop_steps(event: LoopEvent)
    ensures
        event matches LoopEvent::Ticked(count) && count > 0 ==> step_after(event) == LoopStep::Tick,
        event == LoopEvent::Ticked(0) ==> step_after(event) == LoopStep::Wait,
        event is TickFailed ==> step_after(event) == LoopStep::Wait,
        event is Elapsed ==> step_after(event) == LoopStep::Tick,
        event == LoopEvent::ShutdownChanged(false) ==> step_after(event) == LoopStep::Tick,
        event == LoopEvent::ShutdownChanged(true) ==> step_after(event) == LoopStep::Stop,
        event is ShutdownLost ==> step_after(event) == LoopStep::Stop,
{
}

proof fn lemma_digits(n: nat)
    ensures
        digits(n).len() > 0,
        all_digits(digits(n)),
        digits_value(digits(n)) == n,
        digits(n)[0] != '+',
    decreases n,
{
    if n < 10 {
        let text = digits(n);
        assert(text.drop_last() =~= seq![]);
        assert(digits_value(text.drop_last()) == 0);
        assert(text.last() as int == 48 + n);
    } else {
        lemma_digits(n / 10);
        let text = digits(n);
        assert(text.drop_last() =~= digits(n / 10));
        assert(text.last() as int == 48 + n % 10);
        assert(text[0] == digits(n / 10)[0]);
        assert forall|i: int| 0 <= i < text.len() implies '0' <= #[trigger] text[i] <= '9' by {
            if i < text.len() - 1 {
                assert(text[i] == digits(n / 10)[i]);
            }
        }
    }
}

/// A number is read back from how it is written, with a plus sign before it or
/// without.
pub proof fn law_numbers_are_read_back(n: u64)
    ensures
        unsigned_value(decimal(n as int)) == Some(n),
        unsigned_value(seq!['+'] + decimal(n as int)) == Some(n),
{
    lemma_digits(n as nat);
    assert((seq!['+'] + decimal(n as int)).drop_first() =~= decimal(n as int));
}

/// Numbers are written in decimal: digit by digit, with a minus sign before a
/// negative one.
pub proof fn law_numbers_are_written_in_decimal(n: int, d: int)
    requires
        n >= 0,
        0 <= d <= 9,
    ensures
        decimal(d).len() == 1 && decimal(d)[0] as int == '0' as int + d,
        n > 0 ==> decimal(10 * n + d) == decimal(n) + decimal(d),
        n > 0 ==> decimal(-n) == seq!['-'] + decimal(n),
{
    if n > 0 {
        let m = (10 * n + d) as nat;
        assert(m / 10 == n && m % 10 == d);
        assert(digits(m) =~= digits(n as nat) + digits(d as nat));
    }
}

/// A text with anything but digits behind an optional plus sign, or with nothing
/// there, is no number.
pub proof fn law_other_texts_are_no_numbers(text: Seq<char>, i: int)
    requires
        text.len() == 0 || text == seq!['+'] || (0 <= i < text.len() && !('0' <= text[i] <= '9')
            && !(i == 0 && text[i] == '+')),
    ensures
        unsigned_value(text) is None,
{
    let body = if text.len() > 0 && text.first() == '+' {
        text.drop_first()
    } else {
        text
    };
    if body.len() > 0 {
        let k = if text.first() == '+' {
            i - 1
        } else {
            i
        };
        assert(body[k] == text[i]);
        assert(!all_digits(body));
    }
}

/// A switch is on for `1`, `true` and `yes`, in capitals or not and with white space
/// around it, and for nothing else.
pub proof fn law_switches_are_on_for_three_words(text: Seq<char>)
    ensures
        ascii_lowered(trimmed(text)) == "1"@ ==> is_on(text),
        ascii_lowered(trimmed(text)) == "true"@ ==> is_on(text),
        ascii_lowered(trimmed(text)) == "yes"@ ==> is_on(text),
        is_on(text) ==> ascii_lowered(trimmed(text)) == "1"@ || ascii_lowered(trimmed(text))
            == "true"@ || ascii_lowered(trimmed(text)) == "yes"@,
{
}

/// A setting is read without the white space around it and in lower case.
pub proof fn law_settings_are_read_plainly(text: Seq<char>)
    ensures
        plain(text) == ascii_lowered(trimmed(text)),
{
}

/// Lower case is that of `A` to `Z`, letter by letter; all else stays.
pub proof fn law_lower_case_is_letter_by_letter(text: Seq<char>, i: int)
    requires
        0 <= i < text.len(),
    ensures
        ascii_lowered(text).len() == text.len(),
        ascii_lowered(text)[i] == ascii_lower(text[i]),
        'A' <= text[i] <= 'Z' ==> ascii_lowered(text)[i] as int == text[i] as int + 32,
        !('A' <= text[i] <= 'Z') ==> ascii_lowered(text)[i] == text[i],
{
}

/// The canonical text is the serializer's, and its error is told as one of
/// canonicalisation.
pub proof fn law_canonical_text_is_the_serializers(jcs: Result<Seq<char>, Seq<char>>)
    ensures
        jcs is Ok ==> (canonical_outcome(jcs) matches Ok(text) && text == jcs->Ok_0),
        jcs is Err ==> (canonical_outcome(jcs) matches Err(error) && error
            == DomainErrorView::Canonicalize(jcs->Err_0)),
{
}

/// Each error of the domain has its words.
pub proof fn law_domain_errors_have_words(error: DomainError)
    ensures
        error matches DomainError::Canonicalize(why) ==> error@.message()
            == "canonicalisation failed: "@ + why@,
        error matches DomainError::Sign(why) ==> error@.message() == "signing failed: "@ + why@,
        error matches DomainError::InvalidInvoice(why) ==> error@.message()
            == "invalid invoice payload: "@ + why@,
{
}

} // verus!
