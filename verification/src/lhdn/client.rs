//! LHDN MyInvois HTTP client: which requests are sent, what a reply means, and
//! where an access token comes from.
//!
//! Sending a request, reading the token table and writing to it are left to the
//! caller, who performs the action that it is handed and reports what came back.

use std::time::Duration;
use vstd::prelude::*;
use super::error::{ErrorView, LhdnError};
use super::models::{
    EnvelopeView, IdScheme, LhdnErrorEnvelope, SubmissionDocument, SubmissionDocumentView,
    TokenResponse,
};
use super::oauth::{CachedToken, TokenView, TOKEN_LEEWAY};
use super::LhdnEnv;
use crate::text::{debug_quoted, debug_text, decimal, decimal_of};

verus! {

#[derive(Debug, Clone)]
pub struct LhdnConfig {
    /// Full base URL with no trailing slash.
    pub base_url: String,
    pub client_id: String,
    pub client_secret: String,
    /// Stable identifier used to scope cached tokens in the `oauth_tokens`
    /// table (`"preprod"` / `"prod"`).
    pub env_name: String,
    /// OAuth scope string. MyInvois currently uses `"InvoicingAPI"`.
    pub scope: String,
}

impl LhdnConfig {
    /// Build a config targeting one of the known LHDN environments, with
    /// LHDN's recommended scope. Change `scope` afterwards where another one is
    /// needed.
    pub fn for_env(env: LhdnEnv, client_id: String, client_secret: String) -> (config: Self)
        ensures
            config.base_url@ == env.base_url_text(),
            config.client_id@ == client_id@,
            config.client_secret@ == client_secret@,
            config.env_name@ == env.name_text(),
            config.scope@ == "InvoicingAPI"@,
    {
        LhdnConfig {
            base_url: env.base_url().to_owned(),
            client_id,
            client_secret,
            env_name: env.name().to_owned(),
            scope: "InvoicingAPI".to_owned(),
        }
    }
}

/// The HTTP methods that the API is called with.
#[derive(Debug, Clone, Copy, PartialEq, Eq, Structural)]
pub enum HttpMethod {
    Get,
    Post,
    Put,
}

/// What a request carries.
#[derive(Debug)]
pub enum RequestBody {
    Empty,
    /// A form, `application/x-www-form-urlencoded`.
    Form(Vec<(String, String)>),
    /// A JSON object with the documents under `documents`.
    Documents(Vec<SubmissionDocument>),
    /// A JSON object with the new state under `status`, and why, under `reason`.
    StateChange { status: String, reason: String },
}

/// A request to the API, ready to be sent.
#[derive(Debug)]
pub struct ApiRequest {
    pub method: HttpMethod,
    pub url: String,
    pub bearer: Option<String>,
    pub query: Vec<(String, String)>,
    pub body: RequestBody,
}

pub enum BodyView {
    Empty,
    Form(Seq<(Seq<char>, Seq<char>)>),
    Documents(Seq<SubmissionDocumentView>),
    StateChange { status: Seq<char>, reason: Seq<char> },
}

pub struct RequestView {
    pub method: HttpMethod,
    pub url: Seq<char>,
    pub bearer: Option<Seq<char>>,
    pub query: Seq<(Seq<char>, Seq<char>)>,
    pub body: BodyView,
}

/// Names and values of a form or a query.
pub open spec fn pair_texts(pairs: Seq<(String, String)>) -> Seq<(Seq<char>, Seq<char>)> {
    pairs.map_values(|pair: (String, String)| (pair.0@, pair.1@))
}

/// The documents of a batch.
pub open spec fn document_views(docs: Seq<SubmissionDocument>) -> Seq<SubmissionDocumentView> {
    docs.map_values(|doc: SubmissionDocument| doc@)
}

impl View for RequestBody {
    type V = BodyView;

    open spec fn view(&self) -> BodyView {
        match self {
            RequestBody::Empty => BodyView::Empty,
            RequestBody::Form(pairs) => BodyView::Form(pair_texts(pairs@)),
            RequestBody::Documents(docs) => BodyView::Documents(document_views(docs@)),
            RequestBody::StateChange { status, reason } => BodyView::StateChange {
                status: status@,
                reason: reason@,
            },
        }
    }
}

impl View for ApiRequest {
    type V = RequestView;

    open spec fn view(&self) -> RequestView {
        RequestView {
            method: self.method,
            url: self.url@,
            bearer: super::models::optional_text(self.bearer),
            query: pair_texts(self.query@),
            body: self.body@,
        }
    }
}

/// The API's reply to a request.
#[derive(Debug)]
pub struct ApiReply {
    pub status: u16,
    pub body: String,
    /// Seconds from the `Retry-After` header.
    pub retry_after: Option<u64>,
    /// The error that the body describes, where it is of the shape
    /// `{"error": {...}}`.
    pub envelope: Option<LhdnErrorEnvelope>,
}

/// Whether a status stands for success.
pub open spec fn is_success(status: u16) -> bool {
    200 <= status <= 299
}

/// The envelope that stands for a body without one.
pub open spec fn plain_envelope(status: u16, body: Seq<char>) -> EnvelopeView {
    EnvelopeView {
        code: "HTTP"@ + decimal(status as int),
        message: body,
        target: None,
        details: seq![],
    }
}

/// The error that a reply without success stands for.
pub open spec fn reply_error(
    status: u16,
    body: Seq<char>,
    retry_after: Option<u64>,
    envelope: EnvelopeView,
) -> ErrorView {
    if status == 401 || status == 403 {
        ErrorView::Auth(envelope.message)
    } else if status == 400 || status == 422 {
        ErrorView::BadRequest(envelope)
    } else if status == 404 {
        ErrorView::NotFound
    } else if status == 409 {
        ErrorView::Conflict(envelope)
    } else if status == 429 {
        ErrorView::RateLimited {
            retry_after_nanos: match retry_after {
                Some(secs) => Some((secs as nat * 1_000_000_000) as nat),
                None => None,
            },
        }
    } else {
        ErrorView::Server { status, body }
    }
}

impl ApiReply {
    /// The envelope in the body, or the one that stands for a body without one.
    pub open spec fn envelope_view(&self) -> EnvelopeView {
        match self.envelope {
            Some(envelope) => envelope@,
            None => plain_envelope(self.status, self.body@),
        }
    }

    /// The error that the reply stands for.
    pub open spec fn error(&self) -> ErrorView {
        reply_error(self.status, self.body@, self.retry_after, self.envelope_view())
    }

    /// Whether the status says that the request succeeded.
    pub fn succeeded(&self) -> (success: bool)
        ensures
            success == is_success(self.status),
    {
        200 <= self.status && self.status <= 299
    }
}

/// Sorts a reply without success into the kinds of error that the workers tell
/// apart.
pub fn classify_error(reply: ApiReply) -> (error: LhdnError)
    ensures
        error@ == reply.error(),
{
    let ApiReply { status, body, retry_after, envelope } = reply;
    let envelope = match envelope {
        Some(envelope) => envelope,
        None => {
            let envelope = LhdnErrorEnvelope {
                code: "HTTP".to_owned().concat(&decimal_of(status as u64)),
                message: body.clone(),
                target: None,
                details: Vec::new(),
            };
            assert(envelope@.details =~= seq![]);
            envelope
        },
    };
    match status {
        401 | 403 => LhdnError::Auth(envelope.message),
        400 | 422 => LhdnError::BadRequest(envelope),
        404 => LhdnError::NotFound,
        409 => LhdnError::Conflict(envelope),
        429 => LhdnError::RateLimited {
            retry_after: match retry_after {
                Some(secs) => Some(Duration::from_secs(secs)),
                None => None,
            },
        },
        _ => LhdnError::Server { status, body },
    }
}

/// What a reply with a JSON body amounts to. `parsed` is what the body holds, or
/// why it could not be read; it counts only where the status is one of success.
pub fn parse_json_success<T>(reply: ApiReply, parsed: Result<T, String>) -> (outcome: Result<
    T,
    LhdnError,
>)
    ensures
        match outcome {
            Ok(value) => is_success(reply.status) && parsed == Ok::<T, String>(value),
            Err(error) => if is_success(reply.status) {
                parsed matches Err(why) && error@ == ErrorView::Schema(why@)
            } else {
                error@ == reply.error()
            },
        },
{
    if reply.succeeded() {
        match parsed {
            Ok(value) => Ok(value),
            Err(why) => Err(LhdnError::Schema(why)),
        }
    } else {
        Err(classify_error(reply))
    }
}

/// What a reply amounts to where the body does not matter.
pub fn ensure_success(reply: ApiReply) -> (outcome: Result<(), LhdnError>)
    ensures
        match outcome {
            Ok(_) => is_success(reply.status),
            Err(error) => !is_success(reply.status) && error@ == reply.error(),
        },
{
    if reply.succeeded() {
        Ok(())
    } else {
        Err(classify_error(reply))
    }
}

/// Whether the taxpayer is known: yes on success, no on 404, otherwise an error.
pub fn taxpayer_verdict(reply: ApiReply) -> (outcome: Result<bool, LhdnError>)
    ensures
        match outcome {
            Ok(known) => if known {
                is_success(reply.status)
            } else {
                reply.status == 404
            },
            Err(error) => !is_success(reply.status) && reply.status != 404 && error@
                == reply.error(),
        },
{
    if reply.succeeded() {
        return Ok(true);
    }
    if reply.status == 404 {
        return Ok(false);
    }
    Err(classify_error(reply))
}

/// Reads the `Retry-After` header: seconds, as an unsigned number.
pub fn retry_after_seconds(header: Option<&str>) -> (seconds: Option<u64>)
    ensures
        seconds == (match header {
            Some(text) => crate::text::unsigned_value(text@),
            None => None,
        }),
{
    match header {
        Some(text) => crate::text::parse_u64(text),
        None => None,
    }
}

/// Something that happened on the way to an access token.
#[derive(Debug)]
pub enum TokenEvent {
    /// A caller wants a token.
    Wanted,
    /// The refresh lock is held: no other caller is refreshing.
    Locked,
    /// What the token table holds for the environment.
    Stored(Option<CachedToken>),
    /// The OAuth endpoint replied. The second part is what the body holds, or
    /// why it could not be read.
    Replied(ApiReply, Result<TokenResponse, String>),
    /// The token has been written to the token table.
    Saved(CachedToken),
    /// The OAuth endpoint could not be reached.
    Unreachable(String),
    /// The token table could not be read or written.
    StorageFailed(String),
}

/// What is to be done next on the way to an access token.
#[derive(Debug)]
pub enum TokenAction {
    /// Take the refresh lock.
    Lock,
    /// Read the token table.
    LoadStored,
    /// Send the request to the OAuth endpoint.
    Fetch(ApiRequest),
    /// Write the token to the token table.
    Save(CachedToken),
    /// Use this token.
    Done(String),
    /// Give up.
    Fail(LhdnError),
}

pub enum TokenActionView {
    Lock,
    LoadStored,
    Fetch(RequestView),
    Save(TokenView),
    Done(Seq<char>),
    Fail(ErrorView),
}

impl View for TokenAction {
    type V = TokenActionView;

    open spec fn view(&self) -> TokenActionView {
        match self {
            TokenAction::Lock => TokenActionView::Lock,
            TokenAction::LoadStored => TokenActionView::LoadStored,
            TokenAction::Fetch(request) => TokenActionView::Fetch(request@),
            TokenAction::Save(token) => TokenActionView::Save(token@),
            TokenAction::Done(text) => TokenActionView::Done(text@),
            TokenAction::Fail(error) => TokenActionView::Fail(error@),
        }
    }
}

/// The client: where it talks to, and the token it last used.
#[derive(Debug)]
pub struct LhdnClient {
    config: LhdnConfig,
    cache: Option<CachedToken>,
}

pub struct ClientView {
    pub base_url: Seq<char>,
    pub client_id: Seq<char>,
    pub client_secret: Seq<char>,
    pub env_name: Seq<char>,
    pub scope: Seq<char>,
    pub cache: Option<TokenView>,
}

impl View for LhdnClient {
    type V = ClientView;

    closed spec fn view(&self) -> ClientView {
        ClientView {
            base_url: self.config.base_url@,
            client_id: self.config.client_id@,
            client_secret: self.config.client_secret@,
            env_name: self.config.env_name@,
            scope: self.config.scope@,
            cache: match self.cache {
                Some(token) => Some(token@),
                None => None,
            },
        }
    }
}

impl ClientView {
    /// The cached token, where it is fresh.
    pub open spec fn fresh_cache(self, now: int) -> Option<Seq<char>> {
        match self.cache {
            Some(token) => if token.fresh_at(now) {
                Some(token.access_token)
            } else {
                None
            },
            None => None,
        }
    }

    /// The same client with another token in its cache.
    pub open spec fn with_cache(self, token: TokenView) -> ClientView {
        ClientView { cache: Some(token), ..self }
    }

    /// The request for a new token.
    pub open spec fn token_request(self) -> RequestView {
        RequestView {
            method: HttpMethod::Post,
            url: self.base_url + "/connect/token"@,
            bearer: None,
            query: seq![],
            body: BodyView::Form(
                seq![
                    ("client_id"@, self.client_id),
                    ("client_secret"@, self.client_secret),
                    ("grant_type"@, "client_credentials"@),
                    ("scope"@, self.scope),
                ],
            ),
        }
    }

    /// The request that delivers documents.
    pub open spec fn delivery_request(
        self,
        token: Seq<char>,
        docs: Seq<SubmissionDocumentView>,
    ) -> RequestView {
        RequestView {
            method: HttpMethod::Post,
            url: self.base_url + "/api/v1.0/documentsubmissions"@,
            bearer: Some(token),
            query: seq![],
            body: BodyView::Documents(docs),
        }
    }

    /// The request that asks how a document stands.
    pub open spec fn details_request(self, token: Seq<char>, uuid: Seq<char>) -> RequestView {
        RequestView {
            method: HttpMethod::Get,
            url: self.base_url + "/api/v1.0/documents/"@ + uuid + "/details"@,
            bearer: Some(token),
            query: seq![],
            body: BodyView::Empty,
        }
    }

    /// The request that cancels a document.
    pub open spec fn cancel_request(
        self,
        token: Seq<char>,
        uuid: Seq<char>,
        reason: Seq<char>,
    ) -> RequestView {
        RequestView {
            method: HttpMethod::Put,
            url: self.base_url + "/api/v1.0/documents/state/"@ + uuid + "/state"@,
            bearer: Some(token),
            query: seq![],
            body: BodyView::StateChange { status: "cancelled"@, reason },
        }
    }

    /// The request that asks whether a taxpayer is known.
    pub open spec fn taxpayer_request(
        self,
        token: Seq<char>,
        tin: Seq<char>,
        id_type: Seq<char>,
        id_value: Seq<char>,
    ) -> RequestView {
        RequestView {
            method: HttpMethod::Get,
            url: self.base_url + "/api/v1.0/taxpayer/validate/"@ + tin,
            bearer: Some(token),
            query: seq![("idType"@, id_type), ("idValue"@, id_value)],
            body: BodyView::Empty,
        }
    }
}

/// Why a token is refused that is about to expire.
pub open spec fn too_short_lived() -> ErrorView {
    ErrorView::Schema("token expires within the leeway"@)
}

/// The outcome of asking for a token: a token that expires `expires_in` seconds
/// after the reply, which is at least the leeway, or the error.
pub open spec fn token_outcome(
    reply: ApiReply,
    parsed: Result<TokenResponse, String>,
    now: int,
) -> Result<TokenView, ErrorView> {
    if reply.status == 401 || reply.status == 403 || reply.status == 400 {
        Err(ErrorView::Auth(reply.body@))
    } else if !is_success(reply.status) {
        Err(ErrorView::Server { status: reply.status, body: reply.body@ })
    } else {
        match parsed {
            Err(why) => Err(ErrorView::Schema(why@)),
            Ok(token) => if token.token_type@ != "Bearer"@ {
                Err(
                    ErrorView::Schema(
                        "expected token_type \"Bearer\", got "@ + debug_text(token.token_type@),
                    ),
                )
            } else if token.expires_in < TOKEN_LEEWAY {
                Err(too_short_lived())
            } else {
                Ok(
                    TokenView {
                        access_token: token.access_token@,
                        expires_at: now + token.expires_in,
                    },
                )
            },
        }
    }
}

/// What leads from an event to the next action and the client after it.
pub open spec fn token_step(client: ClientView, event: TokenEvent, now: int) -> (
    ClientView,
    TokenActionView,
) {
    match event {
        TokenEvent::Wanted => match client.fresh_cache(now) {
            Some(text) => (client, TokenActionView::Done(text)),
            None => (client, TokenActionView::Lock),
        },
        TokenEvent::Locked => match client.fresh_cache(now) {
            Some(text) => (client, TokenActionView::Done(text)),
            None => (client, TokenActionView::LoadStored),
        },
        TokenEvent::Stored(stored) => if stored is Some && stored->0@.fresh_at(now) {
            (client.with_cache(stored->0@), TokenActionView::Done(stored->0@.access_token))
        } else {
            (client, TokenActionView::Fetch(client.token_request()))
        },
        TokenEvent::Replied(reply, parsed) => match token_outcome(reply, parsed, now) {
            Ok(token) => (client, TokenActionView::Save(token)),
            Err(error) => (client, TokenActionView::Fail(error)),
        },
        TokenEvent::Saved(token) => if token@.fresh_at(now) {
            (client.with_cache(token@), TokenActionView::Done(token@.access_token))
        } else {
            (client, TokenActionView::Fail(too_short_lived()))
        },
        TokenEvent::Unreachable(why) => (
            client,
            TokenActionView::Fail(ErrorView::Transport(why@)),
        ),
        TokenEvent::StorageFailed(why) => (client, TokenActionView::Fail(ErrorView::Storage(why@))),
    }
}

/// Whether the instants that the step computes with fit an `i64`.
pub open spec fn token_step_fits(client: ClientView, event: TokenEvent, now: int) -> bool {
    match event {
        TokenEvent::Wanted | TokenEvent::Locked => client.cache matches Some(token)
            ==> token.time_left_fits(now),
        TokenEvent::Stored(stored) => stored matches Some(token) ==> token@.time_left_fits(now),
        TokenEvent::Replied(reply, parsed) => token_outcome(reply, parsed, now) matches Ok(token)
            ==> i64::MIN <= token.expires_at <= i64::MAX,
        TokenEvent::Saved(token) => token@.time_left_fits(now),
        _ => true,
    }
}

impl LhdnClient {
    /// A client that has no token yet.
    pub fn new(config: LhdnConfig) -> (client: Self)
        ensures
            client@ == (ClientView {
                base_url: config.base_url@,
                client_id: config.client_id@,
                client_secret: config.client_secret@,
                env_name: config.env_name@,
                scope: config.scope@,
                cache: None,
            }),
    {
        LhdnClient { config, cache: None }
    }

    /// The name under which the token table holds this client's token.
    pub fn env_name(&self) -> (name: &str)
        ensures
            name@ == self@.env_name,
    {
        self.config.env_name.as_str()
    }

    /// The cached token, where it is fresh.
    pub fn peek_fresh_cache(&self, now: i64) -> (token: Option<String>)
        requires
            self@.cache matches Some(cached) ==> cached.time_left_fits(now as int),
        ensures
            super::models::optional_text(token) == self@.fresh_cache(now as int),
    {
        match &self.cache {
            Some(cached) => if cached.is_fresh_at(now) {
                Some(cached.access_token.clone())
            } else {
                None
            },
            None => None,
        }
    }

    /// One step on the way to a token that is fresh: the in-memory cache first,
    /// then the token table, then the OAuth endpoint. Refreshes happen one at a
    /// time: the caller holds the lock from the `Lock` action until the end. A
    /// token that is handed out is valid for at least `TOKEN_LEEWAY`, and stands
    /// in the cache.
    pub fn access_token(&mut self, event: TokenEvent, now: i64) -> (action: TokenAction)
        requires
            token_step_fits(old(self)@, event, now as int),
        ensures
            (final(self)@, action@) == token_step(old(self)@, event, now as int),
            action@ is Done ==> (final(self)@.cache matches Some(token) && token.expires_at - now
                >= TOKEN_LEEWAY && action@ == TokenActionView::Done(token.access_token)),
    {
        match event {
            TokenEvent::Wanted => match self.peek_fresh_cache(now) {
                Some(text) => TokenAction::Done(text),
                None => TokenAction::Lock,
            },
            TokenEvent::Locked => match self.peek_fresh_cache(now) {
                Some(text) => TokenAction::Done(text),
                None => TokenAction::LoadStored,
            },
            TokenEvent::Stored(stored) => match stored {
                Some(token) => if token.is_fresh_at(now) {
                    let text = token.access_token.clone();
                    self.cache = Some(token);
                    TokenAction::Done(text)
                } else {
                    TokenAction::Fetch(self.fetch_token())
                },
                None => TokenAction::Fetch(self.fetch_token()),
            },
            TokenEvent::Replied(reply, parsed) => match granted_token(reply, parsed, now) {
                Ok(token) => TokenAction::Save(token),
                Err(error) => TokenAction::Fail(error),
            },
            TokenEvent::Saved(token) => {
                if !token.is_fresh_at(now) {
                    return TokenAction::Fail(
                        LhdnError::Schema("token expires within the leeway".to_owned()),
                    );
                }
                let text = token.access_token.clone();
                self.cache = Some(token);
                TokenAction::Done(text)
            },
            TokenEvent::Unreachable(why) => TokenAction::Fail(LhdnError::Transport(why)),
            TokenEvent::StorageFailed(why) => TokenAction::Fail(LhdnError::Storage(why)),
        }
    }

    /// The request for a new token.
    pub fn fetch_token(&self) -> (request: ApiRequest)
        ensures
            request@ == self@.token_request(),
    {
        let mut form: Vec<(String, String)> = Vec::new();
        form.push(("client_id".to_owned(), self.config.client_id.clone()));
        form.push(("client_secret".to_owned(), self.config.client_secret.clone()));
        form.push(("grant_type".to_owned(), "client_credentials".to_owned()));
        form.push(("scope".to_owned(), self.config.scope.clone()));
        let query: Vec<(String, String)> = Vec::new();
        assert(pair_texts(query@) =~= seq![]);
        proof {
            let expected = seq![
                ("client_id"@, self@.client_id),
                ("client_secret"@, self@.client_secret),
                ("grant_type"@, "client_credentials"@),
                ("scope"@, self@.scope),
            ];
            assert(pair_texts(form@) =~= expected);
        }
        ApiRequest {
            method: HttpMethod::Post,
            url: self.config.base_url.clone().concat("/connect/token"),
            bearer: None,
            query,
            body: RequestBody::Form(form),
        }
    }

    /// Submit a batch of UBL documents for validation and registration.
    pub fn submit_documents(&self, token: &str, docs: Vec<SubmissionDocument>) -> (request:
        ApiRequest)
        ensures
            request@ == (RequestView {
                method: HttpMethod::Post,
                url: self@.base_url + "/api/v1.0/documentsubmissions"@,
                bearer: Some(token@),
                query: seq![],
                body: BodyView::Documents(document_views(docs@)),
            }),
            request@ == self@.delivery_request(token@, document_views(docs@)),
    {
        let query: Vec<(String, String)> = Vec::new();
        assert(pair_texts(query@) =~= seq![]);
        ApiRequest {
            method: HttpMethod::Post,
            url: self.config.base_url.clone().concat("/api/v1.0/documentsubmissions"),
            bearer: Some(token.to_owned()),
            query,
            body: RequestBody::Documents(docs),
        }
    }

    /// Fetch full validation status and metadata for a previously submitted
    /// document.
    pub fn get_document_details(&self, token: &str, uuid: &str) -> (request: ApiRequest)
        ensures
            request@ == (RequestView {
                method: HttpMethod::Get,
                url: self@.base_url + "/api/v1.0/documents/"@ + uuid@ + "/details"@,
                bearer: Some(token@),
                query: seq![],
                body: BodyView::Empty,
            }),
            request@ == self@.details_request(token@, uuid@),
    {
        let query: Vec<(String, String)> = Vec::new();
        assert(pair_texts(query@) =~= seq![]);
        ApiRequest {
            method: HttpMethod::Get,
            url: self.config.base_url.clone().concat("/api/v1.0/documents/").concat(uuid).concat(
                "/details",
            ),
            bearer: Some(token.to_owned()),
            query,
            body: RequestBody::Empty,
        }
    }

    /// Cancel a document. Only valid within LHDN's cancellation window.
    pub fn cancel_document(&self, token: &str, uuid: &str, reason: &str) -> (request: ApiRequest)
        ensures
            request@ == (RequestView {
                method: HttpMethod::Put,
                url: self@.base_url + "/api/v1.0/documents/state/"@ + uuid@ + "/state"@,
                bearer: Some(token@),
                query: seq![],
                body: BodyView::StateChange { status: "cancelled"@, reason: reason@ },
            }),
            request@ == self@.cancel_request(token@, uuid@, reason@),
    {
        let query: Vec<(String, String)> = Vec::new();
        assert(pair_texts(query@) =~= seq![]);
        ApiRequest {
            method: HttpMethod::Put,
            url: self.config.base_url.clone().concat("/api/v1.0/documents/state/").concat(
                uuid,
            ).concat("/state"),
            bearer: Some(token.to_owned()),
            query,
            body: RequestBody::StateChange {
                status: "cancelled".to_owned(),
                reason: reason.to_owned(),
            },
        }
    }

    /// Validate a taxpayer by TIN and secondary id (NRIC/PASSPORT/BRN/ARMY).
    pub fn validate_taxpayer(
        &self,
        token: &str,
        tin: &str,
        id_scheme: IdScheme,
        id_value: &str,
    ) -> (request: ApiRequest)
        ensures
            request@ == (RequestView {
                method: HttpMethod::Get,
                url: self@.base_url + "/api/v1.0/taxpayer/validate/"@ + tin@,
                bearer: Some(token@),
                query: seq![("idType"@, id_scheme.wire_text()), ("idValue"@, id_value@)],
                body: BodyView::Empty,
            }),
            request@ == self@.taxpayer_request(
                token@,
                tin@,
                id_scheme.wire_text(),
                id_value@,
            ),
    {
        let mut query: Vec<(String, String)> = Vec::new();
        query.push(("idType".to_owned(), id_scheme.as_str().to_owned()));
        query.push(("idValue".to_owned(), id_value.to_owned()));
        proof {
            let expected = seq![("idType"@, id_scheme.wire_text()), ("idValue"@, id_value@)];
            assert(pair_texts(query@) =~= expected);
        }
        ApiRequest {
            method: HttpMethod::Get,
            url: self.config.base_url.clone().concat("/api/v1.0/taxpayer/validate/").concat(tin),
            bearer: Some(token.to_owned()),
            query,
            body: RequestBody::Empty,
        }
    }
}

/// The token that the OAuth endpoint granted, or why it did not.
pub fn granted_token(reply: ApiReply, parsed: Result<TokenResponse, String>, now: i64) -> (outcome:
    Result<CachedToken, LhdnError>)
    requires
        token_outcome(reply, parsed, now as int) matches Ok(token) ==> i64::MIN <= token.expires_at
            <= i64::MAX,
    ensures
        match outcome {
            Ok(token) => token_outcome(reply, parsed, now as int) == Ok::<TokenView, ErrorView>(
                token@,
            ),
            Err(error) => token_outcome(reply, parsed, now as int) == Err::<TokenView, ErrorView>(
                error@,
            ),
        },
{
    if reply.status == 401 || reply.status == 403 || reply.status == 400 {
        return Err(LhdnError::Auth(reply.body));
    }
    if !reply.succeeded() {
        return Err(LhdnError::Server { status: reply.status, body: reply.body });
    }
    match parsed {
        Err(why) => Err(LhdnError::Schema(why)),
        Ok(token) => {
            if !(*token.token_type.as_str() == *"Bearer") {
                return Err(
                    LhdnError::Schema(
                        "expected token_type \"Bearer\", got ".to_owned().concat(
                            &debug_quoted(&token.token_type),
                        ),
                    ),
                );
            }
            if token.expires_in < TOKEN_LEEWAY {
                return Err(LhdnError::Schema("token expires within the leeway".to_owned()));
            }
            Ok(CachedToken { access_token: token.access_token, expires_at: now + token.expires_in })
        },
    }
}

} // verus!
