//! Requests to LHDN, replies, and access tokens.

use einvoice_bridge::lhdn::client::{
    classify_error, ensure_success, granted_token, parse_json_success, retry_after_seconds,
    taxpayer_verdict, ApiReply, ApiRequest, HttpMethod, LhdnClient, LhdnConfig, RequestBody,
    TokenAction, TokenEvent,
};
use einvoice_bridge::lhdn::error::LhdnError;
use einvoice_bridge::lhdn::models::{
    AcceptedDocument, IdScheme, LhdnErrorEnvelope, SubmissionDocument, SubmissionFormat,
    SubmissionResponse, TokenResponse,
};
use einvoice_bridge::lhdn::oauth::CachedToken;
use einvoice_bridge::lhdn::token_repo::OauthTokenStore;
use einvoice_bridge::lhdn::LhdnEnv;

const NOW: i64 = 1_777_213_800;

fn cfg() -> LhdnConfig {
    LhdnConfig {
        base_url: "https://lhdn.test".into(),
        client_id: "test-client".into(),
        client_secret: "test-secret".into(),
        env_name: "preprod".into(),
        scope: "InvoicingAPI".into(),
    }
}

fn reply(status: u16, body: &str) -> ApiReply {
    ApiReply { status, body: body.into(), retry_after: None, envelope: None }
}

fn granted(token: &str) -> TokenResponse {
    TokenResponse {
        access_token: token.into(),
        expires_in: 3600,
        token_type: "Bearer".into(),
    }
}

fn done(action: TokenAction) -> String {
    match action {
        TokenAction::Done(token) => token,
        other => panic!("expected a token, got {other:?}"),
    }
}

/// Goes through the whole exchange for a token, and counts the fetches.
fn token_for(client: &mut LhdnClient, store: &mut OauthTokenStore, now: i64) -> (String, usize) {
    let mut fetches = 0;
    let mut event = TokenEvent::Wanted;
    loop {
        event = match client.access_token(event, now) {
            TokenAction::Lock => TokenEvent::Locked,
            TokenAction::LoadStored => TokenEvent::Stored(store.get(client.env_name())),
            TokenAction::Fetch(_) => {
                fetches += 1;
                TokenEvent::Replied(reply(200, ""), Ok(granted("tok-abc")))
            }
            TokenAction::Save(token) => {
                store.upsert(client.env_name(), &token.access_token, token.expires_at);
                TokenEvent::Saved(token)
            }
            TokenAction::Done(token) => return (token, fetches),
            TokenAction::Fail(error) => panic!("no token: {error:?}"),
        };
    }
}

#[test]
fn first_call_fetches_token_then_reuses_it_across_requests() {
    let mut client = LhdnClient::new(cfg());
    let mut store = OauthTokenStore::new();
    assert_eq!(token_for(&mut client, &mut store, NOW), ("tok-abc".to_string(), 1));
    assert_eq!(token_for(&mut client, &mut store, NOW + 1), ("tok-abc".to_string(), 0));
    let request = client.get_document_details("tok-abc", "uuid-1");
    assert_eq!(request.method, HttpMethod::Get);
    assert_eq!(request.url, "https://lhdn.test/api/v1.0/documents/uuid-1/details");
    assert_eq!(request.bearer.as_deref(), Some("tok-abc"));
}

#[test]
fn token_persisted_to_oauth_tokens_after_refresh() {
    let mut client = LhdnClient::new(cfg());
    let mut store = OauthTokenStore::new();
    token_for(&mut client, &mut store, NOW);
    let stored = store.get("preprod").expect("token row");
    assert_eq!(stored.access_token, "tok-abc");
    assert_eq!(stored.expires_at, NOW + 3600);
}

#[test]
fn fresh_client_with_valid_db_token_skips_oauth_fetch() {
    let mut client = LhdnClient::new(cfg());
    let mut store = OauthTokenStore::new();
    store.upsert("preprod", "prefilled", NOW + 3600);
    assert_eq!(token_for(&mut client, &mut store, NOW), ("prefilled".to_string(), 0));
}

#[test]
fn near_expiry_db_token_triggers_oauth_refresh() {
    let mut client = LhdnClient::new(cfg());
    let mut store = OauthTokenStore::new();
    // Within the 60s leeway: considered stale.
    store.upsert("preprod", "old-token", NOW + 30);
    assert_eq!(token_for(&mut client, &mut store, NOW), ("tok-abc".to_string(), 1));
}

#[test]
fn token_is_fresh_up_to_the_leeway() {
    for (expires_at, fresh) in [
        (1060, true),
        (1061, true),
        (4600, true),
        (1059, false),
        (1030, false),
        (1000, false),
        (940, false),
    ] {
        let token = CachedToken { access_token: "t".into(), expires_at };
        assert_eq!(token.is_fresh_at(1000), fresh, "expires at {expires_at}");
    }
    let ancient = CachedToken { access_token: "t".into(), expires_at: 0 };
    assert!(!ancient.is_fresh());
    let lasting = CachedToken { access_token: "t".into(), expires_at: 300_000_000_000 };
    assert!(lasting.is_fresh());
}

#[test]
fn a_token_is_refreshed_once_it_is_stale() {
    let mut client = LhdnClient::new(cfg());
    let mut store = OauthTokenStore::new();
    token_for(&mut client, &mut store, NOW);
    assert_eq!(client.peek_fresh_cache(NOW).as_deref(), Some("tok-abc"));
    assert_eq!(client.peek_fresh_cache(NOW + 3600), None);
    assert_eq!(token_for(&mut client, &mut store, NOW + 3600).1, 1);
}

#[test]
fn a_waiter_finds_the_token_that_another_fetched() {
    let mut client = LhdnClient::new(cfg());
    assert!(matches!(client.access_token(TokenEvent::Wanted, NOW), TokenAction::Lock));
    let token = CachedToken { access_token: "theirs".into(), expires_at: NOW + 3600 };
    assert_eq!(done(client.access_token(TokenEvent::Saved(token), NOW)), "theirs");
    assert_eq!(done(client.access_token(TokenEvent::Locked, NOW)), "theirs");
}

#[test]
fn the_token_request_is_a_form() {
    let mut client = LhdnClient::new(cfg());
    let request = match client.access_token(TokenEvent::Stored(None), NOW) {
        TokenAction::Fetch(request) => request,
        other => panic!("expected a fetch, got {other:?}"),
    };
    assert_eq!(request.method, HttpMethod::Post);
    assert_eq!(request.url, "https://lhdn.test/connect/token");
    assert_eq!(request.bearer, None);
    let form = match request.body {
        RequestBody::Form(form) => form,
        other => panic!("expected a form, got {other:?}"),
    };
    let pair = |a: &str, b: &str| (a.to_string(), b.to_string());
    assert_eq!(
        form,
        vec![
            pair("client_id", "test-client"),
            pair("client_secret", "test-secret"),
            pair("grant_type", "client_credentials"),
            pair("scope", "InvoicingAPI"),
        ]
    );
}

#[test]
fn refused_tokens_are_classified() {
    for status in [400, 401, 403] {
        let outcome = granted_token(reply(status, "no"), Ok(granted("t")), NOW);
        assert!(matches!(outcome, Err(LhdnError::Auth(why)) if why == "no"));
    }
    let outcome = granted_token(reply(500, "down"), Ok(granted("t")), NOW);
    assert!(matches!(outcome, Err(LhdnError::Server { status: 500, .. })));
    let outcome = granted_token(reply(200, "{"), Err("eof".into()), NOW);
    assert!(matches!(outcome, Err(LhdnError::Schema(why)) if why == "eof"));
    let mut odd = granted("t");
    odd.token_type = "MAC".into();
    let error = granted_token(reply(200, ""), Ok(odd), NOW).unwrap_err();
    assert_eq!(
        error.message(),
        "response schema: expected token_type \"Bearer\", got \"MAC\""
    );
    let mut lower = granted("t");
    lower.token_type = "bearer".into();
    let error = granted_token(reply(200, ""), Ok(lower), NOW).unwrap_err();
    assert_eq!(
        error.message(),
        "response schema: expected token_type \"Bearer\", got \"bearer\""
    );
    let token = granted_token(reply(200, ""), Ok(granted("t")), NOW).unwrap();
    assert_eq!((token.access_token.as_str(), token.expires_at), ("t", NOW + 3600));
}

#[test]
fn a_token_that_is_about_to_expire_is_not_handed_out() {
    let mut client = LhdnClient::new(cfg());
    for (expires_in, ok) in [(60, true), (61, true), (59, false), (0, false), (-5, false)] {
        let mut short = granted("t");
        short.expires_in = expires_in;
        match client.access_token(TokenEvent::Replied(reply(200, ""), Ok(short)), NOW) {
            TokenAction::Save(token) => {
                assert!(ok, "{expires_in}");
                assert_eq!(token.expires_at, NOW + expires_in);
            }
            TokenAction::Fail(error) => {
                assert!(!ok, "{expires_in}");
                assert_eq!(error.message(), "response schema: token expires within the leeway");
            }
            other => panic!("unexpected {other:?}"),
        }
    }
    // Saving took until the token was about to expire.
    let token = CachedToken { access_token: "t".into(), expires_at: NOW + 60 };
    let action = client.access_token(TokenEvent::Saved(token), NOW + 1);
    assert!(matches!(action, TokenAction::Fail(LhdnError::Schema(_))));
    assert_eq!(client.peek_fresh_cache(NOW), None);
}

#[test]
fn a_refused_fetch_leaves_no_token_behind() {
    let mut client = LhdnClient::new(cfg());
    let store = OauthTokenStore::new();
    assert!(matches!(client.access_token(TokenEvent::Wanted, NOW), TokenAction::Lock));
    assert!(matches!(client.access_token(TokenEvent::Locked, NOW), TokenAction::LoadStored));
    let stored = store.get(client.env_name());
    assert!(matches!(
        client.access_token(TokenEvent::Stored(stored), NOW),
        TokenAction::Fetch(_)
    ));
    let refused = TokenEvent::Replied(reply(401, "no"), Err("no token".into()));
    assert!(matches!(
        client.access_token(refused, NOW),
        TokenAction::Fail(LhdnError::Auth(why)) if why == "no"
    ));
    assert!(store.get("preprod").is_none());
    assert_eq!(client.peek_fresh_cache(NOW), None);
}

#[test]
fn failures_on_the_way_to_a_token_are_reported() {
    let mut client = LhdnClient::new(cfg());
    assert!(matches!(
        client.access_token(TokenEvent::Unreachable("dns".into()), NOW),
        TokenAction::Fail(LhdnError::Transport(why)) if why == "dns"
    ));
    assert!(matches!(
        client.access_token(TokenEvent::StorageFailed("disk".into()), NOW),
        TokenAction::Fail(LhdnError::Storage(why)) if why == "disk"
    ));
}

#[test]
fn tokens_are_stored_per_environment() {
    let mut store = OauthTokenStore::new();
    store.upsert("preprod", "a", 1);
    store.upsert("prod", "b", 2);
    store.upsert("preprod", "c", 3);
    let preprod = store.get("preprod").unwrap();
    assert_eq!((preprod.access_token.as_str(), preprod.expires_at), ("c", 3));
    let prod = store.get("prod").unwrap();
    assert_eq!((prod.access_token.as_str(), prod.expires_at), ("b", 2));
    assert!(store.get("other").is_none());
}

fn document() -> SubmissionDocument {
    SubmissionDocument {
        format: SubmissionFormat::Json,
        document_hash: "hash".into(),
        code_number: "INV-1".into(),
        document: "base64-doc".into(),
    }
}

#[test]
fn submit_documents_happy_path() {
    let client = LhdnClient::new(cfg());
    let ApiRequest { method, url, bearer, query, body } =
        client.submit_documents("tok-abc", vec![document()]);
    assert_eq!(method, HttpMethod::Post);
    assert_eq!(url, "https://lhdn.test/api/v1.0/documentsubmissions");
    assert_eq!(bearer.as_deref(), Some("tok-abc"));
    assert!(query.is_empty());
    match body {
        RequestBody::Documents(docs) => {
            assert_eq!(docs.len(), 1);
            assert_eq!(docs[0].format, SubmissionFormat::Json);
            assert_eq!(docs[0].document_hash, "hash");
            assert_eq!(docs[0].code_number, "INV-1");
            assert_eq!(docs[0].document, "base64-doc");
        }
        other => panic!("expected documents, got {other:?}"),
    }
    let answer = SubmissionResponse {
        submission_uid: "sub-1".into(),
        accepted_documents: vec![AcceptedDocument {
            uuid: "u-1".into(),
            invoice_code_number: "INV-1".into(),
        }],
        rejected_documents: vec![],
    };
    let resp = parse_json_success(reply(202, "{}"), Ok(answer)).unwrap();
    assert_eq!(resp.submission_uid, "sub-1");
    assert_eq!(resp.accepted_documents.len(), 1);
    assert_eq!(resp.accepted_documents[0].invoice_code_number, "INV-1");
    assert!(resp.rejected_documents.is_empty());
}

#[test]
fn cancel_document_sends_correct_payload() {
    let client = LhdnClient::new(cfg());
    let request = client.cancel_document("tok-abc", "u", "wrong customer");
    assert_eq!(request.method, HttpMethod::Put);
    assert_eq!(request.url, "https://lhdn.test/api/v1.0/documents/state/u/state");
    match request.body {
        RequestBody::StateChange { status, reason } => {
            assert_eq!(status, "cancelled");
            assert_eq!(reason, "wrong customer");
        }
        other => panic!("expected a state change, got {other:?}"),
    }
    assert!(ensure_success(reply(200, "")).is_ok());
}

#[test]
fn validate_taxpayer_200_is_true_and_404_is_false() {
    let client = LhdnClient::new(cfg());
    let request = client.validate_taxpayer("tok-abc", "C123", IdScheme::Brn, "BRN-1");
    assert_eq!(request.method, HttpMethod::Get);
    assert_eq!(request.url, "https://lhdn.test/api/v1.0/taxpayer/validate/C123");
    assert_eq!(
        request.query,
        vec![
            ("idType".to_string(), "BRN".to_string()),
            ("idValue".to_string(), "BRN-1".to_string()),
        ]
    );
    assert!(taxpayer_verdict(reply(200, "")).unwrap());
    assert!(!taxpayer_verdict(reply(404, "")).unwrap());
    assert!(matches!(taxpayer_verdict(reply(500, "x")), Err(LhdnError::Server { .. })));
}

#[test]
fn id_schemes_have_wire_values() {
    assert_eq!(IdScheme::Nric.as_str(), "NRIC");
    assert_eq!(IdScheme::Passport.as_str(), "PASSPORT");
    assert_eq!(IdScheme::Brn.as_str(), "BRN");
    assert_eq!(IdScheme::Army.as_str(), "ARMY");
}

fn with_envelope(status: u16, message: &str) -> ApiReply {
    ApiReply {
        status,
        body: "{}".into(),
        retry_after: None,
        envelope: Some(LhdnErrorEnvelope {
            code: "Unauthorized".into(),
            message: message.into(),
            target: None,
            details: vec![],
        }),
    }
}

#[test]
fn endpoint_401_maps_to_auth_error_not_transient() {
    let err = ensure_success(with_envelope(401, "token rejected")).unwrap_err();
    assert!(matches!(&err, LhdnError::Auth(why) if why == "token rejected"), "got {err:?}");
    assert!(!err.is_transient());
    assert!(matches!(classify_error(with_envelope(403, "x")), LhdnError::Auth(_)));
}

#[test]
fn server_5xx_classified_as_transient() {
    let err = ensure_success(reply(503, "backend down")).unwrap_err();
    match &err {
        LhdnError::Server { status, body } => {
            assert_eq!(*status, 503);
            assert_eq!(body, "backend down");
        }
        other => panic!("expected Server, got {other:?}"),
    }
    assert!(err.is_transient());
}

#[test]
fn bad_request_preserves_lhdn_error_envelope() {
    let mut answer = with_envelope(400, "TIN format wrong");
    answer.envelope = Some(LhdnErrorEnvelope {
        code: "DocumentInvalid".into(),
        message: "TIN format wrong".into(),
        target: Some("issuerTin".into()),
        details: vec![serde_json::Value::from("expected C-prefix")],
    });
    let err = ensure_success(answer).unwrap_err();
    match &err {
        LhdnError::BadRequest(env) => {
            assert_eq!(env.code, "DocumentInvalid");
            assert!(env.message.contains("TIN"));
            assert_eq!(env.target.as_deref(), Some("issuerTin"));
            assert_eq!(env.details.len(), 1);
        }
        other => panic!("expected BadRequest, got {other:?}"),
    }
    assert!(!err.is_transient());
}

#[test]
fn replies_without_an_envelope_get_one() {
    match classify_error(reply(422, "plain text")) {
        LhdnError::BadRequest(env) => {
            assert_eq!(env.code, "HTTP422");
            assert_eq!(env.message, "plain text");
            assert_eq!(env.target, None);
            assert!(env.details.is_empty());
        }
        other => panic!("expected BadRequest, got {other:?}"),
    }
    assert!(matches!(classify_error(reply(404, "")), LhdnError::NotFound));
    assert!(matches!(classify_error(reply(409, "")), LhdnError::Conflict(_)));
    assert!(matches!(classify_error(reply(418, "")), LhdnError::Server { status: 418, .. }));
}

#[test]
fn rate_limits_carry_the_hint() {
    let mut answer = reply(429, "");
    answer.retry_after = retry_after_seconds(Some("17"));
    match classify_error(answer) {
        LhdnError::RateLimited { retry_after } => {
            assert_eq!(retry_after, Some(std::time::Duration::from_secs(17)));
        }
        other => panic!("expected RateLimited, got {other:?}"),
    }
    assert!(matches!(
        classify_error(reply(429, "")),
        LhdnError::RateLimited { retry_after: None }
    ));
}

#[test]
fn retry_after_is_an_unsigned_number() {
    assert_eq!(retry_after_seconds(None), None);
    assert_eq!(retry_after_seconds(Some("0")), Some(0));
    assert_eq!(retry_after_seconds(Some("+5")), Some(5));
    assert_eq!(retry_after_seconds(Some("18446744073709551615")), Some(u64::MAX));
    assert_eq!(retry_after_seconds(Some("18446744073709551616")), None);
    assert_eq!(retry_after_seconds(Some("")), None);
    assert_eq!(retry_after_seconds(Some("-1")), None);
    assert_eq!(retry_after_seconds(Some("Wed, 21 Oct 2026 07:28:00 GMT")), None);
}

#[test]
fn unreadable_bodies_are_schema_errors() {
    let outcome: Result<u8, LhdnError> = parse_json_success(reply(200, "?"), Err("bad".into()));
    assert!(matches!(outcome, Err(LhdnError::Schema(why)) if why == "bad"));
    let outcome: Result<u8, LhdnError> = parse_json_success(reply(500, "?"), Ok(1));
    assert!(matches!(outcome, Err(LhdnError::Server { .. })));
}

#[test]
fn environments_have_addresses() {
    assert_eq!(LhdnEnv::Preprod.base_url(), "https://preprod-api.myinvois.hasil.gov.my");
    assert_eq!(LhdnEnv::Prod.base_url(), "https://api.myinvois.hasil.gov.my");
    let config = LhdnConfig::for_env(LhdnEnv::Prod, "id".into(), "secret".into());
    assert_eq!(config.base_url, "https://api.myinvois.hasil.gov.my");
    assert_eq!(config.client_id, "id");
    assert_eq!(config.client_secret, "secret");
    assert_eq!(config.env_name, "prod");
    assert_eq!(config.scope, "InvoicingAPI");
}
