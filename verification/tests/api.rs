//! The POS-facing API on the tables.

use einvoice_bridge::api::{
    accept_cancellation, accept_invoice, cancel_invoice, get_invoice, healthz, payload_ref,
    required_text, submit_invoice, submit_invoice_at, ApiError,
};
use einvoice_bridge::invoice::{InvoiceRecord, InvoiceStatus};
use einvoice_bridge::repo::{CancelError, EventKind, InvoiceRepo, RepoError};
use serde_json::Value;

const NOW: i64 = 1_777_213_800;

fn parsed(text: &str) -> Value {
    serde_json::from_str(text).unwrap()
}

fn refusal<T>(answer: Result<T, ApiError>) -> (u16, String) {
    match answer {
        Ok(_) => panic!("must be refused"),
        Err(error) => error.into_response(),
    }
}

fn kinds(repo: &InvoiceRepo) -> Vec<&'static str> {
    repo.events().iter().map(|e| e.kind.as_str()).collect()
}

/// A `Valid` invoice with a cancellation window: the only state that can be
/// cancelled.
fn seed_valid(repo: &mut InvoiceRepo, invoice_ref: &str, lhdn_uuid: &str, cancellable_until: i64) {
    assert!(repo.insert_invoice(InvoiceRecord {
        id: format!("id-{invoice_ref}"),
        invoice_ref: invoice_ref.into(),
        payload_json: "{}".into(),
        lhdn_status: InvoiceStatus::Valid,
        lhdn_submission_uid: None,
        lhdn_uuid: Some(lhdn_uuid.into()),
        lhdn_long_id: None,
        qr_url: Some("http://qr".into()),
        signature: None,
        ubl_xml: None,
        doc_digest: None,
        error_json: None,
        cancellation_reason: None,
        attempts: 0,
        created_at: NOW,
        updated_at: NOW,
        submitted_at: Some(NOW),
        validated_at: Some(NOW),
        cancelled_at: None,
        cancellable_until: Some(cancellable_until),
        next_attempt_at: None,
    }));
}

#[test]
fn submit_returns_202_with_pending_row() {
    let mut repo = InvoiceRepo::new(1);
    let payload = parsed(r#"{ "invoice_ref": "INV-T1", "amount": 100 }"#);
    let (status, row) = submit_invoice(&mut repo, &payload).unwrap();
    assert_eq!(status, 202);
    assert_eq!(row.invoice_ref, "INV-T1");
    assert_eq!(row.lhdn_status, "Pending");
    assert_eq!(row.attempts, 0);
    assert!(row.id.len() >= 32);
    assert!(row.lhdn_uuid.is_none());
    assert!(row.qr_url.is_none());
}

#[test]
fn submit_then_get_returns_same_row() {
    let mut repo = InvoiceRepo::new(1);
    let payload = parsed(r#"{ "invoice_ref": "INV-T2" }"#);
    let (_, posted) = submit_invoice(&mut repo, &payload).unwrap();
    let fetched = get_invoice(&repo, "INV-T2").unwrap();
    assert_eq!(fetched.id, posted.id);
    assert_eq!(fetched.lhdn_status, "Pending");
}

#[test]
fn missing_invoice_ref_returns_400() {
    let mut repo = InvoiceRepo::new(1);
    let (status, body) = refusal(submit_invoice(&mut repo, &parsed(r#"{"amount":100}"#)));
    assert_eq!(status, 400);
    assert_eq!(body, r#"{"error":"missing or empty `invoice_ref`"}"#);
    assert!(repo.events().is_empty());
}

#[test]
fn empty_invoice_ref_returns_400() {
    let mut repo = InvoiceRepo::new(1);
    assert_eq!(refusal(submit_invoice(&mut repo, &parsed(r#"{"invoice_ref":""}"#))).0, 400);
    assert_eq!(refusal(submit_invoice(&mut repo, &parsed(r#"{"invoice_ref":" \t"}"#))).0, 400);
    assert_eq!(refusal(submit_invoice(&mut repo, &parsed(r#"{"invoice_ref":7}"#))).0, 400);
    assert_eq!(refusal(submit_invoice(&mut repo, &parsed(r#"["invoice_ref"]"#))).0, 400);
}

#[test]
fn duplicate_invoice_ref_returns_409() {
    let mut repo = InvoiceRepo::new(1);
    let payload = parsed(r#"{ "invoice_ref": "INV-DUP" }"#);
    assert_eq!(submit_invoice(&mut repo, &payload).unwrap().0, 202);
    let (status, body) = refusal(submit_invoice(&mut repo, &payload));
    assert_eq!(status, 409);
    assert_eq!(body, r#"{"error":"invoice with this reference already exists"}"#);
    assert_eq!(kinds(&repo), vec!["submit"]);
}

#[test]
fn a_second_creation_is_refused_and_the_first_is_kept() {
    // The last number that an event can have.
    let mut repo = InvoiceRepo::new(i64::MAX - 1);
    repo.create_pending_at("first", "A", "{}", NOW).unwrap();
    for payload in ["{}", "[]"] {
        let refused = repo.create_pending("A", payload);
        assert!(matches!(refused, Err(RepoError::DuplicateRef)));
    }
    assert_eq!(repo.invoice("first").unwrap().payload_json, "{}");
    assert_eq!(kinds(&repo), vec!["submit"]);
}

#[test]
fn unknown_invoice_ref_returns_404() {
    let repo = InvoiceRepo::new(1);
    let (status, body) = refusal(get_invoice(&repo, "NOPE"));
    assert_eq!(status, 404);
    assert_eq!(body, r#"{"error":"invoice not found"}"#);
}

#[test]
fn submit_writes_outbox_event() {
    let mut repo = InvoiceRepo::new(41);
    let payload = parsed(r#"{ "invoice_ref": "INV-OUTBOX" }"#);
    let (_, row) = submit_invoice_at(&mut repo, &payload, "id-1", NOW).unwrap();
    assert_eq!(row.id, "id-1");
    assert_eq!(repo.events().len(), 1);
    let event = &repo.events()[0];
    assert_eq!(event.id, 41);
    assert_eq!(event.invoice_id, "id-1");
    assert_eq!(event.kind, EventKind::Submit);
    assert_eq!(event.available_at, NOW);
    assert_eq!(event.attempts, 0);
    assert_eq!(event.last_error, None);
}

#[test]
fn the_payload_is_stored_as_it_came() {
    let mut repo = InvoiceRepo::new(1);
    let payload = parsed(r#"{ "z": 1.50, "invoice_ref": "  INV-1 " }"#);
    submit_invoice_at(&mut repo, &payload, "id-1", NOW).unwrap();
    let row = repo.invoice("id-1").unwrap();
    assert_eq!(row.invoice_ref, "INV-1");
    assert_eq!(row.payload_json, r#"{"invoice_ref":"  INV-1 ","z":1.5}"#);
    assert_eq!(row.created_at, NOW);
    assert_eq!(row.updated_at, NOW);
    assert_eq!(row.next_attempt_at, Some(NOW));
}

#[test]
fn ids_are_version_7_uuids() {
    let mut repo = InvoiceRepo::new(1);
    let row = repo.create_pending("INV-1", "{}").unwrap();
    assert_eq!(row.id.len(), 36);
    assert_eq!(row.id.as_bytes()[14], b'7');
    assert_eq!(row.id, row.id.to_lowercase());
    assert!(row.created_at > 1_700_000_000);
    assert_eq!(row.updated_at, row.created_at);
}

#[test]
fn a_taken_id_is_a_conflict_too() {
    let mut repo = InvoiceRepo::new(1);
    accept_invoice(&mut repo, Some("A"), "{}", "same", NOW).unwrap();
    let error = accept_invoice(&mut repo, Some("B"), "{}", "same", NOW).unwrap_err();
    assert_eq!(error.status(), 409);
    assert!(get_invoice(&repo, "B").is_err());
}

#[test]
fn healthz_ok() {
    assert_eq!(healthz(), "ok");
}

#[test]
fn cancel_endpoint_enqueues_event_and_returns_202() {
    let mut repo = InvoiceRepo::new(1);
    seed_valid(&mut repo, "INV-CAN", "UUID-CAN", NOW + 60_000);
    let body = parsed(r#"{"reason":"wrong customer"}"#);
    let (status, row) = cancel_invoice(&mut repo, "INV-CAN", &body, NOW).unwrap();
    assert_eq!(status, 202);
    assert_eq!(row.invoice_ref, "INV-CAN");
    assert_eq!(kinds(&repo), vec!["cancel"]);
    let reason = repo.invoice("id-INV-CAN").unwrap().cancellation_reason.as_deref();
    assert_eq!(reason, Some("wrong customer"));
}

#[test]
fn cancel_endpoint_rejects_pending_invoice() {
    let mut repo = InvoiceRepo::new(1);
    repo.create_pending("INV-PEN", r#"{"invoice_ref":"INV-PEN"}"#).unwrap();
    let body = parsed(r#"{"reason":"x"}"#);
    let (status, body) = refusal(cancel_invoice(&mut repo, "INV-PEN", &body, NOW));
    assert_eq!(status, 422);
    assert_eq!(body, r#"{"error":"invoice cannot be cancelled in state Pending"}"#);
    assert_eq!(kinds(&repo), vec!["submit"]);
}

#[test]
fn cancel_endpoint_rejects_past_window() {
    let mut repo = InvoiceRepo::new(1);
    seed_valid(&mut repo, "INV-OLD", "UUID-OLD", NOW - 60);
    let body = parsed(r#"{"reason":"x"}"#);
    let (status, body) = refusal(cancel_invoice(&mut repo, "INV-OLD", &body, NOW));
    assert_eq!(status, 422);
    assert_eq!(body, r#"{"error":"invoice is past the LHDN cancellation window"}"#);
}

#[test]
fn the_window_closes_at_the_deadline() {
    let mut repo = InvoiceRepo::new(1);
    seed_valid(&mut repo, "A", "U", NOW);
    assert!(matches!(repo.request_cancellation("A", "x", NOW), Err(CancelError::PastWindow)));
    assert!(repo.request_cancellation("A", "x", NOW - 1).is_ok());
}

#[test]
fn cancel_endpoint_409s_on_duplicate_request() {
    let mut repo = InvoiceRepo::new(1);
    seed_valid(&mut repo, "INV-DUP", "UUID-DUP", NOW + 60_000);
    let r1 = cancel_invoice(&mut repo, "INV-DUP", &parsed(r#"{"reason":"a"}"#), NOW);
    assert_eq!(r1.unwrap().0, 202);
    let r2 = cancel_invoice(&mut repo, "INV-DUP", &parsed(r#"{"reason":"b"}"#), NOW);
    let (status, body) = refusal(r2);
    assert_eq!(status, 409);
    assert_eq!(body, r#"{"error":"a cancellation request is already pending"}"#);
    let reason = repo.invoice("id-INV-DUP").unwrap().cancellation_reason.as_deref();
    assert_eq!(reason, Some("a"));
}

#[test]
fn cancel_endpoint_400s_on_missing_reason() {
    let mut repo = InvoiceRepo::new(1);
    seed_valid(&mut repo, "INV-NR", "UUID-NR", NOW + 60_000);
    let (status, body) = refusal(cancel_invoice(&mut repo, "INV-NR", &parsed("{}"), NOW));
    assert_eq!(status, 400);
    assert_eq!(body, r#"{"error":"missing or empty `reason`"}"#);
}

#[test]
fn cancelling_an_unknown_invoice_is_404() {
    let mut repo = InvoiceRepo::new(1);
    let error = accept_cancellation(&mut repo, "NOPE", Some("x"), NOW).unwrap_err();
    assert_eq!(error.status(), 404);
}

#[test]
fn database_failures_are_internal() {
    let error = ApiError::from_repo(RepoError::Db("locked".into()));
    assert_eq!(error.into_response(), (500, r#"{"error":"internal error"}"#.to_string()));
    assert_eq!(ApiError::from_cancel(CancelError::Db("locked".into())).status(), 500);
    assert_eq!(RepoError::Db("locked".into()).message(), "database: locked");
    assert_eq!(RepoError::DuplicateRef.message(), "invoice_ref already exists");
}

#[test]
fn required_texts_are_trimmed_and_not_empty() {
    assert_eq!(required_text(None), None);
    assert_eq!(required_text(Some("")), None);
    assert_eq!(required_text(Some(" \u{a0}\u{3000}\n")), None);
    assert_eq!(required_text(Some("\t a b \u{2003}")), Some("a b"));
}

#[test]
fn statuses_and_kinds_are_read_back() {
    for status in [
        InvoiceStatus::Pending,
        InvoiceStatus::Submitted,
        InvoiceStatus::Valid,
        InvoiceStatus::Invalid,
        InvoiceStatus::Cancelled,
        InvoiceStatus::Failed,
    ] {
        assert_eq!(InvoiceStatus::from_text(status.as_str()), Some(status));
    }
    assert_eq!(InvoiceStatus::from_text("pending"), None);
    for kind in [EventKind::Submit, EventKind::Poll, EventKind::Cancel] {
        assert_eq!(EventKind::from_text(kind.as_str()), Some(kind));
    }
    assert_eq!(EventKind::from_text(""), None);
}

#[test]
fn stored_payloads_read_back() {
    let mut repo = InvoiceRepo::new(1);
    let payload = parsed(
        r#"{"invoice_ref":"A","n":[1.50,-0.0,1e30,18446744073709551615,0.1],"s":"\u0001\"é"}"#,
    );
    submit_invoice_at(&mut repo, &payload, "id", NOW).unwrap();
    let stored = &repo.invoice("id").unwrap().payload_json;
    assert_eq!(parsed(stored), payload);
    assert_eq!(parsed(stored).to_string(), *stored);
    assert_eq!(payload_ref(&payload), Some("A"));
}
