//! The workers on the tables: submitter, poller, canceller.

use std::time::Duration;

use einvoice_bridge::domain::ubl::UblInvoice;
use einvoice_bridge::domain::SignedDocument;
use einvoice_bridge::invoice::{InvoiceRecord, InvoiceStatus};
use einvoice_bridge::lhdn::error::LhdnError;
use einvoice_bridge::lhdn::models::{
    AcceptedDocument, DocumentDetails, DocumentStatus, LhdnErrorEnvelope, RejectedDocument,
    SubmissionFormat, SubmissionResponse,
};
use einvoice_bridge::lhdn::LhdnEnv;
use einvoice_bridge::repo::{
    DueCancelEvent, DuePollEvent, DueSubmitEvent, EventKind, InvoiceRepo, OutboxEvent,
    SubmissionCompletion,
};
use einvoice_bridge::worker::canceller::check_preconditions;
use einvoice_bridge::worker::{Canceller, Poller, PollerConfig, Submitter, SubmitterConfig};

const NOW: i64 = 1_777_213_800;

// --- helpers -------------------------------------------------------------

fn payload_for(invoice_ref: &str) -> String {
    format!(
        r#"{{"currency":"MYR","invoice_ref":"{invoice_ref}","issue_date":"2026-04-26","issue_time":"14:30:00"}}"#
    )
}

fn record(invoice_ref: &str, status: InvoiceStatus) -> InvoiceRecord {
    InvoiceRecord {
        id: format!("id-{invoice_ref}"),
        invoice_ref: invoice_ref.into(),
        payload_json: "{}".into(),
        lhdn_status: status,
        lhdn_submission_uid: None,
        lhdn_uuid: None,
        lhdn_long_id: None,
        qr_url: None,
        signature: None,
        ubl_xml: None,
        doc_digest: None,
        error_json: None,
        cancellation_reason: None,
        attempts: 0,
        created_at: NOW,
        updated_at: NOW,
        submitted_at: None,
        validated_at: None,
        cancelled_at: None,
        cancellable_until: None,
        next_attempt_at: None,
    }
}

fn event(id: i64, invoice_id: &str, kind: EventKind, available_at: i64) -> OutboxEvent {
    OutboxEvent {
        id,
        invoice_id: invoice_id.into(),
        kind,
        available_at,
        attempts: 0,
        last_error: None,
    }
}

/// A `Pending` invoice with its `submit` event.
fn pending(invoice_ref: &str) -> InvoiceRepo {
    let mut repo = InvoiceRepo::new(1);
    repo.create_pending_at(&format!("id-{invoice_ref}"), invoice_ref, &payload_for(invoice_ref), NOW)
        .unwrap();
    repo
}

/// A `Submitted` invoice with a due `poll` event.
fn submitted(invoice_ref: &str, lhdn_uuid: &str) -> InvoiceRepo {
    let mut repo = InvoiceRepo::new(8);
    let mut row = record(invoice_ref, InvoiceStatus::Submitted);
    row.lhdn_uuid = Some(lhdn_uuid.into());
    row.submitted_at = Some(NOW);
    assert!(repo.insert_invoice(row));
    assert!(repo.insert_event(event(7, &format!("id-{invoice_ref}"), EventKind::Poll, NOW)));
    repo
}

/// A `Valid` invoice whose cancellation has been asked for.
fn to_cancel(invoice_ref: &str, lhdn_uuid: &str, cancellable_until: i64, reason: &str) -> InvoiceRepo {
    let mut repo = InvoiceRepo::new(1);
    let mut row = record(invoice_ref, InvoiceStatus::Valid);
    row.lhdn_uuid = Some(lhdn_uuid.into());
    row.qr_url = Some("http://qr".into());
    row.cancellable_until = Some(cancellable_until);
    row.submitted_at = Some(NOW);
    row.validated_at = Some(NOW);
    assert!(repo.insert_invoice(row));
    repo.request_cancellation(invoice_ref, reason, NOW).unwrap();
    repo
}

fn signed(code_number: &str) -> SignedDocument {
    SignedDocument {
        canonical_bytes: format!(r#"{{"UBLExtensions":[],"id":"{code_number}"}}"#).into_bytes(),
        document_hash: "hash".into(),
        code_number: code_number.into(),
        signature: "c2ln".into(),
    }
}

fn envelope(code: &str, message: &str) -> LhdnErrorEnvelope {
    LhdnErrorEnvelope { code: code.into(), message: message.into(), target: None, details: vec![] }
}

fn details(uuid: &str, status: DocumentStatus) -> DocumentDetails {
    DocumentDetails {
        uuid: uuid.into(),
        long_id: None,
        internal_id: "INV".into(),
        status,
        date_time_received: None,
        date_time_validated: None,
        cancel_date_time: None,
        document_status_reason: None,
    }
}

fn down() -> LhdnError {
    LhdnError::Server { status: 503, body: "down".into() }
}

fn answer(uid: &str, accepted: Vec<(&str, &str)>, rejected: Vec<(&str, LhdnErrorEnvelope)>) -> SubmissionResponse {
    SubmissionResponse {
        submission_uid: uid.into(),
        accepted_documents: accepted
            .into_iter()
            .map(|(uuid, code)| AcceptedDocument {
                uuid: uuid.into(),
                invoice_code_number: code.into(),
            })
            .collect(),
        rejected_documents: rejected
            .into_iter()
            .map(|(code, error)| RejectedDocument { invoice_code_number: code.into(), error })
            .collect(),
    }
}

/// One pass of the submitter, with LHDN answering every delivery alike.
fn submit_pass(
    submitter: &Submitter,
    repo: &mut InvoiceRepo,
    now: i64,
    reply: fn(&str) -> Result<SubmissionResponse, LhdnError>,
) -> usize {
    let due: Vec<DueSubmitEvent> = submitter.tick(repo, now);
    let count = due.len();
    for event in due {
        let invoice = submitter.process_event(repo, &event, now).expect("invoice");
        let built = Ok(signed(&invoice.invoice_ref));
        let (document, signed) =
            submitter.on_built(repo, &event, &invoice, built, now).expect("document");
        let answer = reply(&document.code_number);
        submitter.on_answer(repo, &event, invoice.attempts, &signed, answer, now).unwrap();
    }
    count
}

/// One pass of the poller, with LHDN answering every poll alike.
fn poll_pass(
    poller: &Poller,
    repo: &mut InvoiceRepo,
    now: i64,
    reply: fn(&str) -> Result<DocumentDetails, LhdnError>,
) -> usize {
    let due: Vec<DuePollEvent> = poller.tick(repo, now);
    let count = due.len();
    for event in due {
        let (invoice, uuid) = poller.process_event(repo, &event, now).expect("target");
        poller.on_answer(repo, &event, &invoice, reply(&uuid), now);
    }
    count
}

/// One pass of the canceller; gives what LHDN was asked for.
fn cancel_pass(
    canceller: &Canceller,
    repo: &mut InvoiceRepo,
    now: i64,
    reply: fn() -> Result<(), LhdnError>,
) -> Vec<(String, String)> {
    let due: Vec<DueCancelEvent> = canceller.tick(repo, now);
    let mut calls = vec![];
    for event in due {
        if let Some(call) = canceller.process_event(repo, &event, now) {
            calls.push(call);
            canceller.on_answer(repo, &event, reply(), now);
        }
    }
    calls
}

fn kinds(repo: &InvoiceRepo) -> Vec<&'static str> {
    repo.events().iter().map(|e| e.kind.as_str()).collect()
}

fn error_of(repo: &InvoiceRepo, invoice_ref: &str) -> String {
    repo.find_by_ref(invoice_ref).unwrap().error_json.unwrap()
}

fn status_of(repo: &InvoiceRepo, invoice_ref: &str) -> String {
    repo.find_by_ref(invoice_ref).unwrap().lhdn_status
}

// --- submitter -----------------------------------------------------------

#[test]
fn happy_path_submits_persists_and_clears_outbox() {
    let mut repo = pending("INV-T1");
    let processed = submit_pass(&Submitter::new(), &mut repo, NOW + 1, |code| {
        assert_eq!(code, "INV-T1");
        Ok(answer("SUB-1", vec![("UUID-1", "INV-T1")], vec![]))
    });
    assert_eq!(processed, 1);

    let row = repo.find_by_ref("INV-T1").expect("row");
    assert_eq!(row.lhdn_status, "Submitted");
    assert_eq!(row.lhdn_uuid.as_deref(), Some("UUID-1"));
    assert_eq!(row.attempts, 0); // happy path doesn't bump attempts
    assert!(row.error_json.is_none());

    // The submit outbox event is replaced by a fresh `poll` event so the
    // poller worker can take it from here.
    assert_eq!(kinds(&repo), vec!["poll"]);
    assert_eq!(repo.events()[0].available_at, NOW + 1);

    // The signed UBL doc, its signature and its digest land on the row.
    let stored = repo.invoice("id-INV-T1").unwrap();
    let ubl = stored.ubl_xml.as_deref().expect("ubl_xml populated");
    assert!(ubl.contains("UBLExtensions"), "stored doc should have signature block");
    assert!(ubl.contains("INV-T1"));
    assert_eq!(stored.signature.as_deref(), Some("c2ln"));
    assert_eq!(stored.doc_digest.as_deref(), Some("hash"));
    assert_eq!(stored.lhdn_submission_uid.as_deref(), Some("SUB-1"));
    assert_eq!(stored.submitted_at, Some(NOW + 1));
    assert_eq!(stored.next_attempt_at, None);
}

#[test]
fn the_delivered_document_is_base64() {
    let mut repo = pending("A");
    let submitter = Submitter::new();
    let event = submitter.tick(&repo, NOW).remove(0);
    let invoice = submitter.process_event(&mut repo, &event, NOW).unwrap();
    assert_eq!(invoice.id, "id-A");
    assert_eq!(invoice.payload_json, payload_for("A"));
    for (bytes, text) in [
        ("", ""),
        ("f", "Zg=="),
        ("fo", "Zm8="),
        ("foo", "Zm9v"),
        ("foob", "Zm9vYg=="),
        ("~~?>", "fn4/Pg=="),
        ("\u{ff}\u{7ff}", "w7/fvw=="),
    ] {
        let mut signed = signed("A");
        signed.canonical_bytes = bytes.as_bytes().to_vec();
        let (document, back) =
            submitter.on_built(&mut repo, &event, &invoice, Ok(signed), NOW).unwrap();
        assert_eq!(document.document, text);
        assert_eq!(document.format, SubmissionFormat::Json);
        assert_eq!(document.document_hash, "hash");
        assert_eq!(document.code_number, "A");
        assert_eq!(back.canonical_bytes, bytes.as_bytes());
    }
}

#[test]
fn auth_error_marks_failed_without_retry() {
    let mut repo = pending("INV-AUTH");
    submit_pass(&Submitter::new(), &mut repo, NOW, |_| Err(LhdnError::Auth("token rejected".into())));
    let row = repo.find_by_ref("INV-AUTH").unwrap();
    // 401 is non-transient: do not retry, surface to ops immediately.
    assert_eq!(row.lhdn_status, "Failed");
    assert_eq!(row.attempts, 1);
    assert_eq!(
        row.error_json.unwrap(),
        r#"{"attempts":1,"kind":"Auth","message":"auth: token rejected"}"#
    );
    assert!(repo.events().is_empty());
}

#[test]
fn transient_error_increments_attempts_and_keeps_outbox() {
    let mut repo = pending("INV-RET");
    submit_pass(&Submitter::new(), &mut repo, NOW + 5, |_| Err(down()));
    let row = repo.find_by_ref("INV-RET").unwrap();
    assert_eq!(row.lhdn_status, "Pending");
    assert_eq!(row.attempts, 1);
    assert_eq!(
        row.error_json.unwrap(),
        r#"{"attempts":1,"kind":"Server","message":"server error: status=503"}"#
    );
    // Outbox row preserved, available_at advanced by the first backoff step.
    let event = &repo.events()[0];
    assert_eq!(event.available_at, NOW + 5 + 30);
    assert_eq!(event.attempts, 1);
    assert_eq!(event.last_error.as_deref(), Some("server error: status=503"));
    assert_eq!(repo.invoice("id-INV-RET").unwrap().next_attempt_at, Some(NOW + 35));
}

#[test]
fn non_transient_error_marks_failed_and_clears_outbox() {
    let mut repo = pending("INV-BAD");
    submit_pass(&Submitter::new(), &mut repo, NOW, |_| {
        Err(LhdnError::BadRequest(envelope("BadDoc", "TIN format wrong")))
    });
    assert_eq!(status_of(&repo, "INV-BAD"), "Failed");
    assert!(error_of(&repo, "INV-BAD").contains("BadRequest"));
    assert!(repo.events().is_empty());
}

#[test]
fn lhdn_per_document_rejection_marks_failed() {
    let mut repo = pending("INV-REJ");
    submit_pass(&Submitter::new(), &mut repo, NOW, |_| {
        let mut error = envelope("Validation", "issuer TIN missing");
        error.details = vec![serde_json::Value::from("line 1"), serde_json::Value::from(2)];
        Ok(answer(
            "SUB-2",
            vec![],
            vec![("OTHER", envelope("Other", "not this one")), ("INV-REJ", error)],
        ))
    });
    let row = repo.find_by_ref("INV-REJ").unwrap();
    assert_eq!(row.lhdn_status, "Failed");
    assert_eq!(row.attempts, 0);
    assert_eq!(
        row.error_json.unwrap(),
        r#"{"code":"Validation","details":["line 1",2],"message":"issuer TIN missing","stage":"lhdn_rejection"}"#
    );
    assert!(repo.events().is_empty());
}

#[test]
fn max_attempts_exhaustion_marks_failed() {
    let mut repo = pending("INV-MAX");
    let submitter = Submitter::new().with_config(SubmitterConfig {
        poll_interval: Duration::from_millis(0),
        batch_size: 16,
        max_attempts: 2,
    });
    // First pass: attempts 0 -> 1, transient, rescheduled.
    submit_pass(&submitter, &mut repo, NOW, |_| Err(down()));
    let row = repo.find_by_ref("INV-MAX").unwrap();
    assert_eq!(row.lhdn_status, "Pending");
    assert_eq!(row.attempts, 1);
    assert_eq!(submit_pass(&submitter, &mut repo, NOW + 29, |_| Err(down())), 0);
    // Second pass: attempts 1 -> 2 == max_attempts, Failed.
    submit_pass(&submitter, &mut repo, NOW + 30, |_| Err(down()));
    let row = repo.find_by_ref("INV-MAX").unwrap();
    assert_eq!(row.lhdn_status, "Failed");
    assert_eq!(row.attempts, 2);
    assert!(repo.events().is_empty());
}

#[test]
fn future_dated_outbox_event_is_skipped() {
    let mut repo = InvoiceRepo::new(2);
    assert!(repo.insert_invoice(record("INV-FUT", InvoiceStatus::Pending)));
    // The row's outbox event lies 1h in the future.
    assert!(repo.insert_event(event(1, "id-INV-FUT", EventKind::Submit, NOW + 3600)));
    assert!(Submitter::new().tick(&repo, NOW).is_empty(), "future events must not be picked up");
    assert_eq!(Submitter::new().tick(&repo, NOW + 3600).len(), 1);
}

#[test]
fn an_outage_costs_only_time() {
    let mut repo = pending("INV-LATE");
    let submitter = Submitter::new();
    let mut now = NOW;
    for wait in [30, 120, 600, 3600, 3600, 3600, 3600] {
        assert_eq!(submit_pass(&submitter, &mut repo, now, |_| Err(down())), 1);
        assert_eq!(status_of(&repo, "INV-LATE"), "Pending");
        assert_eq!(repo.events()[0].available_at, now + wait);
        now += wait;
    }
    submit_pass(&submitter, &mut repo, now, |_| {
        Ok(answer("S", vec![("U", "INV-LATE")], vec![]))
    });
    let row = repo.find_by_ref("INV-LATE").unwrap();
    assert_eq!((row.lhdn_status.as_str(), row.attempts), ("Submitted", 7));
    assert!(row.error_json.is_none());
}

#[test]
fn a_payload_that_makes_no_document_fails() {
    let mut repo = pending("INV-X");
    let submitter = Submitter::new();
    let event = submitter.tick(&repo, NOW).remove(0);
    let invoice = submitter.process_event(&mut repo, &event, NOW).unwrap();
    let payload = submitter.build_doc(&invoice).unwrap();
    assert_eq!(payload.to_string(), invoice.payload_json);
    let why = match UblInvoice::from_pos_payload(&payload) {
        Ok(_) => panic!("no payload is supported"),
        Err(error) => error.message(),
    };
    assert_eq!(why, "invalid invoice payload: not yet implemented");
    assert!(submitter.on_built(&mut repo, &event, &invoice, Err(why), NOW).is_none());
    let row = repo.find_by_ref("INV-X").unwrap();
    assert_eq!((row.lhdn_status.as_str(), row.attempts), ("Failed", 0));
    assert_eq!(
        row.error_json.unwrap(),
        r#"{"error":"invalid invoice payload: not yet implemented","stage":"build_signed_document"}"#
    );
    assert!(repo.events().is_empty());
}

#[test]
fn a_payload_that_is_not_json_is_named() {
    let mut repo = InvoiceRepo::new(1);
    repo.create_pending_at("id", "A", "{", NOW).unwrap();
    let invoice = repo.load_for_submit("id").unwrap();
    let why = match Submitter::new().build_doc(&invoice) {
        Ok(_) => panic!("not JSON"),
        Err(why) => why,
    };
    assert!(why.contains("EOF"), "got {why}");
}

#[test]
fn an_orphan_submit_event_is_cleaned_up() {
    let mut repo = InvoiceRepo::new(5);
    assert!(repo.insert_event(event(4, "gone", EventKind::Submit, NOW)));
    let submitter = Submitter::new();
    let due = submitter.tick(&repo, NOW);
    assert!(submitter.process_event(&mut repo, &due[0], NOW).is_none());
    assert!(repo.events().is_empty());
}

#[test]
fn a_document_that_is_not_text_is_not_stored() {
    let mut repo = pending("A");
    let submitter = Submitter::new();
    let event = submitter.tick(&repo, NOW).remove(0);
    let mut document = signed("A");
    document.canonical_bytes = vec![0xff];
    let done = submitter.handle_success(&mut repo, &event, &document, answer("S", vec![], vec![]), NOW);
    assert!(done.is_err());
    assert_eq!(status_of(&repo, "A"), "Pending");
    assert_eq!(kinds(&repo), vec!["submit"]);
}

#[test]
fn a_document_that_lhdn_does_not_list_gets_no_uuid() {
    let mut repo = pending("A");
    submit_pass(&Submitter::new(), &mut repo, NOW, |_| {
        Ok(answer("S", vec![("U", "OTHER")], vec![]))
    });
    let row = repo.find_by_ref("A").unwrap();
    assert_eq!((row.lhdn_status.as_str(), row.lhdn_uuid.as_deref()), ("Submitted", Some("")));
    // There is nothing to ask LHDN for.
    let poller = Poller::new(LhdnEnv::Preprod);
    let due = poller.tick(&repo, NOW);
    assert!(poller.process_event(&mut repo, &due[0], NOW).is_none());
    assert!(repo.events().is_empty());
    assert_eq!(status_of(&repo, "A"), "Submitted");
    assert_eq!(
        error_of(&repo, "A"),
        r#"{"reason":"missing lhdn_uuid","stage":"poll_precondition"}"#
    );
}

// --- due events ----------------------------------------------------------

#[test]
fn due_events_come_earliest_first_and_limited() {
    let mut repo = InvoiceRepo::new(100);
    for (id, at, kind) in [
        (10, 5, EventKind::Submit),
        (11, 3, EventKind::Submit),
        (12, 3, EventKind::Poll),
        (3, 3, EventKind::Submit),
        (14, 9, EventKind::Submit),
        (15, 1, EventKind::Cancel),
        (16, 4, EventKind::Submit),
    ] {
        assert!(repo.insert_event(event(id, "x", kind, at)));
    }
    let ids = |limit| -> Vec<i64> {
        repo.due_submit_events(8, limit).iter().map(|e| e.outbox_id).collect()
    };
    assert_eq!(ids(16), vec![3, 11, 16, 10]);
    assert_eq!(ids(2), vec![3, 11]);
    assert_eq!(ids(0), Vec::<i64>::new());
    assert_eq!(ids(-1), vec![3, 11, 16, 10]);
    assert_eq!(repo.due_poll_events(3, 16).len(), 1);
    assert_eq!(repo.due_poll_events(2, 16).len(), 0);
    assert_eq!(repo.due_cancel_events(8, 16)[0].outbox_id, 15);
    assert_eq!(repo.due_cancel_events(8, 16)[0].invoice_id, "x");
}

#[test]
fn rows_are_taken_in_once() {
    let mut repo = InvoiceRepo::new(10);
    assert!(repo.insert_invoice(record("A", InvoiceStatus::Pending)));
    assert!(!repo.insert_invoice(record("A", InvoiceStatus::Valid)));
    let mut other = record("B", InvoiceStatus::Pending);
    other.id = "id-A".into();
    assert!(!repo.insert_invoice(other));
    assert!(repo.insert_event(event(9, "id-A", EventKind::Submit, 0)));
    assert!(!repo.insert_event(event(9, "id-A", EventKind::Poll, 0)));
    assert!(!repo.insert_event(event(10, "id-A", EventKind::Submit, 0)));
    assert_eq!(status_of(&repo, "A"), "Pending");
    assert_eq!(kinds(&repo), vec!["submit"]);
}

#[test]
fn changes_with_the_clock_are_those_at_a_time() {
    let mut repo = pending("A");
    repo.reschedule("id-A", 1, 3, NOW + 9, "{}", "why");
    let row = repo.invoice("id-A").unwrap();
    assert_eq!((row.attempts, row.next_attempt_at), (3, Some(NOW + 9)));
    assert!(row.updated_at > 1_700_000_000);
    assert_eq!(repo.events()[0].available_at, NOW + 9);

    let completion = SubmissionCompletion {
        submission_uid: "S",
        lhdn_uuid: "U",
        signature_b64: "sig",
        signed_document_utf8: "{}",
        document_hash_b64: "hash",
    };
    repo.complete_submission("id-A", 1, completion);
    assert_eq!(status_of(&repo, "A"), "Submitted");
    assert_eq!(kinds(&repo), vec!["poll"]);

    let mut repo = pending("B");
    repo.fail_permanently("id-B", 1, 2, r#"{"e":1}"#);
    let row = repo.find_by_ref("B").unwrap();
    assert_eq!((row.lhdn_status.as_str(), row.attempts), ("Failed", 2));
    assert_eq!(row.error_json.as_deref(), Some(r#"{"e":1}"#));
    assert!(repo.events().is_empty());
}

// --- poller --------------------------------------------------------------

#[test]
fn valid_response_sets_qr_url_and_cancellation_window() {
    let mut repo = submitted("INV-V", "UUID-V");
    let processed = poll_pass(&Poller::new(LhdnEnv::Preprod), &mut repo, NOW + 9, |uuid| {
        assert_eq!(uuid, "UUID-V");
        let mut found = details("UUID-V", DocumentStatus::Valid);
        found.long_id = Some("LONG-1".into());
        found.date_time_validated = Some("2026-04-26T14:30:00Z".into());
        Ok(found)
    });
    assert_eq!(processed, 1);
    let row = repo.find_by_ref("INV-V").expect("row");
    assert_eq!(row.lhdn_status, "Valid");
    assert_eq!(
        row.qr_url.as_deref(),
        Some("https://preprod.myinvois.hasil.gov.my/UUID-V/share/LONG-1")
    );
    // 72h cancellation window from the *validated* timestamp (2026-04-26 14:30Z).
    let stored = repo.invoice("id-INV-V").unwrap();
    let validated_at = 1_777_213_800;
    assert_eq!(stored.validated_at, Some(validated_at));
    assert_eq!(stored.cancellable_until, Some(validated_at + 72 * 60 * 60));
    assert_eq!(stored.lhdn_long_id.as_deref(), Some("LONG-1"));
    assert!(repo.events().is_empty());
}

#[test]
fn an_unreadable_date_counts_as_now() {
    let mut repo = submitted("A", "U");
    poll_pass(&Poller::new(LhdnEnv::Prod), &mut repo, NOW + 9, |_| {
        let mut found = details("U", DocumentStatus::Valid);
        found.date_time_validated = Some("yesterday".into());
        Ok(found)
    });
    let stored = repo.invoice("id-A").unwrap();
    assert_eq!(stored.validated_at, Some(NOW + 9));
    assert_eq!(stored.cancellable_until, Some(NOW + 9 + 259_200));
    assert_eq!(stored.qr_url.as_deref(), Some("https://myinvois.hasil.gov.my/U/share/"));
}

#[test]
fn dates_in_other_zones_are_understood() {
    let mut repo = submitted("A", "U");
    poll_pass(&Poller::new(LhdnEnv::Prod), &mut repo, NOW, |_| {
        let mut found = details("U", DocumentStatus::Valid);
        found.date_time_validated = Some("2026-04-26T22:30:00+08:00".into());
        Ok(found)
    });
    assert_eq!(repo.invoice("id-A").unwrap().validated_at, Some(1_777_213_800));
}

#[test]
fn invalid_response_marks_invalid_and_clears_outbox() {
    let mut repo = submitted("INV-I", "UUID-I");
    poll_pass(&Poller::new(LhdnEnv::Preprod), &mut repo, NOW, |_| {
        let mut found = details("UUID-I", DocumentStatus::Invalid);
        found.document_status_reason = Some("issuer TIN does not match".into());
        Ok(found)
    });
    assert_eq!(status_of(&repo, "INV-I"), "Invalid");
    assert_eq!(
        error_of(&repo, "INV-I"),
        r#"{"reason":"issuer TIN does not match","stage":"lhdn_validation","status":"Invalid"}"#
    );
    assert!(repo.events().is_empty());

    let mut repo = submitted("INV-J", "UUID-J");
    poll_pass(&Poller::new(LhdnEnv::Preprod), &mut repo, NOW, |_| {
        Ok(details("UUID-J", DocumentStatus::Invalid))
    });
    assert_eq!(
        error_of(&repo, "INV-J"),
        r#"{"reason":null,"stage":"lhdn_validation","status":"Invalid"}"#
    );
}

#[test]
fn lhdn_side_cancellation_observed_via_poll() {
    let mut repo = submitted("INV-C", "UUID-C");
    poll_pass(&Poller::new(LhdnEnv::Preprod), &mut repo, NOW, |_| {
        let mut found = details("UUID-C", DocumentStatus::Cancelled);
        found.cancel_date_time = Some("2026-04-26T15:00:00Z".into());
        Ok(found)
    });
    assert_eq!(status_of(&repo, "INV-C"), "Cancelled");
    assert_eq!(repo.invoice("id-INV-C").unwrap().cancelled_at, Some(1_777_215_600));
    assert!(repo.events().is_empty());
}

#[test]
fn still_submitted_reschedules_with_backoff() {
    let mut repo = submitted("INV-S", "UUID-S");
    poll_pass(&Poller::new(LhdnEnv::Preprod), &mut repo, NOW, |_| {
        Ok(details("UUID-S", DocumentStatus::Submitted))
    });
    assert_eq!(status_of(&repo, "INV-S"), "Submitted");
    // Outbox event preserved, attempts incremented, available_at pushed
    // forward by the first poll backoff step (5s).
    let event = &repo.events()[0];
    assert_eq!(event.kind, EventKind::Poll);
    assert_eq!(event.attempts, 1);
    assert_eq!(event.available_at, NOW + 5);
    assert_eq!(event.last_error, None);
}

#[test]
fn transient_error_reschedules_without_changing_status() {
    let mut repo = submitted("INV-503", "UUID-503");
    poll_pass(&Poller::new(LhdnEnv::Preprod), &mut repo, NOW, |_| Err(down()));
    assert_eq!(status_of(&repo, "INV-503"), "Submitted"); // unchanged
    assert_eq!(repo.events().len(), 1); // outbox still around
    assert_eq!(repo.events()[0].last_error.as_deref(), Some("server error: status=503"));
    assert!(repo.find_by_ref("INV-503").unwrap().error_json.is_none());
}

#[test]
fn auth_error_clears_outbox_without_changing_status() {
    let mut repo = submitted("INV-401", "UUID-401");
    poll_pass(&Poller::new(LhdnEnv::Preprod), &mut repo, NOW, |_| {
        Err(LhdnError::Auth("token rejected".into()))
    });
    // Auth failure on poll: don't lie about LHDN's view of the doc, just
    // record the error and surface to ops.
    assert_eq!(status_of(&repo, "INV-401"), "Submitted");
    assert_eq!(
        error_of(&repo, "INV-401"),
        r#"{"attempts":1,"kind":"Auth","message":"auth: token rejected","stage":"poll"}"#
    );
    assert!(repo.events().is_empty());
}

#[test]
fn poll_attempt_exhaustion_marks_invalid() {
    let mut repo = submitted("INV-X", "UUID-X");
    let poller = Poller::new(LhdnEnv::Preprod).with_config(PollerConfig {
        poll_interval: Duration::from_millis(0),
        batch_size: 16,
        max_attempts: 2,
    });
    // First pass: attempts 0 -> 1, rescheduled.
    poll_pass(&poller, &mut repo, NOW, |_| Ok(details("UUID-X", DocumentStatus::Submitted)));
    assert_eq!(status_of(&repo, "INV-X"), "Submitted");
    // Second pass: attempts 1 -> 2 == max_attempts, Invalid.
    poll_pass(&poller, &mut repo, NOW + 5, |_| Ok(details("UUID-X", DocumentStatus::Submitted)));
    assert_eq!(status_of(&repo, "INV-X"), "Invalid");
    assert_eq!(
        error_of(&repo, "INV-X"),
        r#"{"attempts":2,"stage":"poll_exhausted","status":"Submitted"}"#
    );
    assert!(repo.events().is_empty());
}

#[test]
fn an_orphan_poll_event_is_cleaned_up() {
    let mut repo = InvoiceRepo::new(5);
    assert!(repo.insert_event(event(4, "gone", EventKind::Poll, NOW)));
    let poller = Poller::new(LhdnEnv::Preprod);
    let due = poller.tick(&repo, NOW);
    assert!(poller.process_event(&mut repo, &due[0], NOW).is_none());
    assert!(repo.events().is_empty());
    assert!(poller.tick(&repo, NOW).is_empty());
}

// --- canceller -----------------------------------------------------------

#[test]
fn canceller_happy_path_calls_lhdn_and_marks_cancelled() {
    let mut repo = to_cancel("INV-W", "UUID-W", NOW + 60_000, "duplicated");
    let calls = cancel_pass(&Canceller::new(), &mut repo, NOW + 3, || Ok(()));
    assert_eq!(calls, vec![("UUID-W".to_string(), "duplicated".to_string())]);
    assert_eq!(status_of(&repo, "INV-W"), "Cancelled");
    assert_eq!(repo.invoice("id-INV-W").unwrap().cancelled_at, Some(NOW + 3));
    assert!(repo.events().is_empty());
}

#[test]
fn canceller_transient_error_reschedules() {
    let mut repo = to_cancel("INV-T", "UUID-T", NOW + 60_000, "x");
    cancel_pass(&Canceller::new(), &mut repo, NOW, || Err(down()));
    assert_eq!(status_of(&repo, "INV-T"), "Valid"); // unchanged on transient
    let event = &repo.events()[0];
    assert_eq!(event.kind, EventKind::Cancel);
    assert_eq!(event.attempts, 1);
    assert_eq!(event.available_at, NOW + 30);
    assert_eq!(event.last_error.as_deref(), Some("server error: status=503"));
}

#[test]
fn canceller_non_transient_clears_outbox_keeps_status() {
    let mut repo = to_cancel("INV-N", "UUID-N", NOW + 60_000, "x");
    cancel_pass(&Canceller::new(), &mut repo, NOW, || {
        Err(LhdnError::Conflict(envelope("Conflict", "already cancelled")))
    });
    // We didn't actually cancel it: leave status alone, surface error.
    assert_eq!(status_of(&repo, "INV-N"), "Valid");
    assert_eq!(
        error_of(&repo, "INV-N"),
        r#"{"attempts":1,"kind":"Conflict","message":"conflict: already cancelled","stage":"cancel"}"#
    );
    assert!(repo.events().is_empty());
}

#[test]
fn canceller_skips_event_past_window() {
    // The window slips between the request and the worker's pass: no call.
    let mut repo = to_cancel("INV-EXP", "UUID-EXP", NOW + 60, "x");
    let calls = cancel_pass(&Canceller::new(), &mut repo, NOW + 60, || {
        panic!("LHDN must not be called")
    });
    assert!(calls.is_empty());
    assert_eq!(status_of(&repo, "INV-EXP"), "Valid"); // unchanged
    assert_eq!(
        error_of(&repo, "INV-EXP"),
        r#"{"reason":"past cancellation window","stage":"cancel_precondition"}"#
    );
    assert!(repo.events().is_empty());
}

#[test]
fn cancel_preconditions_are_named() {
    let repo = to_cancel("A", "U", NOW + 60, "x");
    let mut invoice = repo.load_for_cancel("id-A").unwrap();
    assert_eq!(check_preconditions(&invoice, NOW), None);
    assert_eq!(check_preconditions(&invoice, NOW + 60), Some("past cancellation window"));
    invoice.cancellable_until = None;
    assert_eq!(check_preconditions(&invoice, NOW), Some("past cancellation window"));
    invoice.cancellation_reason = Some(String::new());
    assert_eq!(check_preconditions(&invoice, NOW), Some("missing cancellation_reason"));
    invoice.lhdn_uuid = None;
    assert_eq!(check_preconditions(&invoice, NOW), Some("missing lhdn_uuid"));
}

#[test]
fn an_orphan_cancel_event_is_cleaned_up() {
    let mut repo = InvoiceRepo::new(5);
    assert!(repo.insert_event(event(4, "gone", EventKind::Cancel, NOW)));
    assert!(cancel_pass(&Canceller::new(), &mut repo, NOW, || Ok(())).is_empty());
    assert!(repo.events().is_empty());
}

// --- the whole way -------------------------------------------------------

#[test]
fn an_invoice_goes_through_its_life() {
    let mut repo = pending("INV-1");
    submit_pass(&Submitter::new(), &mut repo, NOW, |code| {
        Ok(answer("S", vec![("U-1", code)], vec![]))
    });
    poll_pass(&Poller::new(LhdnEnv::Prod), &mut repo, NOW + 5, |uuid| {
        let mut found = details(uuid, DocumentStatus::Valid);
        found.long_id = Some("L".into());
        Ok(found)
    });
    let window = repo.invoice("id-INV-1").unwrap().cancellable_until.unwrap();
    assert_eq!(window, NOW + 5 + 72 * 60 * 60);
    assert!(repo.request_cancellation("INV-1", "late", window).is_err());
    repo.request_cancellation("INV-1", "in time", window - 1).unwrap();
    let calls = cancel_pass(&Canceller::new(), &mut repo, window - 1, || Ok(()));
    assert_eq!(calls.len(), 1);
    let row = repo.invoice("id-INV-1").unwrap();
    assert_eq!(row.lhdn_status, InvoiceStatus::Cancelled);
    assert_eq!(row.payload_json, payload_for("INV-1"));
    assert!(repo.events().is_empty());
}
