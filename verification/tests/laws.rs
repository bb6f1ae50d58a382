//! Whole histories: what must hold after every change.

use einvoice_bridge::api::{accept_cancellation, accept_invoice};
use einvoice_bridge::domain::SignedDocument;
use einvoice_bridge::invoice::InvoiceStatus;
use einvoice_bridge::lhdn::error::LhdnError;
use einvoice_bridge::lhdn::models::{
    AcceptedDocument, DocumentDetails, DocumentStatus, SubmissionResponse,
};
use einvoice_bridge::lhdn::LhdnEnv;
use einvoice_bridge::repo::{EventKind, InvoiceRepo};
use einvoice_bridge::worker::{Canceller, Poller, Submitter};

const START: i64 = 1_777_213_800;
const COUNT: usize = 12;

fn id_of(n: usize) -> String {
    format!("id-{n}")
}

fn payload_of(n: usize) -> String {
    format!(r#"{{"n":{n}}}"#)
}

fn next(seed: &mut u64) -> u64 {
    *seed = seed.wrapping_mul(6364136223846793005).wrapping_add(1442695040888963407);
    *seed >> 33
}

fn may_become(before: InvoiceStatus, after: InvoiceStatus) -> bool {
    before == after
        || matches!(
            (before, after),
            (InvoiceStatus::Pending, InvoiceStatus::Submitted)
                | (InvoiceStatus::Pending, InvoiceStatus::Failed)
                | (InvoiceStatus::Submitted, InvoiceStatus::Valid)
                | (InvoiceStatus::Submitted, InvoiceStatus::Invalid)
                | (InvoiceStatus::Submitted, InvoiceStatus::Cancelled)
                | (InvoiceStatus::Valid, InvoiceStatus::Cancelled)
        )
}

fn statuses(repo: &InvoiceRepo) -> Vec<InvoiceStatus> {
    (0..COUNT).map(|n| repo.invoice(&id_of(n)).unwrap().lhdn_status).collect()
}

fn check(repo: &InvoiceRepo, before: &[InvoiceStatus]) -> Vec<InvoiceStatus> {
    for event in repo.events() {
        let row = repo.invoice(&event.invoice_id).expect("no event without its invoice");
        let awaited = match event.kind {
            EventKind::Submit => InvoiceStatus::Pending,
            EventKind::Poll => InvoiceStatus::Submitted,
            EventKind::Cancel => InvoiceStatus::Valid,
        };
        assert_eq!(row.lhdn_status, awaited);
        let of_it = repo.events().iter().filter(|e| e.invoice_id == event.invoice_id).count();
        assert_eq!(of_it, 1);
        if event.kind == EventKind::Submit {
            assert_eq!(row.next_attempt_at, Some(event.available_at));
            assert_eq!(row.attempts, event.attempts);
        }
    }
    for n in 0..COUNT {
        let row = repo.invoice(&id_of(n)).expect("no invoice is lost");
        assert_eq!(row.payload_json, payload_of(n));
        assert!(may_become(before[n], row.lhdn_status), "{:?}", (before[n], row.lhdn_status));
        if row.lhdn_status == InvoiceStatus::Pending {
            assert!(repo.events().iter().any(|e| e.invoice_id == row.id));
        }
        assert_eq!(row.next_attempt_at.is_some(), row.lhdn_status == InvoiceStatus::Pending);
        assert_eq!(row.qr_url.is_some(), row.validated_at.is_some());
        if let Some(at) = row.validated_at {
            assert_eq!(row.cancellable_until, Some(at + 72 * 60 * 60));
        }
    }
    statuses(repo)
}

fn trouble(seed: &mut u64) -> LhdnError {
    if next(seed) % 4 == 0 {
        LhdnError::Auth("no".into())
    } else {
        LhdnError::Transport("down".into())
    }
}

#[test]
fn every_change_keeps_the_tables() {
    for round in 0..20u64 {
        let mut seed = round;
        let seed = &mut seed;
        let mut repo = InvoiceRepo::new(1);
        for n in 0..COUNT {
            let answer = accept_invoice(
                &mut repo,
                Some(&format!("R-{n}")),
                &payload_of(n),
                &id_of(n),
                START,
            );
            assert_eq!(answer.unwrap().0, 202);
        }
        let (submitter, poller, canceller) =
            (Submitter::new(), Poller::new(LhdnEnv::Preprod), Canceller::new());
        let mut before = statuses(&repo);
        let mut now = START;
        for _ in 0..60 {
            for event in submitter.tick(&repo, now) {
                let invoice = submitter.process_event(&mut repo, &event, now).unwrap();
                let signed = SignedDocument {
                    canonical_bytes: b"{}".to_vec(),
                    document_hash: "h".into(),
                    code_number: invoice.invoice_ref.clone(),
                    signature: "s".into(),
                };
                let answer = if next(seed) % 2 == 0 {
                    Err(trouble(seed))
                } else {
                    Ok(SubmissionResponse {
                        submission_uid: "S".into(),
                        accepted_documents: vec![AcceptedDocument {
                            uuid: "U".into(),
                            invoice_code_number: invoice.invoice_ref.clone(),
                        }],
                        rejected_documents: vec![],
                    })
                };
                submitter
                    .on_answer(&mut repo, &event, invoice.attempts, &signed, answer, now)
                    .unwrap();
                before = check(&repo, &before);
            }
            for event in poller.tick(&repo, now) {
                let (invoice, uuid) = poller.process_event(&mut repo, &event, now).unwrap();
                let status = match next(seed) % 8 {
                    0 => DocumentStatus::Invalid,
                    1 => DocumentStatus::Cancelled,
                    2 | 3 => DocumentStatus::Valid,
                    _ => DocumentStatus::Submitted,
                };
                let answer = if next(seed) % 5 == 0 {
                    Err(trouble(seed))
                } else {
                    Ok(DocumentDetails {
                        uuid,
                        long_id: Some("L".into()),
                        internal_id: "I".into(),
                        status,
                        date_time_received: None,
                        date_time_validated: None,
                        cancel_date_time: None,
                        document_status_reason: None,
                    })
                };
                poller.on_answer(&mut repo, &event, &invoice, answer, now);
                before = check(&repo, &before);
            }
            let n = (next(seed) as usize) % COUNT;
            let _ = accept_cancellation(&mut repo, &format!("R-{n}"), Some("why"), now);
            before = check(&repo, &before);
            for event in canceller.tick(&repo, now) {
                if canceller.process_event(&mut repo, &event, now).is_some() {
                    let answer = if next(seed) % 2 == 0 { Err(trouble(seed)) } else { Ok(()) };
                    canceller.on_answer(&mut repo, &event, answer, now);
                }
                before = check(&repo, &before);
            }
            now += (next(seed) % 5_000) as i64;
        }
        assert!(before.iter().any(|status| *status != InvoiceStatus::Pending));
    }
}

#[test]
fn a_change_touches_one_invoice() {
    let mut repo = InvoiceRepo::new(1);
    for n in 0..3 {
        repo.create_pending_at(&id_of(n), &format!("R-{n}"), &payload_of(n), START).unwrap();
    }
    let submitter = Submitter::new();
    let due = submitter.tick(&repo, START);
    assert_eq!(due.len(), 3);
    submitter.handle_failure(&mut repo, &due[1], 0, LhdnError::NotFound, START + 9);
    for n in [0, 2] {
        let row = repo.invoice(&id_of(n)).unwrap();
        assert_eq!(row.lhdn_status, InvoiceStatus::Pending);
        assert_eq!((row.attempts, row.updated_at), (0, START));
        assert_eq!(row.error_json, None);
    }
    let left: Vec<i64> = repo.events().iter().map(|e| e.id).collect();
    assert_eq!(left, vec![1, 3]);
}

#[test]
fn the_rows_of_one_invoice_suffice() {
    // The same failure, once on all rows and once on those of the invoice.
    let mut whole = InvoiceRepo::new(1);
    for n in 0..3 {
        whole.create_pending_at(&id_of(n), &format!("R-{n}"), &payload_of(n), START).unwrap();
    }
    let mut part = InvoiceRepo::new(2);
    part.create_pending_at(&id_of(1), "R-1", &payload_of(1), START).unwrap();
    let submitter = Submitter::new();
    let event = submitter.tick(&part, START).remove(0);
    assert_eq!(event.outbox_id, 2);
    let down = || LhdnError::Transport("down".into());
    submitter.handle_failure(&mut part, &event, 0, down(), START);
    submitter.handle_failure(&mut whole, &event, 0, down(), START);
    let (a, b) = (part.invoice(&id_of(1)).unwrap(), whole.invoice(&id_of(1)).unwrap());
    assert_eq!((a.attempts, a.next_attempt_at), (b.attempts, b.next_attempt_at));
    assert_eq!(a.error_json, b.error_json);
    let moved = whole.events().iter().find(|e| e.id == 2).unwrap();
    assert_eq!(moved.available_at, part.events()[0].available_at);
}

#[test]
fn creating_leaves_others_as_they_are() {
    let mut repo = InvoiceRepo::new(1);
    repo.create_pending_at("a", "A", "{}", START).unwrap();
    repo.create_pending_at("b", "B", "[]", START + 1).unwrap();
    let a = repo.find_by_ref("A").unwrap();
    assert_eq!((a.id.as_str(), a.updated_at), ("a", START));
    assert!(repo.create_pending_at("c", "A", "{}", START + 2).is_err());
    assert!(repo.invoice("c").is_none());
    assert_eq!(repo.events().len(), 2);
}
