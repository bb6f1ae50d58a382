//! Backoff schedules, the QR URL, defaults and the worker loop.

use std::time::Duration;

use einvoice_bridge::lhdn::LhdnEnv;
use einvoice_bridge::worker::poller::build_qr_url;
use einvoice_bridge::worker::submitter::backoff_for;
use einvoice_bridge::worker::{
    lhdn_variant_name, next_step, poll_backoff_for, submit_backoff_for, Canceller,
    CancellerConfig, LoopEvent, LoopStep, Poller, PollerConfig, Submitter, SubmitterConfig,
};
use einvoice_bridge::lhdn::error::LhdnError;
use einvoice_bridge::lhdn::models::LhdnErrorEnvelope;

#[test]
fn backoff_progression_matches_plan() {
    assert_eq!(backoff_for(1), Duration::from_secs(30));
    assert_eq!(backoff_for(2), Duration::from_secs(120));
    assert_eq!(backoff_for(3), Duration::from_secs(600));
    assert_eq!(backoff_for(4), Duration::from_secs(3600));
    assert_eq!(backoff_for(8), Duration::from_secs(3600));
}

#[test]
fn submit_backoff_progression_matches_plan() {
    assert_eq!(submit_backoff_for(1), Duration::from_secs(30));
    assert_eq!(submit_backoff_for(2), Duration::from_secs(120));
    assert_eq!(submit_backoff_for(3), Duration::from_secs(600));
    assert_eq!(submit_backoff_for(4), Duration::from_secs(3600));
    assert_eq!(submit_backoff_for(8), Duration::from_secs(3600));
}

#[test]
fn poll_backoff_starts_short_and_caps() {
    assert_eq!(poll_backoff_for(0), Duration::from_secs(5));
    assert_eq!(poll_backoff_for(1), Duration::from_secs(5));
    assert_eq!(poll_backoff_for(4), Duration::from_secs(60));
    assert_eq!(poll_backoff_for(7), Duration::from_secs(300));
    assert_eq!(poll_backoff_for(50), Duration::from_secs(900));
}

#[test]
fn poll_backoff_middle_steps() {
    assert_eq!(poll_backoff_for(2), Duration::from_secs(15));
    assert_eq!(poll_backoff_for(3), Duration::from_secs(30));
    assert_eq!(poll_backoff_for(5), Duration::from_secs(300));
    assert_eq!(poll_backoff_for(10), Duration::from_secs(300));
    assert_eq!(poll_backoff_for(11), Duration::from_secs(900));
    assert_eq!(poll_backoff_for(-1), Duration::from_secs(900));
}

#[test]
fn backoffs_never_shrink() {
    for attempt in 1..100 {
        assert!(submit_backoff_for(attempt) <= submit_backoff_for(attempt + 1));
    }
    for attempt in 0..100 {
        assert!(poll_backoff_for(attempt) <= poll_backoff_for(attempt + 1));
    }
}

#[test]
fn qr_url_uses_env_specific_portal() {
    assert_eq!(
        build_qr_url(LhdnEnv::Preprod, "u-1", "L-1"),
        "https://preprod.myinvois.hasil.gov.my/u-1/share/L-1"
    );
    assert_eq!(
        build_qr_url(LhdnEnv::Prod, "u-2", "L-2"),
        "https://myinvois.hasil.gov.my/u-2/share/L-2"
    );
}

#[test]
fn worker_defaults() {
    let submitter = Submitter::new();
    assert_eq!(submitter.config.poll_interval, Duration::from_secs(5));
    assert_eq!(submitter.config.batch_size, 16);
    assert_eq!(submitter.config.max_attempts, 8);
    let poller = Poller::new(LhdnEnv::Prod);
    assert_eq!(poller.env, LhdnEnv::Prod);
    assert_eq!(poller.config.poll_interval, Duration::from_secs(2));
    assert_eq!(poller.config.batch_size, 16);
    assert_eq!(poller.config.max_attempts, 60);
    let canceller = Canceller::new();
    assert_eq!(canceller.config.poll_interval, Duration::from_secs(5));
    assert_eq!(canceller.config.batch_size, 16);
    assert_eq!(canceller.config.max_attempts, 8);
}

#[test]
fn with_config_replaces_the_settings() {
    let config = SubmitterConfig {
        poll_interval: Duration::from_secs(1),
        batch_size: 2,
        max_attempts: 3,
    };
    let submitter = Submitter::new().with_config(config.clone());
    assert_eq!(submitter.config.poll_interval, config.poll_interval);
    assert_eq!(submitter.config.batch_size, 2);
    assert_eq!(submitter.config.max_attempts, 3);
    let config = PollerConfig {
        poll_interval: Duration::from_secs(4),
        batch_size: 5,
        max_attempts: 6,
    };
    let poller = Poller::new(LhdnEnv::Preprod).with_config(config.clone());
    assert_eq!(poller.env, LhdnEnv::Preprod);
    assert_eq!(poller.config.poll_interval, config.poll_interval);
    assert_eq!(poller.config.batch_size, 5);
    assert_eq!(poller.config.max_attempts, 6);
    let config = CancellerConfig {
        poll_interval: Duration::from_secs(7),
        batch_size: 8,
        max_attempts: 9,
    };
    let canceller = Canceller::new().with_config(config.clone());
    assert_eq!(canceller.config.poll_interval, config.poll_interval);
    assert_eq!(canceller.config.batch_size, 8);
    assert_eq!(canceller.config.max_attempts, 9);
}

#[test]
fn loop_goes_on_until_shutdown() {
    assert_eq!(next_step(LoopEvent::Ticked(3), false), LoopStep::Tick);
    assert_eq!(next_step(LoopEvent::Ticked(0), false), LoopStep::Wait);
    assert_eq!(next_step(LoopEvent::TickFailed, false), LoopStep::Wait);
    assert_eq!(next_step(LoopEvent::Elapsed, false), LoopStep::Tick);
    assert_eq!(next_step(LoopEvent::ShutdownChanged(false), false), LoopStep::Tick);
    assert_eq!(next_step(LoopEvent::ShutdownChanged(true), false), LoopStep::Stop);
    assert_eq!(next_step(LoopEvent::ShutdownLost, false), LoopStep::Stop);
    // A shutdown ends the loop also while passes keep finding events.
    for event in [
        LoopEvent::Ticked(3),
        LoopEvent::Ticked(0),
        LoopEvent::TickFailed,
        LoopEvent::Elapsed,
        LoopEvent::ShutdownChanged(true),
        LoopEvent::ShutdownLost,
    ] {
        assert_eq!(next_step(event, true), LoopStep::Stop);
    }
}

fn envelope(message: &str) -> LhdnErrorEnvelope {
    LhdnErrorEnvelope {
        code: "C".to_string(),
        message: message.to_string(),
        target: None,
        details: vec![],
    }
}

#[test]
fn errors_have_names_words_and_a_retry_rule() {
    let cases = vec![
        (LhdnError::Auth("a".into()), "Auth", "auth: a", false),
        (LhdnError::BadRequest(envelope("b")), "BadRequest", "bad request: b", false),
        (LhdnError::NotFound, "NotFound", "not found", false),
        (LhdnError::Conflict(envelope("c")), "Conflict", "conflict: c", false),
        (LhdnError::RateLimited { retry_after: None }, "RateLimited", "rate limited", true),
        (
            LhdnError::Server { status: 503, body: "down".into() },
            "Server",
            "server error: status=503",
            true,
        ),
        (LhdnError::Transport("t".into()), "Transport", "transport: t", true),
        (LhdnError::Schema("s".into()), "Schema", "response schema: s", false),
        (LhdnError::Storage("d".into()), "Storage", "storage: d", true),
        (LhdnError::Config("e".into()), "Config", "config: e", false),
    ];
    for (error, name, words, transient) in cases {
        assert_eq!(lhdn_variant_name(&error), name);
        assert_eq!(error.message(), words);
        assert_eq!(error.is_transient(), transient);
    }
}

#[test]
fn polling_goes_on_for_half_a_day() {
    let waited = |polls: i64| -> u64 { (1..=polls).map(|n| poll_backoff_for(n).as_secs()).sum() };
    // About half an hour in, the cadence gets coarser.
    assert_eq!(waited(10), 1_910);
    // The default ceiling is reached after roughly 13 hours.
    assert_eq!(waited(59), 46_010);
}
