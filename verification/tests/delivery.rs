use apub_engine::actor::Actor;
use apub_engine::errors::FedError;
use apub_engine::dispatch::deliver_report;
use apub_engine::envelope::{CreateOrUpdatePrivateMessage, CreateOrUpdateType, Note};
use apub_engine::uri::Uri;

fn uri(domain: &str, path: &str) -> Uri {
    Uri::new(domain.as_bytes().to_vec(), path.as_bytes().to_vec())
}

fn sender() -> Actor {
    Actor {
        id: uri("local.example", "/u/A"),
        inbox: uri("local.example", "/u/A/inbox"),
        shared_inbox: None,
        public_key: b"key".to_vec(),
    }
}

fn recipient(shared: bool) -> Actor {
    Actor {
        id: uri("remote.example", "/u/carol"),
        inbox: uri("remote.example", "/u/carol/inbox"),
        shared_inbox: if shared { Some(uri("remote.example", "/inbox")) } else { None },
        public_key: b"key".to_vec(),
    }
}

fn note() -> Note {
    Note {
        id: uri("local.example", "/pm/1"),
        attributed_to: uri("local.example", "/u/A"),
        to: uri("remote.example", "/u/carol"),
        content: b"hello carol".to_vec(),
    }
}

#[test]
fn send_builds_envelope_and_prefers_shared_inbox() {
    let plan = CreateOrUpdatePrivateMessage::send(
        note(),
        &sender(),
        CreateOrUpdateType::Update,
        &recipient(true),
        uri("local.example", "/activity/abc123"),
    );
    assert_eq!(plan.activity.kind, CreateOrUpdateType::Update);
    assert_eq!(plan.activity.id.domain, b"local.example".to_vec());
    assert_eq!(plan.activity.object.content, b"hello carol".to_vec());
    assert_eq!(plan.inboxes.len(), 1);
    assert_eq!(plan.inboxes[0].path, b"/inbox".to_vec());
}

#[test]
fn send_falls_back_to_personal_inbox() {
    let plan = CreateOrUpdatePrivateMessage::send(
        note(),
        &sender(),
        CreateOrUpdateType::Create,
        &recipient(false),
        uri("local.example", "/activity/abc124"),
    );
    assert_eq!(plan.inboxes[0].path, b"/u/carol/inbox".to_vec());
}

#[test]
fn one_failed_destination_does_not_short_circuit_the_other() {
    let inboxes = vec![uri("down.example", "/inbox"), uri("up.example", "/inbox")];
    // The transport reports: first destination failed, second succeeded.
    let outcomes = vec![false, true];
    let report = deliver_report(&inboxes, &outcomes);
    assert_eq!(report.attempts.len(), 2);
    assert_eq!(report.attempts[0].0.domain, b"down.example".to_vec());
    assert!(!report.attempts[0].1);
    assert_eq!(report.attempts[1].0.domain, b"up.example".to_vec());
    assert!(report.attempts[1].1);
    assert_eq!(report.failed_count(), 1);
}

#[test]
fn all_successful_report_has_no_failures() {
    let inboxes = vec![uri("up.example", "/inbox")];
    let report = deliver_report(&inboxes, &vec![true]);
    assert_eq!(report.failed_count(), 0);
    assert!(report.failures().is_empty());
}

#[test]
fn failures_are_collected_per_destination() {
    let inboxes = vec![
        uri("down.example", "/inbox"),
        uri("up.example", "/inbox"),
        uri("dark.example", "/inbox"),
    ];
    let report = deliver_report(&inboxes, &vec![false, true, false]);
    let failures = report.failures();
    assert_eq!(failures.len(), 2);
    assert_eq!(failures[0].0.domain, b"down.example".to_vec());
    assert_eq!(failures[1].0.domain, b"dark.example".to_vec());
    assert!(failures.iter().all(|f| f.1 == FedError::DeliveryError));
}
