use apub_engine::actor::{Actor, ObjectRef};
use apub_engine::comment::EditComment;
use apub_engine::envelope::{CreateOrUpdatePrivateMessage, CreateOrUpdateType, Note, VerifyOutcome};
use apub_engine::errors::FedError;
use apub_engine::notify::UserOperationCrud;
use apub_engine::resolver::{ActorCache, FetchBudget};
use apub_engine::store::{ContextState, Entity, LocalUser, Store};
use apub_engine::uri::Uri;

fn uri(domain: &str, path: &str) -> Uri {
    Uri::new(domain.as_bytes().to_vec(), path.as_bytes().to_vec())
}

fn actor(domain: &str, name: &str, shared: bool) -> Actor {
    Actor {
        id: uri(domain, &format!("/u/{name}")),
        inbox: uri(domain, &format!("/u/{name}/inbox")),
        shared_inbox: if shared { Some(uri(domain, "/inbox")) } else { None },
        public_key: b"key".to_vec(),
    }
}

fn local_user(id: u64, name: &str, domain: &str) -> LocalUser {
    LocalUser {
        id,
        name: name.as_bytes().to_vec(),
        domain: domain.as_bytes().to_vec(),
        actor_id: uri(domain, &format!("/u/{name}")),
    }
}

/// A store holding users A (creator of comment 0) and B, and an
/// available context 10.
fn comment_store() -> Store {
    let mut store = Store::new();
    store.users.push(local_user(1, "A", "local.example"));
    store.users.push(local_user(2, "B", "local.example"));
    store.users.push(local_user(3, "X", "local.example"));
    store.contexts.push(ContextState { id: 10, deleted: false, removed: false });
    store.entities.push(Entity {
        local_id: 0,
        ap_id: uri("local.example", "/comment/0"),
        creator: uri("local.example", "/u/A"),
        content: b"hi".to_vec(),
        context_id: Some(10),
    });
    store.next_id = 1;
    store
}

#[test]
fn edit_by_creator_updates_content_and_notifies_mentioned_user() {
    let mut store = comment_store();
    let edit = EditComment {
        comment_id: 0,
        content: b"hello @B".to_vec(),
        form_id: Some(b"form-1".to_vec()),
    };
    let editor = local_user(1, "A", "local.example");
    let out = edit.perform(&editor, &mut store).unwrap();
    assert_eq!(store.entities[0].content, b"hello @B".to_vec());
    assert_eq!(out.kind, CreateOrUpdateType::Update);
    assert_eq!(out.event.op, UserOperationCrud::EditComment);
    assert_eq!(out.event.entity_local_id, 0);
    assert_eq!(out.event.form_id, Some(b"form-1".to_vec()));
    assert_eq!(out.event.recipients, vec![2]);
}

#[test]
fn edit_by_non_creator_rejected_and_store_unchanged() {
    let mut store = comment_store();
    let edit = EditComment { comment_id: 0, content: b"hacked".to_vec(), form_id: None };
    let editor = local_user(3, "X", "local.example");
    let r = edit.perform(&editor, &mut store);
    assert!(matches!(r, Err(FedError::EditNotAllowed)));
    assert_eq!(store.entities[0].content, b"hi".to_vec());
    assert_eq!(store.entities.len(), 1);
}

#[test]
fn edit_does_not_notify_the_editor_of_a_self_mention() {
    let mut store = comment_store();
    let edit = EditComment { comment_id: 0, content: b"note to @A and @B".to_vec(), form_id: None };
    let editor = local_user(1, "A", "local.example");
    let out = edit.perform(&editor, &mut store).unwrap();
    assert_eq!(out.event.recipients, vec![2]);
}

#[test]
fn edit_of_missing_comment_is_not_found() {
    let mut store = comment_store();
    let edit = EditComment { comment_id: 99, content: b"x".to_vec(), form_id: None };
    let editor = local_user(1, "A", "local.example");
    assert!(matches!(edit.perform(&editor, &mut store), Err(FedError::NotFound)));
}

#[test]
fn banned_creator_cannot_edit() {
    // Bans are checked on edit too, not only on create.
    let mut store = comment_store();
    store.bans.push((1, 10));
    let edit = EditComment { comment_id: 0, content: b"x".to_vec(), form_id: None };
    let editor = local_user(1, "A", "local.example");
    assert!(matches!(edit.perform(&editor, &mut store), Err(FedError::Banned)));
    assert_eq!(store.entities[0].content, b"hi".to_vec());
}

#[test]
fn removed_context_makes_edit_unavailable() {
    let mut store = comment_store();
    store.contexts[0].removed = true;
    let edit = EditComment { comment_id: 0, content: b"x".to_vec(), form_id: None };
    let editor = local_user(1, "A", "local.example");
    assert!(matches!(edit.perform(&editor, &mut store), Err(FedError::ContextUnavailable)));
    assert_eq!(store.entities[0].content, b"hi".to_vec());
}

#[test]
fn deleted_context_makes_edit_unavailable() {
    let mut store = comment_store();
    store.contexts[0].deleted = true;
    let edit = EditComment { comment_id: 0, content: b"x".to_vec(), form_id: None };
    let editor = local_user(1, "A", "local.example");
    assert!(matches!(edit.perform(&editor, &mut store), Err(FedError::ContextUnavailable)));
}

fn inbound_update(content: &str) -> CreateOrUpdatePrivateMessage {
    CreateOrUpdatePrivateMessage::new(
        uri("remote.example", "/activity/77"),
        ObjectRef::Remote(uri("remote.example", "/u/carol")),
        ObjectRef::Remote(uri("local.example", "/u/B")),
        Note {
            id: uri("remote.example", "/pm/5"),
            attributed_to: uri("remote.example", "/u/carol"),
            to: uri("local.example", "/u/B"),
            content: content.as_bytes().to_vec(),
        },
        CreateOrUpdateType::Update,
    )
}

#[test]
fn duplicate_inbound_update_applies_once_and_still_notifies() {
    let mut store = Store::new();
    store.users.push(local_user(2, "B", "local.example"));
    let ev1 = inbound_update("seasons greetings").receive(&mut store).unwrap();
    assert_eq!(store.entities.len(), 1);
    assert_eq!(store.entities[0].content, b"seasons greetings".to_vec());
    assert_eq!(ev1.op, UserOperationCrud::EditPrivateMessage);
    assert_eq!(ev1.recipients, vec![2]);
    // The same activity delivered a second time: same content, no
    // duplicate entity, and a (harmless) second notification.
    let ev2 = inbound_update("seasons greetings").receive(&mut store).unwrap();
    assert_eq!(store.entities.len(), 1);
    assert_eq!(store.entities[0].content, b"seasons greetings".to_vec());
    assert_eq!(ev2.recipients, vec![2]);
}

#[test]
fn inbound_create_then_update_twice_matches_single_application() {
    let mut store = Store::new();
    store.users.push(local_user(2, "B", "local.example"));
    let mk = |kind: CreateOrUpdateType, content: &str| {
        CreateOrUpdatePrivateMessage::new(
            uri("remote.example", "/activity/1"),
            ObjectRef::Remote(uri("remote.example", "/u/carol")),
            ObjectRef::Remote(uri("local.example", "/u/B")),
            Note {
                id: uri("remote.example", "/pm/9"),
                attributed_to: uri("remote.example", "/u/carol"),
                to: uri("local.example", "/u/B"),
                content: content.as_bytes().to_vec(),
            },
            kind,
        )
    };
    mk(CreateOrUpdateType::Create, "v1").receive(&mut store).unwrap();
    mk(CreateOrUpdateType::Update, "v2").receive(&mut store).unwrap();
    let once = store.entities[0].content.clone();
    mk(CreateOrUpdateType::Create, "v1").receive(&mut store).unwrap();
    mk(CreateOrUpdateType::Update, "v2").receive(&mut store).unwrap();
    assert_eq!(store.entities.len(), 1);
    assert_eq!(store.entities[0].content, once);
}

#[test]
fn inbound_create_tags_create_private_message() {
    let mut store = Store::new();
    store.users.push(local_user(2, "B", "local.example"));
    let mut env = inbound_update("hello");
    env.kind = CreateOrUpdateType::Create;
    let ev = env.receive(&mut store).unwrap();
    assert_eq!(ev.op, UserOperationCrud::CreatePrivateMessage);
}

#[test]
fn inbound_for_unknown_recipient_is_not_found() {
    let mut store = Store::new();
    let r = inbound_update("hello").receive(&mut store);
    assert!(matches!(r, Err(FedError::NotFound)));
    assert_eq!(store.entities.len(), 0);
}

#[test]
fn mismatched_activity_domain_always_rejected() {
    // The activity id claims a domain other than the actor's.
    let env = CreateOrUpdatePrivateMessage::new(
        uri("evil.example", "/activity/66"),
        ObjectRef::Remote(uri("remote.example", "/u/carol")),
        ObjectRef::Remote(uri("local.example", "/u/B")),
        Note {
            id: uri("remote.example", "/pm/5"),
            attributed_to: uri("remote.example", "/u/carol"),
            to: uri("local.example", "/u/B"),
            content: b"fine content".to_vec(),
        },
        CreateOrUpdateType::Update,
    );
    let cache = ActorCache::new();
    let mut budget = FetchBudget::new(5);
    let r = env.verify(&cache, &mut budget);
    assert!(matches!(r, VerifyOutcome::Rejected(FedError::DomainMismatch)));
    assert_eq!(budget.remaining, 5);
}

#[test]
fn mismatched_payload_author_domain_rejected() {
    let env = CreateOrUpdatePrivateMessage::new(
        uri("remote.example", "/activity/66"),
        ObjectRef::Remote(uri("remote.example", "/u/carol")),
        ObjectRef::Remote(uri("local.example", "/u/B")),
        Note {
            id: uri("remote.example", "/pm/5"),
            attributed_to: uri("elsewhere.example", "/u/mallory"),
            to: uri("local.example", "/u/B"),
            content: b"x".to_vec(),
        },
        CreateOrUpdateType::Update,
    );
    let cache = ActorCache::new();
    let mut budget = FetchBudget::new(5);
    assert!(matches!(
        env.verify(&cache, &mut budget),
        VerifyOutcome::Rejected(FedError::DomainMismatch)
    ));
}

#[test]
fn empty_domain_is_malformed() {
    let env = CreateOrUpdatePrivateMessage::new(
        uri("", "/activity/66"),
        ObjectRef::Remote(uri("", "/u/carol")),
        ObjectRef::Remote(uri("local.example", "/u/B")),
        Note {
            id: uri("", "/pm/5"),
            attributed_to: uri("", "/u/carol"),
            to: uri("local.example", "/u/B"),
            content: b"x".to_vec(),
        },
        CreateOrUpdateType::Update,
    );
    let cache = ActorCache::new();
    let mut budget = FetchBudget::new(5);
    assert!(matches!(env.verify(&cache, &mut budget), VerifyOutcome::Rejected(FedError::Malformed)));
}

#[test]
fn verification_fetches_unknown_actor_then_verifies() {
    let env = inbound_update("hello");
    let mut cache = ActorCache::new();
    let mut budget = FetchBudget::new(3);
    // First step: the actor is unknown, one fetch is owed.
    let r1 = env.verify(&cache, &mut budget);
    let wanted = match r1 {
        VerifyOutcome::NeedFetch(u) => u,
        other => panic!("expected NeedFetch, got {other:?}"),
    };
    assert_eq!(wanted.domain, b"remote.example".to_vec());
    assert_eq!(budget.remaining, 2);
    // The transport answers; the fetched actor carries the domain.
    apub_engine::resolver::resolve_finish(&wanted, Some(actor("remote.example", "carol", false)), &mut cache)
        .unwrap();
    // Second step: the recipient reference still needs a fetch.
    let r2 = env.verify(&cache, &mut budget);
    let wanted2 = match r2 {
        VerifyOutcome::NeedFetch(u) => u,
        other => panic!("expected NeedFetch, got {other:?}"),
    };
    assert_eq!(wanted2.domain, b"local.example".to_vec());
    apub_engine::resolver::resolve_finish(&wanted2, Some(actor("local.example", "B", true)), &mut cache)
        .unwrap();
    let r3 = env.verify(&cache, &mut budget);
    assert!(matches!(r3, VerifyOutcome::Verified));
    assert_eq!(budget.remaining, 1);
}

#[test]
fn verification_with_empty_budget_is_exhausted() {
    let env = inbound_update("hello");
    let cache = ActorCache::new();
    let mut budget = FetchBudget::new(0);
    assert!(matches!(
        env.verify(&cache, &mut budget),
        VerifyOutcome::Rejected(FedError::FetchBudgetExhausted)
    ));
}

#[test]
fn failed_actor_fetch_during_verification_is_unknown_actor() {
    let env = inbound_update("hello");
    let mut cache = ActorCache::new();
    let mut budget = FetchBudget::new(3);
    let wanted = match env.verify(&cache, &mut budget) {
        VerifyOutcome::NeedFetch(u) => u,
        other => panic!("expected NeedFetch, got {other:?}"),
    };
    // The transport could not fetch the actor.
    let r = apub_engine::envelope::admit_verification_fetch(&wanted, None, &mut cache);
    assert!(matches!(r, Err(FedError::UnknownActor)));
}

#[test]
fn error_tags_are_stable() {
    assert_eq!(FedError::EditNotAllowed.tag(), "no_comment_edit_allowed");
    assert_eq!(FedError::ContextUnavailable.tag(), "context_unavailable");
}
