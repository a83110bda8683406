use apub_engine::actor::{Actor, ObjectRef};
use apub_engine::errors::FedError;
use apub_engine::resolver::{
    ActorCache, FetchBudget, RemoteObject, Resolution, resolve_chain, resolve_finish,
    resolve_start,
};
use apub_engine::uri::Uri;

fn uri(domain: &str, path: &str) -> Uri {
    Uri::new(domain.as_bytes().to_vec(), path.as_bytes().to_vec())
}

fn actor_at(domain: &str, name: &str) -> Actor {
    Actor {
        id: uri(domain, &format!("/u/{name}")),
        inbox: uri(domain, &format!("/u/{name}/inbox")),
        shared_inbox: None,
        public_key: b"key".to_vec(),
    }
}

#[test]
fn resolved_reference_needs_no_budget() {
    let cache = ActorCache::new();
    let mut budget = FetchBudget::new(0);
    let r = ObjectRef::Resolved(actor_at("remote.example", "carol"));
    match resolve_start(&r, &cache, &mut budget).unwrap() {
        Resolution::Ready(a) => assert_eq!(a.id.path, b"/u/carol".to_vec()),
        Resolution::Fetch(_) => panic!("no fetch owed for a resolved reference"),
    }
    assert_eq!(budget.remaining, 0);
}

#[test]
fn cache_hit_needs_no_budget() {
    let mut cache = ActorCache::new();
    let key = uri("remote.example", "/u/carol");
    resolve_finish(&key, Some(actor_at("remote.example", "carol")), &mut cache).unwrap();
    let mut budget = FetchBudget::new(0);
    let r = ObjectRef::Remote(uri("remote.example", "/u/carol"));
    match resolve_start(&r, &cache, &mut budget).unwrap() {
        Resolution::Ready(a) => assert_eq!(a.id.domain, b"remote.example".to_vec()),
        Resolution::Fetch(_) => panic!("cached value should be returned"),
    }
}

#[test]
fn cache_miss_spends_budget_and_hands_back_the_identifier() {
    let cache = ActorCache::new();
    let mut budget = FetchBudget::new(2);
    let r = ObjectRef::Remote(uri("remote.example", "/u/carol"));
    match resolve_start(&r, &cache, &mut budget).unwrap() {
        Resolution::Fetch(u) => assert_eq!(u.path, b"/u/carol".to_vec()),
        Resolution::Ready(_) => panic!("nothing is cached yet"),
    }
    assert_eq!(budget.remaining, 1);
}

#[test]
fn empty_budget_refuses_the_fetch() {
    let cache = ActorCache::new();
    let mut budget = FetchBudget::new(0);
    let r = ObjectRef::Remote(uri("remote.example", "/u/carol"));
    assert!(matches!(
        resolve_start(&r, &cache, &mut budget),
        Err(FedError::FetchBudgetExhausted)
    ));
}

#[test]
fn fetch_failure_is_a_resolution_error() {
    let mut cache = ActorCache::new();
    let key = uri("remote.example", "/u/carol");
    assert!(matches!(
        resolve_finish(&key, None, &mut cache),
        Err(FedError::ResolutionError)
    ));
}

#[test]
fn fetched_object_from_wrong_domain_is_refused() {
    let mut cache = ActorCache::new();
    let key = uri("remote.example", "/u/carol");
    let liar = actor_at("evil.example", "carol");
    assert!(matches!(
        resolve_finish(&key, Some(liar), &mut cache),
        Err(FedError::DomainMismatch)
    ));
}

#[test]
fn cache_overwrite_is_last_writer_wins() {
    let mut cache = ActorCache::new();
    let key = uri("remote.example", "/u/carol");
    let mut first = actor_at("remote.example", "carol");
    first.public_key = b"old-key".to_vec();
    let mut second = actor_at("remote.example", "carol");
    second.public_key = b"new-key".to_vec();
    resolve_finish(&key, Some(first), &mut cache).unwrap();
    resolve_finish(&key, Some(second), &mut cache).unwrap();
    let hit = cache.lookup(&key).unwrap();
    assert_eq!(hit.public_key, b"new-key".to_vec());
}

/// A chain of `n` objects on one domain, each referencing the next.
fn chain(n: usize, terminated: bool) -> Vec<RemoteObject> {
    let mut v = Vec::new();
    for i in 0..n {
        let last = i + 1 == n;
        v.push(RemoteObject {
            id: uri("remote.example", &format!("/o/{i}")),
            next: if last && terminated {
                None
            } else {
                Some(uri("remote.example", &format!("/o/{}", i + 1)))
            },
        });
    }
    v
}

#[test]
fn chain_longer_than_budget_exhausts_without_extra_fetch() {
    let target = uri("remote.example", "/o/0");
    let replies = chain(5, true);
    let mut budget = FetchBudget::new(3);
    let r = resolve_chain(&target, &replies, &mut budget);
    assert!(matches!(r, Err(FedError::FetchBudgetExhausted)));
    // Exactly the three allowed fetches were made, never a fourth.
    assert_eq!(budget.remaining, 0);
}

#[test]
fn chain_within_budget_resolves() {
    let target = uri("remote.example", "/o/0");
    let replies = chain(3, true);
    let mut budget = FetchBudget::new(5);
    assert!(resolve_chain(&target, &replies, &mut budget).is_ok());
    assert_eq!(budget.remaining, 2);
}

#[test]
fn chain_object_from_wrong_domain_is_refused() {
    let target = uri("remote.example", "/o/0");
    let replies = vec![RemoteObject { id: uri("evil.example", "/o/0"), next: None }];
    let mut budget = FetchBudget::new(5);
    assert!(matches!(
        resolve_chain(&target, &replies, &mut budget),
        Err(FedError::DomainMismatch)
    ));
}
