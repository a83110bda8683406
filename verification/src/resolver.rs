//! The object resolver: turns a reference that may still be remote into
//! a resolved actor, against a cache and a fetch budget.
//!
//! The network itself is outside this library. Resolution is therefore a
//! pair of steps: [`resolve_start`] decides whether a value is at hand or
//! a fetch is owed (spending budget), and [`resolve_finish`] admits what
//! the transport brought back, checking its domain and caching it. The
//! caller loops the two until `Ready` or an error.

use vstd::prelude::*;
use crate::uri::{Uri, UriView};
use crate::actor::{Actor, ActorView, ObjectRef, ref_id};
use crate::errors::FedError;

verus! {

/// A bound on recursive remote fetching, decremented on every fetch and
/// never replenished mid-chain. It can never go negative: a chain stops
/// with [`FedError::FetchBudgetExhausted`] first.
#[derive(Debug)]
pub struct FetchBudget {
    pub remaining: u32,
}

impl FetchBudget {
    /// A budget allowing `n` fetches.
    pub fn new(n: u32) -> (r: FetchBudget)
        ensures
            r.remaining == n,
    {
        FetchBudget { remaining: n }
    }

    /// Spends one fetch if any is left; reports whether it could.
    pub fn try_spend(&mut self) -> (r: bool)
        ensures
            old(self).remaining == 0 ==> !r && final(self).remaining == 0,
            old(self).remaining > 0 ==> r && final(self).remaining == old(self).remaining - 1,
    {
        if self.remaining == 0 {
            false
        } else {
            self.remaining = self.remaining - 1;
            true
        }
    }
}

/// What a sequence of cached fetches holds for a given identifier: the
/// most recently written value, since a later write overwrites an
/// earlier one (last-writer-wins).
pub open spec fn find_entry(s: Seq<(Uri, Actor)>, u: UriView) -> Option<ActorView>
    decreases s.len(),
{
    if s.len() == 0 {
        None
    } else if s.last().0@ == u {
        Some(s.last().1@)
    } else {
        find_entry(s.drop_last(), u)
    }
}

/// The resolver's cache of fetched remote actors, keyed by the
/// identifier that was requested. Values are immutable once fetched, so
/// an insert-or-overwrite write is safe.
#[derive(Debug)]
pub struct ActorCache {
    entries: Vec<(Uri, Actor)>,
}

impl ActorCache {
    /// The writes this cache has seen, oldest first.
    pub closed spec fn contents(&self) -> Seq<(Uri, Actor)> {
        self.entries@
    }

    /// The cached value for an identifier, if any.
    pub open spec fn cached(&self, u: UriView) -> Option<ActorView> {
        find_entry(self.contents(), u)
    }

    /// An empty cache.
    pub fn new() -> (r: ActorCache)
        ensures
            r.contents() == Seq::<(Uri, Actor)>::empty(),
    {
        ActorCache { entries: Vec::new() }
    }

    /// Looks an identifier up in the cache.
    pub fn lookup(&self, u: &Uri) -> (r: Option<&Actor>)
        ensures
            match r {
                Some(a) => self.cached(u@) == Some(a@),
                None => self.cached(u@) is None,
            },
    {
        let n = self.entries.len();
        let mut j: usize = n;
        assert(self.contents().take(n as int) =~= self.contents());
        while j > 0
            invariant
                0 <= j <= n,
                n == self.contents().len(),
                find_entry(self.contents(), u@) == find_entry(self.contents().take(j as int), u@),
            decreases j,
        {
            assert(self.contents().take(j as int).last() == self.contents()[j - 1]);
            assert(self.contents().take(j as int).drop_last() =~= self.contents().take(
                j as int - 1,
            ));
            if self.entries[j - 1].0.matches(u) {
                return Some(&self.entries[j - 1].1);
            }
            j = j - 1;
        }
        assert(self.contents().take(0) =~= Seq::<(Uri, Actor)>::empty());
        None
    }

    /// Records what a fetch of `key` returned. A later write for the
    /// same key overwrites the earlier one.
    pub fn insert(&mut self, key: Uri, value: Actor)
        ensures
            final(self).contents() == old(self).contents().push((key, value)),
            forall|u: UriView|
                #[trigger] final(self).cached(u) == if u == key@ {
                    Some(value@)
                } else {
                    old(self).cached(u)
                },
    {
        let ghost old_contents = self.entries@;
        self.entries.push((key, value));
        proof {
            assert forall|u: UriView|
                #[trigger] find_entry(self.entries@, u) == if u == old_contents.push(
                    (key, value),
                ).last().0@ {
                    Some(old_contents.push((key, value)).last().1@)
                } else {
                    find_entry(old_contents, u)
                } by {
                assert(self.entries@.drop_last() =~= old_contents);
            }
        }
    }
}

/// The outcome of beginning a resolution: a value at hand, or a fetch
/// the caller owes the chain.
#[derive(Debug)]
pub enum Resolution {
    Ready(Actor),
    Fetch(Uri),
}

/// Whether a reference can be answered without a fetch: it is already
/// resolved, or its identifier is cached.
pub open spec fn avail(r: ObjectRef, cache: ActorCache) -> bool {
    r is Resolved || cache.cached(ref_id(r)) is Some
}

/// Begins resolving a reference. An already resolved reference or a
/// cache hit is returned at once, free of budget; otherwise one fetch is
/// spent and the identifier to fetch is handed back, unless the budget
/// was already empty.
pub fn resolve_start(r: &ObjectRef, cache: &ActorCache, budget: &mut FetchBudget) -> (res: Result<
    Resolution,
    FedError,
>)
    ensures
        avail(*r, *cache) ==> *final(budget) == *old(budget) && (res matches Ok(
            Resolution::Ready(a),
        )
            && a@ == match *r {
            ObjectRef::Resolved(b) => b@,
            ObjectRef::Remote(u) => cache.cached(u@).unwrap(),
        }),
        !avail(*r, *cache) && old(budget).remaining == 0 ==> res == Err::<Resolution, FedError>(
            FedError::FetchBudgetExhausted,
        ) && final(budget).remaining == 0,
        !avail(*r, *cache) && old(budget).remaining > 0 ==> final(budget).remaining == old(
            budget,
        ).remaining - 1 && (res matches Ok(Resolution::Fetch(u)) && u@ == ref_id(*r)),
{
    match r {
        ObjectRef::Resolved(a) => Ok(Resolution::Ready(a.clone())),
        ObjectRef::Remote(u) => {
            match cache.lookup(u) {
                Some(a) => Ok(Resolution::Ready(a.clone())),
                None => {
                    if budget.try_spend() {
                        Ok(Resolution::Fetch(u.clone()))
                    } else {
                        Err(FedError::FetchBudgetExhausted)
                    }
                },
            }
        },
    }
}

/// Finishes a resolution with what the transport returned for
/// `requested`: nothing on a network or parse failure, or a fetched
/// actor, admitted only if its declared identifier carries the requested
/// domain, then cached keyed by the requested identifier.
pub fn resolve_finish(requested: &Uri, fetched: Option<Actor>, cache: &mut ActorCache) -> (res:
    Result<Actor, FedError>)
    ensures
        fetched is None ==> res == Err::<Actor, FedError>(FedError::ResolutionError)
            && final(cache).contents() == old(cache).contents(),
        fetched matches Some(a) ==> {
            &&& a@.id.domain != requested@.domain ==> res == Err::<Actor, FedError>(
                FedError::DomainMismatch,
            ) && final(cache).contents() == old(cache).contents()
            &&& a@.id.domain == requested@.domain ==> (res matches Ok(ra) && ra@ == a@) && (
            forall|u: UriView|
                #[trigger] final(cache).cached(u) == if u == requested@ {
                    Some(a@)
                } else {
                    old(cache).cached(u)
                })
        },
{
    match fetched {
        None => Err(FedError::ResolutionError),
        Some(a) => {
            if !a.id.same_domain(requested) {
                Err(FedError::DomainMismatch)
            } else {
                let copy = a.clone();
                cache.insert(requested.clone(), a);
                Ok(copy)
            }
        },
    }
}

/// A fetched remote representation that may itself reference one
/// further unresolved object, as an actor references its outbox.
#[derive(Debug)]
pub struct RemoteObject {
    pub id: Uri,
    pub next: Option<Uri>,
}

/// What resolving a chain must come to, given the replies the transport
/// returns in order: the reply to the `k`-th fetch is `replies[k]`, and
/// `b` fetches are left in the budget.
pub open spec fn chain_result(t: UriView, replies: Seq<RemoteObject>, k: int, b: int) -> Result<
    (),
    FedError,
>
    decreases b,
{
    if b <= 0 {
        Err(FedError::FetchBudgetExhausted)
    } else if k >= replies.len() {
        Err(FedError::ResolutionError)
    } else if replies[k].id@.domain != t.domain {
        Err(FedError::DomainMismatch)
    } else {
        match replies[k].next {
            None => Ok(()),
            Some(u) => chain_result(u@, replies, k + 1, b - 1),
        }
    }
}

/// How many fetches resolving the chain makes before it ends.
pub open spec fn chain_spends(t: UriView, replies: Seq<RemoteObject>, k: int, b: int) -> int
    decreases b,
{
    if b <= 0 {
        0
    } else if k >= replies.len() {
        1
    } else if replies[k].id@.domain != t.domain {
        1
    } else {
        match replies[k].next {
            None => 1,
            Some(u) => 1 + chain_spends(u@, replies, k + 1, b - 1),
        }
    }
}

/// Resolves a chain of remote references starting at `target`, where
/// `replies` holds what the transport returned for each fetch in order.
/// Every fetch spends budget first, so the chain can never make more
/// fetches than the budget allowed.
#[verifier::loop_isolation(false)]
pub fn resolve_chain(target: &Uri, replies: &Vec<RemoteObject>, budget: &mut FetchBudget) -> (res:
    Result<(), FedError>)
    ensures
        res == chain_result(target@, replies@, 0, old(budget).remaining as int),
        final(budget).remaining == old(budget).remaining - chain_spends(
            target@,
            replies@,
            0,
            old(budget).remaining as int,
        ),
{
    let ghost b0 = budget.remaining as int;
    let mut current: Uri = target.clone();
    let mut k: usize = 0;
    loop
        invariant
            k <= replies@.len(),
            chain_result(target@, replies@, 0, b0) == chain_result(
                current@,
                replies@,
                k as int,
                budget.remaining as int,
            ),
            b0 - chain_spends(target@, replies@, 0, b0) == budget.remaining as int - chain_spends(
                current@,
                replies@,
                k as int,
                budget.remaining as int,
            ),
        decreases budget.remaining,
    {
        let ghost b_here = budget.remaining as int;
        let ghost cur0 = current@;
        if !budget.try_spend() {
            proof {
                assert(b_here == 0);
                assert(chain_result(cur0, replies@, k as int, 0) == Err::<(), FedError>(
                    FedError::FetchBudgetExhausted,
                ));
                assert(chain_spends(cur0, replies@, k as int, 0) == 0);
            }
            return Err(FedError::FetchBudgetExhausted);
        }
        assert(chain_result(cur0, replies@, k as int, b_here) == if k >= replies@.len() {
            Err::<(), FedError>(FedError::ResolutionError)
        } else if replies@[k as int].id@.domain != cur0.domain {
            Err::<(), FedError>(FedError::DomainMismatch)
        } else {
            match replies@[k as int].next {
                None => Ok::<(), FedError>(()),
                Some(u) => chain_result(u@, replies@, k as int + 1, b_here - 1),
            }
        });
        assert(chain_spends(cur0, replies@, k as int, b_here) == if k >= replies@.len() {
            1
        } else if replies@[k as int].id@.domain != cur0.domain {
            1
        } else {
            match replies@[k as int].next {
                None => 1int,
                Some(u) => 1 + chain_spends(u@, replies@, k as int + 1, b_here - 1),
            }
        });
        if k >= replies.len() {
            return Err(FedError::ResolutionError);
        }
        let obj = &replies[k];
        if !obj.id.same_domain(&current) {
            return Err(FedError::DomainMismatch);
        }
        match &obj.next {
            None => {
                return Ok(());
            },
            Some(u) => {
                current = u.clone();
                k = k + 1;
            },
        }
    }
}

/// An unresolved chain on one domain: starting at `k`, at least `n`
/// replies are present, each declares the chain's domain and each
/// references a further unresolved object on that domain.
pub open spec fn unresolved_chain(replies: Seq<RemoteObject>, dom: Seq<u8>, k: int, n: int) -> bool {
    forall|i: int|
        k <= i < k + n ==> i < replies.len() && (#[trigger] replies[i]).id@.domain == dom && (
        replies[i].next matches Some(u) && u@.domain == dom)
}

/// The recursion bound: a resolution chain that references more than
/// `n` unresolved remote objects, against a budget of `n` fetches,
/// fails with `FetchBudgetExhausted` — and makes exactly the `n`
/// fetches the budget allowed, never an extra one.
pub proof fn lemma_recursion_bound(t: UriView, replies: Seq<RemoteObject>, k: int, n: int)
    requires
        n >= 0,
        t.domain.len() > 0,
        unresolved_chain(replies, t.domain, k, n),
    ensures
        chain_result(t, replies, k, n) == Err::<(), FedError>(FedError::FetchBudgetExhausted),
        chain_spends(t, replies, k, n) == n,
    decreases n,
{
    if n == 0 {
    } else {
        let u = replies[k].next->Some_0;
        lemma_recursion_bound(u@, replies, k + 1, n - 1);
    }
}

} // verus!
