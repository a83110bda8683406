//! The local data store the engine keeps consistent: content entities
//! keyed by their canonical identifier, the contexts that contain them,
//! the local users, and bans.
//!
//! An entity is upserted by canonical identifier: a `Create` of an
//! absent identifier makes it present, and a `Create` or `Update` of a
//! present identifier sets its content, which makes application
//! idempotent under at-least-once redelivery.

use vstd::prelude::*;
use crate::uri::{Uri, UriView, bytes_eq, clone_bytes};

verus! {

/// The mathematical value of an [`Entity`].
#[verifier::ext_equal]
pub struct EntityView {
    pub local_id: u64,
    pub ap_id: UriView,
    pub creator: UriView,
    pub content: Seq<u8>,
    pub context_id: Option<u64>,
}

/// A local content entity: a comment or private message, keyed by the
/// canonical identifier of the object it came from.
#[derive(Debug)]
pub struct Entity {
    pub local_id: u64,
    pub ap_id: Uri,
    pub creator: Uri,
    pub content: Vec<u8>,
    pub context_id: Option<u64>,
}

impl View for Entity {
    type V = EntityView;

    open spec fn view(&self) -> EntityView {
        EntityView {
            local_id: self.local_id,
            ap_id: self.ap_id@,
            creator: self.creator@,
            content: self.content@,
            context_id: self.context_id,
        }
    }
}

/// The state of a containing context (a thread or community): entities
/// in a deleted or removed context cannot be changed.
#[derive(Clone, Copy, Debug, PartialEq, Eq, Structural)]
pub struct ContextState {
    pub id: u64,
    pub deleted: bool,
    pub removed: bool,
}

/// The mathematical value of a [`LocalUser`].
#[verifier::ext_equal]
pub struct LocalUserView {
    pub id: u64,
    pub name: Seq<u8>,
    pub domain: Seq<u8>,
    pub actor_id: UriView,
}

/// A user of this server, addressable by mention name and by actor
/// identifier.
#[derive(Debug)]
pub struct LocalUser {
    pub id: u64,
    pub name: Vec<u8>,
    pub domain: Vec<u8>,
    pub actor_id: Uri,
}

impl View for LocalUser {
    type V = LocalUserView;

    open spec fn view(&self) -> LocalUserView {
        LocalUserView {
            id: self.id,
            name: self.name@,
            domain: self.domain@,
            actor_id: self.actor_id@,
        }
    }
}

/// The entity a sequence of entities holds under a canonical
/// identifier, scanning from the front.
pub open spec fn lookup_entity(s: Seq<Entity>, u: UriView) -> Option<EntityView>
    decreases s.len(),
{
    if s.len() == 0 {
        None
    } else if s.first().ap_id@ == u {
        Some(s.first()@)
    } else {
        lookup_entity(s.drop_first(), u)
    }
}

/// The state of the context with a given identifier, scanning from the
/// front.
pub open spec fn find_context(s: Seq<ContextState>, id: u64) -> Option<ContextState>
    decreases s.len(),
{
    if s.len() == 0 {
        None
    } else if s.first().id == id {
        Some(s.first())
    } else {
        find_context(s.drop_first(), id)
    }
}

/// Whether a context exists and is neither deleted nor removed.
pub open spec fn context_available_in(s: Seq<ContextState>, id: u64) -> bool {
    find_context(s, id) matches Some(c) && !c.deleted && !c.removed
}

/// The local user with a given actor identifier, scanning from the
/// front.
pub open spec fn find_user_by_actor(s: Seq<LocalUser>, ap: UriView) -> Option<LocalUserView>
    decreases s.len(),
{
    if s.len() == 0 {
        None
    } else if s.first().actor_id@ == ap {
        Some(s.first()@)
    } else {
        find_user_by_actor(s.drop_first(), ap)
    }
}

/// The entity with a given local identifier, scanning from the front.
pub open spec fn find_local(s: Seq<Entity>, local_id: u64) -> Option<EntityView>
    decreases s.len(),
{
    if s.len() == 0 {
        None
    } else if s.first().local_id == local_id {
        Some(s.first()@)
    } else {
        find_local(s.drop_first(), local_id)
    }
}

/// The local data store. Canonical identifiers are unique keys: see
/// [`store_wf`].
#[derive(Debug)]
pub struct Store {
    pub entities: Vec<Entity>,
    pub contexts: Vec<ContextState>,
    pub users: Vec<LocalUser>,
    pub bans: Vec<(u64, u64)>,
    pub next_id: u64,
}

/// The store's invariant: no two entities share a canonical identifier,
/// so no duplicate entity is ever created.
pub open spec fn store_wf(s: Store) -> bool {
    forall|i: int, j: int|
        0 <= i < j < s.entities@.len() ==> (#[trigger] s.entities@[i]).ap_id@ != (
        #[trigger] s.entities@[j]).ap_id@
}

proof fn lemma_lookup_update(s: Seq<Entity>, i: int, e: Entity, u: UriView)
    requires
        0 <= i < s.len(),
        e.ap_id@ == s[i].ap_id@,
        forall|a: int, b: int|
            0 <= a < b < s.len() ==> (#[trigger] s[a]).ap_id@ != (#[trigger] s[b]).ap_id@,
    ensures
        lookup_entity(s.update(i, e), u) == if u == e.ap_id@ {
            Some(e@)
        } else {
            lookup_entity(s, u)
        },
    decreases s.len(),
{
    if s.len() == 0 {
    } else if i == 0 {
        assert(s.update(i, e).first() == e);
        assert(s.update(i, e).drop_first() =~= s.drop_first());
        if u != e.ap_id@ {
            assert(s.first().ap_id@ == e.ap_id@);
        }
    } else {
        assert(s.update(i, e).first() == s.first());
        assert(s.update(i, e).drop_first() =~= s.drop_first().update(i - 1, e));
        assert(forall|a: int, b: int|
            0 <= a < b < s.drop_first().len() ==> (#[trigger] s.drop_first()[a]).ap_id@ != (
            #[trigger] s.drop_first()[b]).ap_id@) by {
            assert(forall|a: int|
                0 <= a < s.drop_first().len() ==> #[trigger] s.drop_first()[a] == s[a + 1]);
        }
        lemma_lookup_update(s.drop_first(), i - 1, e, u);
        if s.first().ap_id@ == u {
            assert(s[0].ap_id@ != s[i].ap_id@);
        }
    }
}

proof fn lemma_lookup_push(s: Seq<Entity>, e: Entity, u: UriView)
    ensures
        lookup_entity(s.push(e), u) == if lookup_entity(s, u) is Some {
            lookup_entity(s, u)
        } else if u == e.ap_id@ {
            Some(e@)
        } else {
            None::<EntityView>
        },
    decreases s.len(),
{
    if s.len() == 0 {
        assert(s.push(e).first() == e);
        assert(s.push(e).drop_first() =~= Seq::<Entity>::empty());
        assert(lookup_entity(Seq::<Entity>::empty(), u) is None);
    } else {
        assert(s.push(e).first() == s.first());
        assert(s.push(e).drop_first() =~= s.drop_first().push(e));
        lemma_lookup_push(s.drop_first(), e, u);
        assert(lookup_entity(s, u) == if s.first().ap_id@ == u {
            Some(s.first()@)
        } else {
            lookup_entity(s.drop_first(), u)
        });
        assert(lookup_entity(s.push(e), u) == if s.first().ap_id@ == u {
            Some(s.first()@)
        } else {
            lookup_entity(s.drop_first().push(e), u)
        });
    }
}

impl Store {
    /// An empty store.
    pub fn new() -> (r: Store)
        ensures
            r.entities@.len() == 0,
            r.contexts@.len() == 0,
            r.users@.len() == 0,
            r.bans@.len() == 0,
            r.next_id == 0,
            store_wf(r),
    {
        Store {
            entities: Vec::new(),
            contexts: Vec::new(),
            users: Vec::new(),
            bans: Vec::new(),
            next_id: 0,
        }
    }

    /// The index of the entity keyed by `ap_id`, if present.
    fn find_index(&self, ap_id: &Uri) -> (r: Option<usize>)
        ensures
            match r {
                Some(i) => i < self.entities@.len() && self.entities@[i as int].ap_id@ == ap_id@
                    && lookup_entity(self.entities@, ap_id@) == Some(self.entities@[i as int]@),
                None => lookup_entity(self.entities@, ap_id@) is None,
            },
    {
        let n = self.entities.len();
        let mut i: usize = 0;
        assert(self.entities@.skip(0) =~= self.entities@);
        while i < n
            invariant
                0 <= i <= n,
                n == self.entities@.len(),
                lookup_entity(self.entities@, ap_id@) == lookup_entity(
                    self.entities@.skip(i as int),
                    ap_id@,
                ),
            decreases n - i,
        {
            assert(self.entities@.skip(i as int).first() == self.entities@[i as int]);
            assert(self.entities@.skip(i as int).drop_first() =~= self.entities@.skip(i as int + 1));
            if self.entities[i].ap_id.matches(ap_id) {
                return Some(i);
            }
            i += 1;
        }
        assert(self.entities@.skip(n as int) =~= Seq::<Entity>::empty());
        None
    }

    /// Reads the entity keyed by a canonical identifier.
    pub fn read(&self, ap_id: &Uri) -> (r: Option<&Entity>)
        ensures
            match r {
                Some(e) => lookup_entity(self.entities@, ap_id@) == Some(e@),
                None => lookup_entity(self.entities@, ap_id@) is None,
            },
    {
        match self.find_index(ap_id) {
            Some(i) => Some(&self.entities[i]),
            None => None,
        }
    }

    /// Reads the entity with a given local identifier, scanning from
    /// the front.
    pub fn read_local(&self, local_id: u64) -> (r: Option<&Entity>)
        ensures
            match r {
                Some(e) => find_local(self.entities@, local_id) == Some(e@),
                None => find_local(self.entities@, local_id) is None,
            },
    {
        let n = self.entities.len();
        let mut i: usize = 0;
        assert(self.entities@.skip(0) =~= self.entities@);
        while i < n
            invariant
                0 <= i <= n,
                n == self.entities@.len(),
                find_local(self.entities@, local_id) == find_local(
                    self.entities@.skip(i as int),
                    local_id,
                ),
            decreases n - i,
        {
            assert(self.entities@.skip(i as int).first() == self.entities@[i as int]);
            assert(self.entities@.skip(i as int).drop_first() =~= self.entities@.skip(i as int + 1));
            if self.entities[i].local_id == local_id {
                return Some(&self.entities[i]);
            }
            i += 1;
        }
        assert(self.entities@.skip(n as int) =~= Seq::<Entity>::empty());
        None
    }

    /// Sets the content of the entity keyed by `ap_id`, creating it if
    /// absent: the shared upsert behind `Create`, `Update` and local
    /// edits. Returns the entity's local identifier.
    pub fn upsert(
        &mut self,
        ap_id: &Uri,
        creator: &Uri,
        content: &Vec<u8>,
        context_id: Option<u64>,
    ) -> (r: u64)
        requires
            store_wf(*old(self)),
            old(self).next_id < u64::MAX,
        ensures
            store_wf(*final(self)),
            final(self).contexts == old(self).contexts,
            final(self).users == old(self).users,
            final(self).bans == old(self).bans,
            forall|u: UriView|
                u != ap_id@ ==> #[trigger] lookup_entity(final(self).entities@, u) == lookup_entity(
                    old(self).entities@,
                    u,
                ),
            match lookup_entity(old(self).entities@, ap_id@) {
                Some(e0) => {
                    &&& lookup_entity(final(self).entities@, ap_id@) == Some(
                        EntityView {
                            local_id: e0.local_id,
                            ap_id: e0.ap_id,
                            creator: e0.creator,
                            content: content@,
                            context_id: e0.context_id,
                        },
                    )
                    &&& final(self).entities@.len() == old(self).entities@.len()
                    &&& final(self).next_id == old(self).next_id
                    &&& r == e0.local_id
                },
                None => {
                    &&& lookup_entity(final(self).entities@, ap_id@) == Some(
                        EntityView {
                            local_id: old(self).next_id,
                            ap_id: ap_id@,
                            creator: creator@,
                            content: content@,
                            context_id: context_id,
                        },
                    )
                    &&& final(self).entities@.len() == old(self).entities@.len() + 1
                    &&& final(self).next_id == old(self).next_id + 1
                    &&& r == old(self).next_id
                },
            },
    {
        match self.find_index(ap_id) {
            Some(i) => {
                let ghost s0 = self.entities@;
                let local_id = self.entities[i].local_id;
                self.entities[i].content = clone_bytes(content);
                proof {
                    assert(self.entities@ =~= s0.update(i as int, self.entities@[i as int]));
                    lemma_lookup_update(s0, i as int, self.entities@[i as int], ap_id@);
                    assert forall|u: UriView| u != ap_id@ implies #[trigger] lookup_entity(
                        self.entities@,
                        u,
                    ) == lookup_entity(s0, u) by {
                        lemma_lookup_update(s0, i as int, self.entities@[i as int], u);
                    }
                    assert forall|a: int, b: int|
                        0 <= a < b < self.entities@.len() implies (
                    #[trigger] self.entities@[a]).ap_id@ != (#[trigger] self.entities@[b]).ap_id@ by {
                        assert(s0[a].ap_id@ != s0[b].ap_id@);
                    }
                }
                local_id
            },
            None => {
                let ghost s0 = self.entities@;
                let local_id = self.next_id;
                let e = Entity {
                    local_id,
                    ap_id: ap_id.clone(),
                    creator: creator.clone(),
                    content: clone_bytes(content),
                    context_id,
                };
                proof {
                    lemma_lookup_push(s0, e, ap_id@);
                    assert forall|u: UriView| u != ap_id@ implies #[trigger] lookup_entity(
                        s0.push(e),
                        u,
                    ) == lookup_entity(s0, u) by {
                        lemma_lookup_push(s0, e, u);
                    }
                    lemma_lookup_absent_all(s0, ap_id@);
                }
                self.entities.push(e);
                self.next_id = self.next_id + 1;
                local_id
            },
        }
    }

    /// Whether a context exists and is neither deleted nor removed.
    pub fn context_available(&self, id: u64) -> (r: bool)
        ensures
            r == context_available_in(self.contexts@, id),
    {
        let n = self.contexts.len();
        let mut i: usize = 0;
        assert(self.contexts@.skip(0) =~= self.contexts@);
        while i < n
            invariant
                0 <= i <= n,
                n == self.contexts@.len(),
                find_context(self.contexts@, id) == find_context(self.contexts@.skip(i as int), id),
            decreases n - i,
        {
            assert(self.contexts@.skip(i as int).first() == self.contexts@[i as int]);
            assert(self.contexts@.skip(i as int).drop_first() =~= self.contexts@.skip(i as int + 1));
            let c = self.contexts[i];
            if c.id == id {
                return !c.deleted && !c.removed;
            }
            i += 1;
        }
        assert(self.contexts@.skip(n as int) =~= Seq::<ContextState>::empty());
        false
    }

    /// Whether a local person is banned from a context.
    pub fn is_banned(&self, person: u64, context: u64) -> (r: bool)
        ensures
            r == self.bans@.contains((person, context)),
    {
        let n = self.bans.len();
        let mut i: usize = 0;
        while i < n
            invariant
                0 <= i <= n,
                n == self.bans@.len(),
                forall|k: int| 0 <= k < i ==> self.bans@[k] != (person, context),
            decreases n - i,
        {
            let b = self.bans[i];
            if b.0 == person && b.1 == context {
                assert(self.bans@[i as int] == (person, context));
                return true;
            }
            i += 1;
        }
        false
    }

    /// The local user whose actor identifier is `ap_id`, if any.
    pub fn user_by_actor(&self, ap_id: &Uri) -> (r: Option<&LocalUser>)
        ensures
            match r {
                Some(u) => find_user_by_actor(self.users@, ap_id@) == Some(u@),
                None => find_user_by_actor(self.users@, ap_id@) is None,
            },
    {
        let n = self.users.len();
        let mut i: usize = 0;
        assert(self.users@.skip(0) =~= self.users@);
        while i < n
            invariant
                0 <= i <= n,
                n == self.users@.len(),
                find_user_by_actor(self.users@, ap_id@) == find_user_by_actor(
                    self.users@.skip(i as int),
                    ap_id@,
                ),
            decreases n - i,
        {
            assert(self.users@.skip(i as int).first() == self.users@[i as int]);
            assert(self.users@.skip(i as int).drop_first() =~= self.users@.skip(i as int + 1));
            if self.users[i].actor_id.matches(ap_id) {
                return Some(&self.users[i]);
            }
            i += 1;
        }
        assert(self.users@.skip(n as int) =~= Seq::<LocalUser>::empty());
        None
    }
}

proof fn lemma_lookup_absent_all(s: Seq<Entity>, u: UriView)
    requires
        lookup_entity(s, u) is None,
    ensures
        forall|i: int| 0 <= i < s.len() ==> (#[trigger] s[i]).ap_id@ != u,
    decreases s.len(),
{
    if s.len() > 0 {
        assert(s.first().ap_id@ != u);
        assert(s.first() == s[0]);
        lemma_lookup_absent_all(s.drop_first(), u);
        assert(forall|i: int|
            0 <= i < s.drop_first().len() ==> #[trigger] s.drop_first()[i] == s[i + 1]);
        assert forall|i: int| 0 <= i < s.len() implies (#[trigger] s[i]).ap_id@ != u by {
            if i > 0 {
                assert(s.drop_first()[i - 1] == s[i]);
            }
        }
    }
}

/// An entity found by local identifier is an element of the sequence.
proof fn lemma_find_local_elem(s: Seq<Entity>, local_id: u64)
    requires
        find_local(s, local_id) is Some,
    ensures
        exists|i: int|
            0 <= i < s.len() && (#[trigger] s[i])@ == find_local(s, local_id)->Some_0,
    decreases s.len(),
{
    if s.len() > 0 {
        if s.first().local_id == local_id {
            assert(s[0]@ == find_local(s, local_id)->Some_0);
        } else {
            lemma_find_local_elem(s.drop_first(), local_id);
            let i = choose|i: int|
                0 <= i < s.drop_first().len() && (#[trigger] s.drop_first()[i])@ == find_local(
                    s.drop_first(),
                    local_id,
                )->Some_0;
            assert(s[i + 1]@ == find_local(s, local_id)->Some_0);
        }
    }
}

/// Under unique canonical identifiers, an element's key looks up that
/// element.
proof fn lemma_lookup_at_elem(s: Seq<Entity>, i: int)
    requires
        0 <= i < s.len(),
        forall|a: int, b: int|
            0 <= a < b < s.len() ==> (#[trigger] s[a]).ap_id@ != (#[trigger] s[b]).ap_id@,
    ensures
        lookup_entity(s, s[i].ap_id@) == Some(s[i]@),
    decreases s.len(),
{
    if i == 0 {
        assert(s.first() == s[0]);
    } else {
        assert(s.first().ap_id@ != s[i].ap_id@);
        assert(forall|a: int|
            0 <= a < s.drop_first().len() ==> #[trigger] s.drop_first()[a] == s[a + 1]);
        lemma_lookup_at_elem(s.drop_first(), i - 1);
    }
}

/// An entity found by local identifier is also found by its canonical
/// identifier, when canonical identifiers are unique.
pub proof fn lemma_find_local_lookup(s: Seq<Entity>, local_id: u64)
    requires
        find_local(s, local_id) is Some,
        forall|a: int, b: int|
            0 <= a < b < s.len() ==> (#[trigger] s[a]).ap_id@ != (#[trigger] s[b]).ap_id@,
    ensures
        lookup_entity(s, find_local(s, local_id)->Some_0.ap_id) == Some(
            find_local(s, local_id)->Some_0,
        ),
{
    lemma_find_local_elem(s, local_id);
    let i = choose|i: int|
        0 <= i < s.len() && (#[trigger] s[i])@ == find_local(s, local_id)->Some_0;
    lemma_lookup_at_elem(s, i);
}

/// Idempotent application: setting an entity's content to a value it
/// already has leaves every lookup in the store as it was. So applying
/// the same `Create` followed by the same `Update` twice yields the
/// same final entity as applying it once.
pub proof fn lemma_idempotent_apply(s1: Seq<Entity>, s2: Seq<Entity>, k: UriView, c: Seq<u8>)
    requires
        lookup_entity(s1, k) matches Some(e1) && e1.content == c,
        forall|u: UriView| u != k ==> #[trigger] lookup_entity(s2, u) == lookup_entity(s1, u),
        ({
            let e1 = lookup_entity(s1, k)->Some_0;
            lookup_entity(s2, k) == Some(
                EntityView {
                    local_id: e1.local_id,
                    ap_id: e1.ap_id,
                    creator: e1.creator,
                    content: c,
                    context_id: e1.context_id,
                },
            )
        }),
    ensures
        forall|u: UriView| #[trigger] lookup_entity(s2, u) == lookup_entity(s1, u),
{
    let e1 = lookup_entity(s1, k)->Some_0;
    assert(EntityView {
        local_id: e1.local_id,
        ap_id: e1.ap_id,
        creator: e1.creator,
        content: c,
        context_id: e1.context_id,
    } =~= e1);
}

/// How one application of a `Create` or `Update` relates a store's
/// entities to the next: the entity keyed by `k` gets content `c`,
/// keeping its identity if it already existed, and no other key moves.
pub open spec fn applied_rel(s: Seq<Entity>, s2: Seq<Entity>, k: UriView, c: Seq<u8>) -> bool {
    &&& lookup_entity(s2, k) matches Some(e2) && e2.content == c
    &&& (lookup_entity(s, k) matches Some(e1) ==> lookup_entity(s2, k) == Some(
        EntityView {
            local_id: e1.local_id,
            ap_id: e1.ap_id,
            creator: e1.creator,
            content: c,
            context_id: e1.context_id,
        },
    ))
    &&& forall|u: UriView| u != k ==> #[trigger] lookup_entity(s2, u) == lookup_entity(s, u)
}

/// Idempotence under at-least-once delivery: applying the same
/// `Create` followed by the same `Update` (identical key and content)
/// twice leaves every entity exactly as applying the pair once left
/// it.
pub proof fn lemma_idempotent_redelivery(
    s0: Seq<Entity>,
    s1: Seq<Entity>,
    s2: Seq<Entity>,
    s3: Seq<Entity>,
    s4: Seq<Entity>,
    k: UriView,
    c: Seq<u8>,
)
    requires
        applied_rel(s0, s1, k, c),
        applied_rel(s1, s2, k, c),
        applied_rel(s2, s3, k, c),
        applied_rel(s3, s4, k, c),
    ensures
        forall|u: UriView| #[trigger] lookup_entity(s4, u) == lookup_entity(s2, u),
{
    lemma_idempotent_apply(s2, s3, k, c);
    lemma_idempotent_apply(s3, s4, k, c);
}

} // verus!
