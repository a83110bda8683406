//! The activity envelope for a private message `Create` or `Update`:
//! construction for sending, verification before any side effect, and
//! idempotent application to the local store.

use vstd::prelude::*;
use crate::uri::{Uri, UriView, uri_wf};
use crate::actor::{Actor, ObjectRef, ref_id, chosen_inbox};
use crate::resolver::{ActorCache, FetchBudget, Resolution, avail, resolve_start};
use crate::store::{Store, store_wf, lookup_entity, EntityView};
use crate::notify::{Event, UserOperationCrud};
use crate::errors::FedError;
use crate::wire::{protocol_context, empty_extensions};

verus! {

/// Whether an activity creates or updates its object. Both are applied
/// as an upsert; only the notification tag tells them apart.
#[derive(Clone, Copy, Debug, PartialEq, Eq, Structural)]
pub enum CreateOrUpdateType {
    Create,
    Update,
}

/// The mathematical value of a [`Note`].
#[verifier::ext_equal]
pub struct NoteView {
    pub id: UriView,
    pub attributed_to: UriView,
    pub to: UriView,
    pub content: Seq<u8>,
}

/// The content-bearing payload of the envelope: a private message with
/// its canonical identifier, author, recipient and text.
#[derive(Debug)]
pub struct Note {
    pub id: Uri,
    pub attributed_to: Uri,
    pub to: Uri,
    pub content: Vec<u8>,
}

impl View for Note {
    type V = NoteView;

    open spec fn view(&self) -> NoteView {
        NoteView {
            id: self.id@,
            attributed_to: self.attributed_to@,
            to: self.to@,
            content: self.content@,
        }
    }
}

/// A `Create` or `Update` of a private message, as exchanged between
/// servers. The protocol context and the extension bag are carried
/// opaquely so that unknown fields survive a round trip.
pub struct CreateOrUpdatePrivateMessage {
    pub context: activitystreams::primitives::XsdAnyUri,
    pub id: Uri,
    pub actor: ObjectRef,
    pub to: ObjectRef,
    pub object: Note,
    pub kind: CreateOrUpdateType,
    pub unparsed: serde_json::Map<String, serde_json::Value>,
}

/// Structural well-formedness: every identifier the envelope claims
/// names a minting server.
pub open spec fn structural_ok(a: CreateOrUpdatePrivateMessage) -> bool {
    &&& uri_wf(a.id@)
    &&& uri_wf(ref_id(a.actor))
    &&& uri_wf(a.object.id@)
    &&& uri_wf(ref_id(a.to))
}

/// Domain consistency: the activity's identifier and every authorship
/// claim of the payload carry the actor's domain. The recipient may
/// live on another domain.
pub open spec fn domains_ok(a: CreateOrUpdatePrivateMessage) -> bool {
    &&& a.id@.domain == ref_id(a.actor).domain
    &&& a.object.id@.domain == ref_id(a.actor).domain
    &&& a.object.attributed_to@.domain == ref_id(a.actor).domain
}

/// The outcome of one verification step: verified, rejected, or
/// waiting on a fetch the caller owes the resolver.
#[derive(Debug)]
pub enum VerifyOutcome {
    Verified,
    NeedFetch(Uri),
    Rejected(FedError),
}

/// What the envelope and the delivery plan of an outbound send look
/// like: the built activity, and the inboxes to post it to.
pub struct SendPlan {
    pub activity: CreateOrUpdatePrivateMessage,
    pub inboxes: Vec<Uri>,
}

impl CreateOrUpdatePrivateMessage {
    /// Builds an inbound envelope from its parts, with the protocol
    /// context and an empty extension bag.
    pub fn new(
        id: Uri,
        actor: ObjectRef,
        to: ObjectRef,
        object: Note,
        kind: CreateOrUpdateType,
    ) -> (r: CreateOrUpdatePrivateMessage)
        ensures
            r.id == id,
            r.actor == actor,
            r.to == to,
            r.object == object,
            r.kind == kind,
    {
        CreateOrUpdatePrivateMessage {
            context: protocol_context(),
            id,
            actor,
            to,
            object,
            kind,
            unparsed: empty_extensions(),
        }
    }

    /// Builds the envelope and delivery plan for sending a private
    /// message: the freshly minted activity identifier carries the
    /// sending actor's own domain, the payload is addressed to the
    /// recipient, and delivery goes to the recipient's shared inbox
    /// when one is offered, else its inbox.
    pub fn send(
        object: Note,
        actor: &Actor,
        kind: CreateOrUpdateType,
        recipient: &Actor,
        fresh_id: Uri,
    ) -> (r: SendPlan)
        requires
            uri_wf(fresh_id@),
            uri_wf(actor@.id),
            uri_wf(object@.id),
            uri_wf(recipient@.id),
            fresh_id@.domain == actor@.id.domain,
            object@.id.domain == actor@.id.domain,
            object@.attributed_to.domain == actor@.id.domain,
        ensures
            r.activity.id@ == fresh_id@,
            ref_id(r.activity.actor) == actor@.id,
            ref_id(r.activity.to) == recipient@.id,
            r.activity.object@ == object@,
            r.activity.kind == kind,
            structural_ok(r.activity),
            domains_ok(r.activity),
            r.inboxes@.len() == 1,
            r.inboxes@[0]@ == chosen_inbox(recipient@),
    {
        let activity = CreateOrUpdatePrivateMessage {
            context: protocol_context(),
            id: fresh_id,
            actor: ObjectRef::Remote(actor.id.clone()),
            to: ObjectRef::Remote(recipient.id.clone()),
            object,
            kind,
            unparsed: empty_extensions(),
        };
        let inbox = actor_inbox(recipient);
        let mut inboxes: Vec<Uri> = Vec::new();
        inboxes.push(inbox);
        SendPlan { activity, inboxes }
    }

    /// Verifies the envelope before any side effect: structural check,
    /// domain consistency, then resolution of the actor and of the
    /// payload's recipient under the shared budget. The caller loops:
    /// on `NeedFetch` it fetches, admits the result to the cache, and
    /// calls again. An activity whose identifier does not carry its
    /// actor's domain is always rejected, whatever its payload.
    pub fn verify(&self, cache: &ActorCache, budget: &mut FetchBudget) -> (r: VerifyOutcome)
        ensures
            self.id@.domain != ref_id(self.actor).domain ==> r is Rejected,
            !structural_ok(*self) ==> r == VerifyOutcome::Rejected(FedError::Malformed)
                && *final(budget) == *old(budget),
            structural_ok(*self) && !domains_ok(*self) ==> r == VerifyOutcome::Rejected(
                FedError::DomainMismatch,
            ) && *final(budget) == *old(budget),
            structural_ok(*self) && domains_ok(*self) ==> {
                &&& !avail(self.actor, *cache) && old(budget).remaining == 0 ==> r
                    == VerifyOutcome::Rejected(FedError::FetchBudgetExhausted)
                    && final(budget).remaining == 0
                &&& !avail(self.actor, *cache) && old(budget).remaining > 0 ==> (r matches
                VerifyOutcome::NeedFetch(u) && u@ == ref_id(self.actor)) && final(budget).remaining
                    == old(budget).remaining - 1
                &&& avail(self.actor, *cache) && !avail(self.to, *cache) && old(budget).remaining
                    == 0 ==> r == VerifyOutcome::Rejected(FedError::FetchBudgetExhausted)
                    && final(budget).remaining == 0
                &&& avail(self.actor, *cache) && !avail(self.to, *cache) && old(budget).remaining
                    > 0 ==> (r matches VerifyOutcome::NeedFetch(u) && u@ == ref_id(self.to))
                    && final(budget).remaining == old(budget).remaining - 1
                &&& avail(self.actor, *cache) && avail(self.to, *cache) ==> r
                    == VerifyOutcome::Verified && *final(budget) == *old(budget)
            },
    {
        if !(self.id.is_wellformed() && self.actor.id().is_wellformed()
            && self.object.id.is_wellformed() && self.to.id().is_wellformed()) {
            return VerifyOutcome::Rejected(FedError::Malformed);
        }
        if !(self.id.same_domain(self.actor.id()) && self.object.id.same_domain(self.actor.id())
            && self.object.attributed_to.same_domain(self.actor.id())) {
            return VerifyOutcome::Rejected(FedError::DomainMismatch);
        }
        match resolve_start(&self.actor, cache, budget) {
            Err(e) => {
                return VerifyOutcome::Rejected(e);
            },
            Ok(Resolution::Fetch(u)) => {
                return VerifyOutcome::NeedFetch(u);
            },
            Ok(Resolution::Ready(_)) => {},
        }
        match resolve_start(&self.to, cache, budget) {
            Err(e) => VerifyOutcome::Rejected(e),
            Ok(Resolution::Fetch(u)) => VerifyOutcome::NeedFetch(u),
            Ok(Resolution::Ready(_)) => VerifyOutcome::Verified,
        }
    }

    /// Applies a verified envelope to the local store: upserts the
    /// entity keyed by the payload's canonical identifier — a `Create`
    /// of an absent identifier makes it present, and any later
    /// application sets the content, so redelivery is harmless — and
    /// returns the notification event for the local recipient. Fails
    /// with `NotFound`, touching nothing, when the addressed recipient
    /// is no user of this server.
    pub fn receive(self, store: &mut Store) -> (r: Result<Event, FedError>)
        requires
            structural_ok(self),
            domains_ok(self),
            store_wf(*old(store)),
            old(store).next_id < u64::MAX,
        ensures
            store_wf(*final(store)),
            crate::store::find_user_by_actor(old(store).users@, ref_id(self.to)) is None ==> r
                == Err::<Event, FedError>(FedError::NotFound) && *final(store) == *old(store),
            crate::store::find_user_by_actor(old(store).users@, ref_id(self.to)) matches Some(u)
                ==> {
                &&& forall|w: UriView|
                    w != self.object.id@ ==> #[trigger] lookup_entity(final(store).entities@, w)
                        == lookup_entity(old(store).entities@, w)
                &&& match lookup_entity(old(store).entities@, self.object.id@) {
                    Some(e0) => lookup_entity(final(store).entities@, self.object.id@) == Some(
                        EntityView {
                            local_id: e0.local_id,
                            ap_id: e0.ap_id,
                            creator: e0.creator,
                            content: self.object.content@,
                            context_id: e0.context_id,
                        },
                    ) && final(store).entities@.len() == old(store).entities@.len(),
                    None => lookup_entity(final(store).entities@, self.object.id@) == Some(
                        EntityView {
                            local_id: old(store).next_id,
                            ap_id: self.object.id@,
                            creator: self.object.attributed_to@,
                            content: self.object.content@,
                            context_id: None::<u64>,
                        },
                    ) && final(store).entities@.len() == old(store).entities@.len() + 1,
                }
                &&& final(store).users == old(store).users
                &&& final(store).contexts == old(store).contexts
                &&& final(store).bans == old(store).bans
                &&& r matches Ok(ev) && ev.recipients@ == seq![u.id] && ev.op == match self.kind {
                    CreateOrUpdateType::Create => UserOperationCrud::CreatePrivateMessage,
                    CreateOrUpdateType::Update => UserOperationCrud::EditPrivateMessage,
                } && ev.form_id is None && ev.entity_local_id == match lookup_entity(
                    old(store).entities@,
                    self.object.id@,
                ) {
                    Some(e0) => e0.local_id,
                    None => old(store).next_id,
                }
            },
    {
        let recipient_id: u64 = match store.user_by_actor(self.to.id()) {
            None => {
                return Err(FedError::NotFound);
            },
            Some(u) => u.id,
        };
        let local_id = store.upsert(
            &self.object.id,
            &self.object.attributed_to,
            &self.object.content,
            None,
        );
        let notif_type = match self.kind {
            CreateOrUpdateType::Create => UserOperationCrud::CreatePrivateMessage,
            CreateOrUpdateType::Update => UserOperationCrud::EditPrivateMessage,
        };
        let mut recipients: Vec<u64> = Vec::new();
        recipients.push(recipient_id);
        assert(recipients@ =~= seq![recipient_id]);
        Ok(Event { op: notif_type, entity_local_id: local_id, form_id: None, recipients })
    }
}

/// Admits what the transport fetched for a reference the verification
/// pipeline asked for: the fetched actor is checked and cached as in
/// [`crate::resolver::resolve_finish`], and a failed fetch fails the
/// verification with `UnknownActor`.
pub fn admit_verification_fetch(requested: &Uri, fetched: Option<Actor>, cache: &mut ActorCache)
    -> (r: Result<Actor, FedError>)
    ensures
        fetched is None ==> r == Err::<Actor, FedError>(FedError::UnknownActor)
            && final(cache).contents() == old(cache).contents(),
        fetched matches Some(a) ==> {
            &&& a@.id.domain != requested@.domain ==> r == Err::<Actor, FedError>(
                FedError::DomainMismatch,
            ) && final(cache).contents() == old(cache).contents()
            &&& a@.id.domain == requested@.domain ==> (r matches Ok(ra) && ra@ == a@) && (
            forall|u: UriView|
                #[trigger] final(cache).cached(u) == if u == requested@ {
                    Some(a@)
                } else {
                    old(cache).cached(u)
                })
        },
{
    match crate::resolver::resolve_finish(requested, fetched, cache) {
        Ok(a) => Ok(a),
        Err(FedError::ResolutionError) => Err(FedError::UnknownActor),
        Err(e) => Err(e),
    }
}

/// Copies the delivery inbox of an actor.
fn actor_inbox(a: &Actor) -> (r: Uri)
    ensures
        r@ == chosen_inbox(a@),
{
    a.shared_inbox_or_inbox().clone()
}

} // verus!
