//! Actors: the identities that send and receive activities, and typed
//! references to them that are either resolved or still remote.

use vstd::prelude::*;
use crate::uri::{Uri, UriView, uri_wf, clone_bytes};

verus! {

/// The mathematical value of an [`Actor`].
#[verifier::ext_equal]
pub struct ActorView {
    pub id: UriView,
    pub inbox: UriView,
    pub shared_inbox: Option<UriView>,
    pub public_key: Seq<u8>,
}

/// An identity capable of sending and receiving activities. Its domain
/// is the domain of its identifier.
#[derive(Debug)]
pub struct Actor {
    pub id: Uri,
    pub inbox: Uri,
    pub shared_inbox: Option<Uri>,
    pub public_key: Vec<u8>,
}

impl View for Actor {
    type V = ActorView;

    open spec fn view(&self) -> ActorView {
        ActorView {
            id: self.id@,
            inbox: self.inbox@,
            shared_inbox: match self.shared_inbox {
                Some(u) => Some(u@),
                None => None,
            },
            public_key: self.public_key@,
        }
    }
}

/// A well-formed actor has well-formed endpoints.
pub open spec fn actor_wf(a: ActorView) -> bool {
    &&& uri_wf(a.id)
    &&& uri_wf(a.inbox)
    &&& (a.shared_inbox matches Some(s) ==> uri_wf(s))
}

/// The inbox a delivery to this actor should use: the shared inbox when
/// one is offered, else the personal inbox.
pub open spec fn chosen_inbox(a: ActorView) -> UriView {
    match a.shared_inbox {
        Some(s) => s,
        None => a.inbox,
    }
}

impl Actor {
    /// The domain of the server this actor lives on.
    pub fn domain(&self) -> (r: &Vec<u8>)
        ensures
            r@ == self@.id.domain,
    {
        &self.id.domain
    }

    /// The inbox to deliver to, preferring the shared inbox so that
    /// recipients on one server share a delivery.
    pub fn shared_inbox_or_inbox(&self) -> (r: &Uri)
        ensures
            r@ == chosen_inbox(self@),
    {
        match &self.shared_inbox {
            Some(s) => s,
            None => &self.inbox,
        }
    }
}

impl Clone for Actor {
    fn clone(&self) -> (r: Self)
        ensures
            r@ == self@,
    {
        Actor {
            id: self.id.clone(),
            inbox: self.inbox.clone(),
            shared_inbox: match &self.shared_inbox {
                Some(s) => Some(s.clone()),
                None => None,
            },
            public_key: clone_bytes(&self.public_key),
        }
    }
}

/// A typed reference to an actor: already resolved to a local value, or
/// an unresolved remote identifier pending fetch.
#[derive(Debug)]
pub enum ObjectRef {
    Resolved(Actor),
    Remote(Uri),
}

/// The identifier a reference points at, resolved or not.
pub open spec fn ref_id(r: ObjectRef) -> UriView {
    match r {
        ObjectRef::Resolved(a) => a@.id,
        ObjectRef::Remote(u) => u@,
    }
}

impl ObjectRef {
    /// The identifier this reference points at.
    pub fn id(&self) -> (r: &Uri)
        ensures
            r@ == ref_id(*self),
    {
        match self {
            ObjectRef::Resolved(a) => &a.id,
            ObjectRef::Remote(u) => u,
        }
    }

    /// True when the reference is already resolved, so that resolving it
    /// again is free of I/O.
    pub fn is_resolved(&self) -> (r: bool)
        ensures
            r == (*self is Resolved),
    {
        match self {
            ObjectRef::Resolved(_) => true,
            ObjectRef::Remote(_) => false,
        }
    }
}

impl Clone for ObjectRef {
    fn clone(&self) -> (r: Self)
        ensures
            match (self, &r) {
                (ObjectRef::Resolved(a), ObjectRef::Resolved(b)) => a@ == b@,
                (ObjectRef::Remote(u), ObjectRef::Remote(w)) => u@ == w@,
                _ => false,
            },
    {
        match self {
            ObjectRef::Resolved(a) => ObjectRef::Resolved(a.clone()),
            ObjectRef::Remote(u) => ObjectRef::Remote(u.clone()),
        }
    }
}

} // verus!
