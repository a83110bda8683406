//! A local user's edit of a comment: precondition checks, the content
//! update, the outbound `Update` activity it calls for, and the
//! notification event. The caller resolves the user's session token to
//! a local user before calling in, dispatches the returned activity
//! kind outward, and publishes the event; none of that moves local
//! state, which is settled here.

use vstd::prelude::*;
use crate::uri::clone_bytes;
use crate::store::{
    Store, store_wf, lookup_entity, find_local, context_available_in, EntityView, LocalUser,
    lemma_find_local_lookup,
};
use crate::notify::{Event, UserOperationCrud, notify, is_recipient};
use crate::mentions::mentions_of;
use crate::envelope::CreateOrUpdateType;
use crate::errors::FedError;

verus! {

/// The value of an optional form tag.
pub open spec fn form_view(o: Option<Vec<u8>>) -> Option<Seq<u8>> {
    match o {
        Some(v) => Some(v@),
        None => None,
    }
}

/// Copies an optional form tag.
fn clone_form(o: &Option<Vec<u8>>) -> (r: Option<Vec<u8>>)
    ensures
        form_view(r) == form_view(*o),
{
    match o {
        Some(v) => Some(clone_bytes(v)),
        None => None,
    }
}

/// A request by a local user to edit a comment they wrote.
#[derive(Debug)]
pub struct EditComment {
    pub comment_id: u64,
    pub content: Vec<u8>,
    pub form_id: Option<Vec<u8>>,
}

/// What a successful edit asks of the caller: the entity that changed,
/// the kind of activity to federate outward, and the event to publish
/// locally.
#[derive(Debug)]
pub struct EditOutcome {
    pub comment_id: u64,
    pub kind: CreateOrUpdateType,
    pub event: Event,
}

impl EditComment {
    /// Performs the edit. Only the recorded creator may edit, whoever
    /// else asks; a banned editor and an unavailable containing
    /// context are refused; every refusal leaves the store untouched.
    /// On success the content is replaced, an `Update` is called for,
    /// and the event names the mentioned users, the editor excepted.
    pub fn perform(&self, editor: &LocalUser, store: &mut Store) -> (r: Result<
        EditOutcome,
        FedError,
    >)
        requires
            store_wf(*old(store)),
            old(store).next_id < u64::MAX,
        ensures
            store_wf(*final(store)),
            find_local(old(store).entities@, self.comment_id) is None ==> r == Err::<
                EditOutcome,
                FedError,
            >(FedError::NotFound) && *final(store) == *old(store),
            find_local(old(store).entities@, self.comment_id) matches Some(e) ==> {
                &&& e.creator != editor.actor_id@ ==> r == Err::<EditOutcome, FedError>(
                    FedError::EditNotAllowed,
                ) && *final(store) == *old(store)
                &&& e.creator == editor.actor_id@ && (e.context_id matches Some(c) && old(store).bans@.contains((editor.id, c))) ==> r == Err::<EditOutcome, FedError>(
                    FedError::Banned,
                ) && *final(store) == *old(store)
                &&& e.creator == editor.actor_id@ && (e.context_id matches Some(c) && !old(store).bans@.contains((editor.id, c)) && !context_available_in(
                    old(store).contexts@,
                    c,
                )) ==> r == Err::<EditOutcome, FedError>(FedError::ContextUnavailable) && *final(store) == *old(store)
                &&& e.creator == editor.actor_id@ && (e.context_id matches Some(c) ==> !old(store).bans@.contains((editor.id, c)) && context_available_in(old(store).contexts@, c))
                    ==> {
                    &&& lookup_entity(final(store).entities@, e.ap_id) == Some(
                        EntityView {
                            local_id: e.local_id,
                            ap_id: e.ap_id,
                            creator: e.creator,
                            content: self.content@,
                            context_id: e.context_id,
                        },
                    )
                    &&& forall|w: crate::uri::UriView|
                        w != e.ap_id ==> #[trigger] lookup_entity(final(store).entities@, w)
                            == lookup_entity(old(store).entities@, w)
                    &&& final(store).entities@.len() == old(store).entities@.len()
                    &&& final(store).users == old(store).users
                    &&& final(store).contexts == old(store).contexts
                    &&& final(store).bans == old(store).bans
                    &&& r matches Ok(out) && {
                        &&& out.comment_id == self.comment_id
                        &&& out.kind == CreateOrUpdateType::Update
                        &&& out.event.op == UserOperationCrud::EditComment
                        &&& out.event.entity_local_id == e.local_id
                        &&& form_view(out.event.form_id) == form_view(self.form_id)
                        &&& forall|id: u64| #[trigger]
                            out.event.recipients@.contains(id) == is_recipient(
                                id,
                                mentions_of(self.content@),
                                old(store).users@,
                                Seq::<u64>::empty(),
                                editor.id,
                            )
                    }
                }
            },
    {
        let ghost s0 = *store;
        let (ap_id, e_creator, ctx_id) = match store.read_local(self.comment_id) {
            None => {
                return Err(FedError::NotFound);
            },
            Some(ent) => {
                if !ent.creator.matches(&editor.actor_id) {
                    return Err(FedError::EditNotAllowed);
                }
                (ent.ap_id.clone(), ent.creator.clone(), ent.context_id)
            },
        };
        if let Some(c) = ctx_id {
            if store.is_banned(editor.id, c) {
                return Err(FedError::Banned);
            }
            if !store.context_available(c) {
                return Err(FedError::ContextUnavailable);
            }
        }
        proof {
            lemma_find_local_lookup(s0.entities@, self.comment_id);
        }
        let local_id = store.upsert(&ap_id, &e_creator, &self.content, ctx_id);
        let updated = store.read(&ap_id).unwrap();
        let structural: Vec<u64> = Vec::new();
        let event = notify(
            updated,
            editor.id,
            &store.users,
            &structural,
            UserOperationCrud::EditComment,
            clone_form(&self.form_id),
        );
        Ok(EditOutcome { comment_id: self.comment_id, kind: CreateOrUpdateType::Update, event })
    }
}

} // verus!
