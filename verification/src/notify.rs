//! Notification fan-out: after a mutation is applied, mentions are
//! scraped from the entity's content and resolved to local users,
//! unioned with structurally addressed recipients, de-duplicated and
//! stripped of the acting user; one event per mutation carries the
//! result to the broadcast collaborator, which lives outside this
//! library. Broadcast is best-effort: the mutation has already
//! committed when fan-out runs.

use vstd::prelude::*;
use crate::mentions::{Mention, MentionView, mention_views, mentions_of, scrape_text_for_mentions};
use crate::store::{Entity, LocalUser};

verus! {

/// Whether a mention addresses a local user: the name matches, and the
/// mention is unqualified or qualified with the user's own domain.
pub open spec fn mention_matches(m: MentionView, u: LocalUser) -> bool {
    m.name == u.name@ && (m.domain.len() == 0 || m.domain == u.domain@)
}

/// Whether any of the mentions addresses the user.
pub open spec fn is_mentioned(ms: Seq<MentionView>, u: LocalUser) -> bool {
    exists|k: int| 0 <= k < ms.len() && mention_matches(ms[k], u)
}

/// Who a mutation must notify: every local user addressed by a mention
/// and every structurally addressed user, except the acting user.
/// Mentions that resolve to no local user are silently dropped.
pub open spec fn is_recipient(
    id: u64,
    ms: Seq<MentionView>,
    users: Seq<LocalUser>,
    structural: Seq<u64>,
    acting: u64,
) -> bool {
    id != acting && ((exists|j: int|
        0 <= j < users.len() && (#[trigger] users[j]).id == id && is_mentioned(ms, users[j]))
        || structural.contains(id))
}

proof fn lemma_push_contains(s: Seq<u64>, v: u64)
    ensures
        forall|x: u64| #[trigger] s.push(v).contains(x) <==> s.contains(x) || x == v,
{
    assert forall|x: u64| #[trigger] s.push(v).contains(x) implies s.contains(x) || x == v by {
        let k = choose|k: int| 0 <= k < s.push(v).len() && #[trigger] s.push(v)[k] == x;
        if k < s.len() {
            assert(s[k] == x);
        }
    }
    assert forall|x: u64| s.contains(x) || x == v implies #[trigger] s.push(v).contains(x) by {
        if s.contains(x) {
            let k = choose|k: int| 0 <= k < s.len() && #[trigger] s[k] == x;
            assert(s.push(v)[k] == x);
        } else {
            assert(s.push(v)[s.len() as int] == x);
        }
    }
}

/// True when the sequence holds the value.
fn ids_contain(v: &Vec<u64>, x: u64) -> (r: bool)
    ensures
        r == v@.contains(x),
{
    let n = v.len();
    let mut i: usize = 0;
    while i < n
        invariant
            0 <= i <= n,
            n == v@.len(),
            forall|k: int| 0 <= k < i ==> v@[k] != x,
        decreases n - i,
    {
        if v[i] == x {
            assert(v@[i as int] == x);
            return true;
        }
        i += 1;
    }
    false
}

/// True when some mention addresses the user.
fn user_is_mentioned(ms: &Vec<Mention>, u: &LocalUser) -> (r: bool)
    ensures
        r == is_mentioned(mention_views(ms@), *u),
{
    let n = ms.len();
    let mut i: usize = 0;
    while i < n
        invariant
            0 <= i <= n,
            n == ms@.len(),
            forall|k: int| 0 <= k < i ==> !mention_matches(mention_views(ms@)[k], *u),
        decreases n - i,
    {
        let m = &ms[i];
        let name_ok = crate::uri::bytes_eq(&m.name, &u.name);
        let dom_ok = m.domain.len() == 0 || crate::uri::bytes_eq(&m.domain, &u.domain);
        if name_ok && dom_ok {
            assert(mention_matches(mention_views(ms@)[i as int], *u));
            return true;
        }
        i += 1;
    }
    false
}

/// Computes the recipient set of a mutation: mention-derived local
/// users unioned with structurally addressed ones, without duplicates,
/// excluding the acting user.
#[verifier::loop_isolation(false)]
pub fn compute_recipients(
    ms: &Vec<Mention>,
    users: &Vec<LocalUser>,
    structural: &Vec<u64>,
    acting: u64,
) -> (r: Vec<u64>)
    ensures
        forall|id: u64| #[trigger]
            r@.contains(id) == is_recipient(id, mention_views(ms@), users@, structural@, acting),
        forall|a: int, b: int| 0 <= a < b < r@.len() ==> r@[a] != r@[b],
{
    let ghost mv = mention_views(ms@);
    let mut out: Vec<u64> = Vec::new();
    let nu = users.len();
    let mut j: usize = 0;
    while j < nu
        invariant
            0 <= j <= nu,
            nu == users@.len(),
            forall|id: u64| #[trigger]
                out@.contains(id) == (id != acting && exists|k: int|
                    0 <= k < j && (#[trigger] users@[k]).id == id && is_mentioned(mv, users@[k])),
            forall|a: int, b: int| 0 <= a < b < out@.len() ==> out@[a] != out@[b],
        decreases nu - j,
    {
        let u = &users[j];
        let ghost out0 = out@;
        proof {
            lemma_push_contains(out0, u.id);
        }
        let mentioned = user_is_mentioned(ms, u);
        let contained = ids_contain(&out, u.id);
        let pushed = u.id != acting && mentioned && !contained;
        if pushed {
            out.push(u.id);
        }
        proof {
            assert(*u == users@[j as int]);
            assert(out@ == if pushed {
                out0.push(u.id)
            } else {
                out0
            });
            assert forall|id: u64| #[trigger] out@.contains(id) == (id != acting && exists|k: int|
                0 <= k < j + 1 && (#[trigger] users@[k]).id == id && is_mentioned(
                    mv,
                    users@[k],
                )) by {
                if pushed {
                    assert(out@ == out0.push(u.id));
                    assert(out@.contains(id) == (out0.contains(id) || id == u.id));
                } else {
                    assert(out@ == out0);
                }
                if out@.contains(id) {
                    if out0.contains(id) {
                        let k = choose|k: int|
                            0 <= k < j && (#[trigger] users@[k]).id == id && is_mentioned(
                                mv,
                                users@[k],
                            );
                        assert(0 <= k < j + 1 && users@[k].id == id && is_mentioned(
                            mv,
                            users@[k],
                        ));
                    } else {
                        assert(pushed && id == u.id);
                        assert(0 <= j < j + 1 && users@[j as int].id == id && is_mentioned(
                            mv,
                            users@[j as int],
                        ));
                    }
                }
                if id != acting && exists|k: int|
                    0 <= k < j + 1 && (#[trigger] users@[k]).id == id && is_mentioned(
                        mv,
                        users@[k],
                    ) {
                    let k = choose|k: int|
                        0 <= k < j + 1 && (#[trigger] users@[k]).id == id && is_mentioned(
                            mv,
                            users@[k],
                        );
                    if k < j {
                        assert(out0.contains(id));
                        assert(out@.contains(id));
                    } else {
                        assert(users@[j as int].id == id && id == u.id);
                        if pushed {
                            assert(out@.contains(id));
                        } else {
                            assert(contained);
                            assert(out@.contains(id));
                        }
                    }
                }
            }
        }
        j += 1;
    }
    let ns = structural.len();
    let mut t: usize = 0;
    while t < ns
        invariant
            0 <= t <= ns,
            ns == structural@.len(),
            forall|id: u64| #[trigger]
                out@.contains(id) == (id != acting && ((exists|k: int|
                    0 <= k < users@.len() && (#[trigger] users@[k]).id == id && is_mentioned(
                        mv,
                        users@[k],
                    )) || structural@.take(t as int).contains(id))),
            forall|a: int, b: int| 0 <= a < b < out@.len() ==> out@[a] != out@[b],
        decreases ns - t,
    {
        let s = structural[t];
        let ghost out0 = out@;
        if s != acting && !ids_contain(&out, s) {
            out.push(s);
            proof {
                lemma_push_contains(out0, s);
            }
        }
        proof {
            assert forall|id: u64| #[trigger] structural@.take(t as int + 1).contains(id) implies (
            structural@.take(t as int).contains(id) || id == structural@[t as int]) by {
                let k = choose|k: int|
                    0 <= k < t + 1 && #[trigger] structural@.take(t as int + 1)[k] == id;
                if k < t {
                    assert(structural@.take(t as int)[k] == id);
                }
            }
            assert forall|id: u64| (structural@.take(t as int).contains(id) || id == structural@[t
                as int]) implies #[trigger] structural@.take(t as int + 1).contains(id) by {
                if structural@.take(t as int).contains(id) {
                    let k = choose|k: int|
                        0 <= k < t && #[trigger] structural@.take(t as int)[k] == id;
                    assert(structural@.take(t as int + 1)[k] == id);
                } else {
                    assert(structural@.take(t as int + 1)[t as int] == id);
                }
            }
        }
        t += 1;
    }
    proof {
        assert(structural@.take(ns as int) =~= structural@);
    }
    out
}

/// The operation tag an event carries to connected local sessions.
#[derive(Clone, Copy, Debug, PartialEq, Eq, Structural)]
pub enum UserOperationCrud {
    CreateComment,
    EditComment,
    CreatePrivateMessage,
    EditPrivateMessage,
}

/// One event per mutation, handed to the broadcast collaborator by the
/// caller. Publishing is outside this library and best-effort.
#[derive(Debug)]
pub struct Event {
    pub op: UserOperationCrud,
    pub entity_local_id: u64,
    pub form_id: Option<Vec<u8>>,
    pub recipients: Vec<u64>,
}

/// Builds the notification event for a mutated entity: scrapes its
/// content for mentions, resolves them against the local users, unions
/// the structurally addressed recipients, and tags the event with the
/// operation.
pub fn notify(
    entity: &Entity,
    acting: u64,
    users: &Vec<LocalUser>,
    structural: &Vec<u64>,
    op: UserOperationCrud,
    form_id: Option<Vec<u8>>,
) -> (r: Event)
    ensures
        r.op == op,
        r.entity_local_id == entity.local_id,
        r.form_id == form_id,
        forall|id: u64| #[trigger]
            r.recipients@.contains(id) == is_recipient(
                id,
                mentions_of(entity.content@),
                users@,
                structural@,
                acting,
            ),
        forall|a: int, b: int| 0 <= a < b < r.recipients@.len() ==> r.recipients@[a]
            != r.recipients@[b],
{
    let ms = scrape_text_for_mentions(&entity.content);
    let recipients = compute_recipients(&ms, users, structural, acting);
    Event { op, entity_local_id: entity.local_id, form_id, recipients }
}

} // verus!
