//! Delivery of an activity to its destination inboxes. Posting is the
//! transport's work, outside this library: the caller posts to each
//! planned inbox in turn and records each outcome here. Destinations
//! are isolated — one failure neither aborts nor reorders the others —
//! and the overall send succeeds once the envelope is built, whatever
//! the per-destination outcomes.

use vstd::prelude::*;
use crate::uri::{Uri, UriView};
use crate::errors::FedError;

verus! {

/// The inboxes among the attempts whose delivery failed, in attempt
/// order.
pub open spec fn failed_inboxes(s: Seq<(Uri, bool)>) -> Seq<UriView>
    decreases s.len(),
{
    if s.len() == 0 {
        Seq::empty()
    } else if !s.first().1 {
        Seq::empty().push(s.first().0@) + failed_inboxes(s.drop_first())
    } else {
        failed_inboxes(s.drop_first())
    }
}

/// What the report says of destination `i`: that inbox, paired with its
/// own outcome and nothing else.
pub open spec fn report_entry(inboxes: Seq<Uri>, outcomes: Seq<bool>, i: int) -> (UriView, bool) {
    (inboxes[i]@, outcomes[i])
}

/// The collected per-destination outcomes of one send: every planned
/// inbox with whether its delivery succeeded, in plan order.
#[derive(Debug)]
pub struct DeliveryReport {
    pub attempts: Vec<(Uri, bool)>,
}

impl DeliveryReport {
    /// How many destinations failed. The overall send does not: a
    /// failure is collected here, not propagated.
    pub fn failed_count(&self) -> (r: usize)
        ensures
            r <= self.attempts@.len(),
            (r == 0) == (forall|i: int| 0 <= i < self.attempts@.len() ==> (
            #[trigger] self.attempts@[i]).1),
    {
        let n = self.attempts.len();
        let mut count: usize = 0;
        let mut i: usize = 0;
        while i < n
            invariant
                0 <= i <= n,
                n == self.attempts@.len(),
                count <= i,
                (count == 0) == (forall|k: int| 0 <= k < i ==> (#[trigger] self.attempts@[k]).1),
            decreases n - i,
        {
            if !self.attempts[i].1 {
                count += 1;
            }
            i += 1;
        }
        count
    }

    /// The collected per-destination failures: every inbox whose
    /// delivery failed, each with the `DeliveryError` it yielded. The
    /// errors are collected here, never propagated as the send's own.
    #[verifier::loop_isolation(false)]
    pub fn failures(&self) -> (r: Vec<(Uri, FedError)>)
        ensures
            r@.map_values(|p: (Uri, FedError)| p.0@) == failed_inboxes(self.attempts@),
            forall|k: int| 0 <= k < r@.len() ==> (#[trigger] r@[k]).1 == FedError::DeliveryError,
    {
        let n = self.attempts.len();
        let mut out: Vec<(Uri, FedError)> = Vec::new();
        let mut i: usize = 0;
        proof {
            assert(self.attempts@.skip(0) =~= self.attempts@);
            assert(out@.map_values(|p: (Uri, FedError)| p.0@) + failed_inboxes(self.attempts@)
                =~= failed_inboxes(self.attempts@));
        }
        while i < n
            invariant
                0 <= i <= n,
                failed_inboxes(self.attempts@) == out@.map_values(|p: (Uri, FedError)| p.0@)
                    + failed_inboxes(self.attempts@.skip(i as int)),
                forall|k: int|
                    0 <= k < out@.len() ==> (#[trigger] out@[k]).1 == FedError::DeliveryError,
            decreases n - i,
        {
            let ghost out0 = out@;
            assert(self.attempts@.skip(i as int).first() == self.attempts@[i as int]);
            assert(self.attempts@.skip(i as int).drop_first() =~= self.attempts@.skip(i as int + 1));
            if !self.attempts[i].1 {
                out.push((self.attempts[i].0.clone(), FedError::DeliveryError));
                proof {
                    assert(out@.map_values(|p: (Uri, FedError)| p.0@) =~= out0.map_values(
                        |p: (Uri, FedError)| p.0@,
                    ).push(out@.last().0@));
                    assert(out0.map_values(|p: (Uri, FedError)| p.0@) + failed_inboxes(
                        self.attempts@.skip(i as int),
                    ) =~= out@.map_values(|p: (Uri, FedError)| p.0@) + failed_inboxes(
                        self.attempts@.skip(i as int + 1),
                    ));
                }
            }
            i += 1;
        }
        proof {
            assert(self.attempts@.skip(0) =~= self.attempts@);
            assert(self.attempts@.skip(n as int) =~= Seq::<(Uri, bool)>::empty());
            assert(out@.map_values(|p: (Uri, FedError)| p.0@) + Seq::<UriView>::empty() =~= out@
                .map_values(|p: (Uri, FedError)| p.0@));
        }
        out
    }
}

/// Pairs every planned inbox with the outcome the transport reported
/// for it. No outcome short-circuits another: the report holds one
/// entry per destination whatever the values.
pub fn deliver_report(inboxes: &Vec<Uri>, outcomes: &Vec<bool>) -> (r: DeliveryReport)
    requires
        inboxes@.len() == outcomes@.len(),
    ensures
        r.attempts@.len() == inboxes@.len(),
        forall|i: int|
            0 <= i < inboxes@.len() ==> ((#[trigger] r.attempts@[i]).0@, r.attempts@[i].1)
                == report_entry(inboxes@, outcomes@, i),
{
    let n = inboxes.len();
    let mut attempts: Vec<(Uri, bool)> = Vec::new();
    let mut i: usize = 0;
    while i < n
        invariant
            0 <= i <= n,
            n == inboxes@.len() == outcomes@.len(),
            attempts@.len() == i,
            forall|k: int|
                0 <= k < i ==> ((#[trigger] attempts@[k]).0@, attempts@[k].1) == report_entry(
                    inboxes@,
                    outcomes@,
                    k,
                ),
        decreases n - i,
    {
        attempts.push((inboxes[i].clone(), outcomes[i]));
        i += 1;
    }
    DeliveryReport { attempts }
}

/// Delivery isolation: what the report says of destination `i` depends
/// on that destination's own outcome alone. Given destinations that
/// fail and succeed in the same run, each is reported with its own
/// result; a failure elsewhere never short-circuits a delivery.
pub proof fn lemma_delivery_isolation(
    inboxes: Seq<Uri>,
    outcomes_a: Seq<bool>,
    outcomes_b: Seq<bool>,
    i: int,
)
    requires
        outcomes_a.len() == inboxes.len(),
        outcomes_b.len() == inboxes.len(),
        0 <= i < inboxes.len(),
        outcomes_a[i] == outcomes_b[i],
    ensures
        report_entry(inboxes, outcomes_a, i) == report_entry(inboxes, outcomes_b, i),
{
}

} // verus!
