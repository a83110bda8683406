//! Identifiers of federated objects, modeled as a domain plus a
//! domain-local path. Every cross-server rule of the engine is a rule
//! about domains, so the domain is held as a field of its own.

use vstd::prelude::*;

verus! {

/// The mathematical value of a [`Uri`]: its domain and path as byte
/// sequences.
#[verifier::ext_equal]
pub struct UriView {
    pub domain: Seq<u8>,
    pub path: Seq<u8>,
}

/// A globally unique identifier minted by the server named by `domain`.
#[derive(Debug)]
pub struct Uri {
    pub domain: Vec<u8>,
    pub path: Vec<u8>,
}

impl View for Uri {
    type V = UriView;

    open spec fn view(&self) -> UriView {
        UriView { domain: self.domain@, path: self.path@ }
    }
}

/// A well-formed identifier names the server that minted it.
pub open spec fn uri_wf(u: UriView) -> bool {
    u.domain.len() > 0
}

/// Compares two byte strings for equality.
pub fn bytes_eq(a: &Vec<u8>, b: &Vec<u8>) -> (r: bool)
    ensures
        r == (a@ == b@),
{
    if a.len() != b.len() {
        assert(a@ != b@) by {
            assert(a@.len() != b@.len());
        }
        return false;
    }
    let n = a.len();
    let mut i: usize = 0;
    while i < n
        invariant
            n == a@.len() == b@.len(),
            0 <= i <= n,
            forall|k: int| 0 <= k < i ==> a@[k] == b@[k],
        decreases n - i,
    {
        if a[i] != b[i] {
            assert(a@ != b@);
            return false;
        }
        i += 1;
    }
    assert(a@ =~= b@);
    true
}

/// Copies a byte string.
pub fn clone_bytes(v: &Vec<u8>) -> (r: Vec<u8>)
    ensures
        r@ == v@,
{
    let mut out: Vec<u8> = Vec::new();
    let n = v.len();
    let mut i: usize = 0;
    while i < n
        invariant
            n == v@.len(),
            0 <= i <= n,
            out@ == v@.take(i as int),
        decreases n - i,
    {
        out.push(v[i]);
        assert(out@ =~= v@.take(i as int + 1));
        i += 1;
    }
    assert(v@.take(n as int) =~= v@);
    out
}

impl Uri {
    /// Builds an identifier from its domain and path.
    pub fn new(domain: Vec<u8>, path: Vec<u8>) -> (r: Uri)
        ensures
            r@.domain == domain@,
            r@.path == path@,
    {
        Uri { domain, path }
    }

    /// True when the two identifiers are the same identifier.
    pub fn matches(&self, other: &Uri) -> (r: bool)
        ensures
            r == (self@ == other@),
    {
        let r = bytes_eq(&self.domain, &other.domain) && bytes_eq(&self.path, &other.path);
        if r {
            assert(self@ =~= other@);
        }
        r
    }

    /// True when the two identifiers were minted by the same server.
    pub fn same_domain(&self, other: &Uri) -> (r: bool)
        ensures
            r == (self@.domain == other@.domain),
    {
        bytes_eq(&self.domain, &other.domain)
    }

    /// True when this identifier names the server that minted it.
    pub fn is_wellformed(&self) -> (r: bool)
        ensures
            r == uri_wf(self@),
    {
        self.domain.len() > 0
    }
}

impl Clone for Uri {
    fn clone(&self) -> (r: Self)
        ensures
            r@ == self@,
    {
        Uri { domain: clone_bytes(&self.domain), path: clone_bytes(&self.path) }
    }
}

} // verus!
