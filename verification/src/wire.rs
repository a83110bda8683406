//! The opaque wire-level values an activity envelope carries: the
//! protocol context and the open extension bag. Both come from outside
//! crates and are carried through unread, so that re-serialization can
//! preserve them (forward compatibility).

use vstd::prelude::*;

verus! {

/// The protocol-context identifier type of the activitystreams crate,
/// carried opaquely in every envelope.
#[verifier::external_type_specification]
#[verifier::external_body]
pub struct ExXsdAnyUri(activitystreams::primitives::XsdAnyUri);

/// An arbitrary JSON value of the serde_json crate, the content of an
/// extension-bag entry.
#[verifier::external_type_specification]
#[verifier::external_body]
pub struct ExJsonValue(serde_json::Value);

/// The key/value map of the serde_json crate, holding an envelope's
/// unrecognized fields.
#[verifier::external_type_specification]
#[verifier::external_body]
#[verifier::reject_recursive_types(K)]
#[verifier::reject_recursive_types(V)]
pub struct ExJsonMap<K, V>(serde_json::Map<K, V>);

/// Relies on activitystreams::context: the protocol context identifier
/// shared by all activity types of the protocol.
#[verifier::external_body]
pub fn protocol_context() -> activitystreams::primitives::XsdAnyUri {
    activitystreams::context()
}

/// Relies on serde_json::Map::new: an extension bag with nothing in it,
/// for freshly built envelopes.
#[verifier::external_body]
pub fn empty_extensions() -> serde_json::Map<String, serde_json::Value> {
    serde_json::Map::new()
}

} // verus!
