//! A federated activity exchange engine: construction and delivery of
//! outbound activities, verification and idempotent application of inbound
//! activities, bounded resolution of remote objects, and notification
//! fan-out after a content mutation.

pub mod errors;
pub mod uri;
pub mod actor;
pub mod resolver;
pub mod store;
pub mod mentions;
pub mod notify;
pub mod wire;
pub mod envelope;
pub mod dispatch;
pub mod comment;
