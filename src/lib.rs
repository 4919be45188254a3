//! A small user registry: records with UUID identities, an append-only store
//! mirrored to a JSON document, and the version-namespaced HTTP surface over it.

pub mod api;
pub mod codec;
pub mod store;
pub mod user;
