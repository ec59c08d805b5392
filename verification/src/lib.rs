//! Control-plane wire layer of a distributed streaming platform.
//!
//! A versioned, self-describing binary protocol: one request/response
//! envelope carries operations against many resource kinds, each with its
//! own addressing scheme and schema evolution history. The crate provides
//! the binary codec with per-field version gating, the tagged-union codec
//! for polymorphic keys, the type-erased envelope with downcast, the admin
//! delete-request shape, and the resource-kind metadata model.

pub mod codec;
pub mod consume;
pub mod delete;
pub mod envelope;
pub mod error;
pub mod key;
pub mod metadata;
