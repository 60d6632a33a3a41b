//! Schema-driven generator core for a binary wire format.
//!
//! The crate resolves declarative field attributes into a validated semantic
//! model of each field's wire behaviour (scalar type, cardinality kind, tag,
//! default value) and emits structured code fragments for encoding, length
//! computation and default construction, together with client-side method
//! stubs bound to canonical wire paths.

pub mod attr;
pub mod default_value;
pub mod errors;
pub mod field;
pub mod laws;
pub mod lit;
pub mod ty;
pub mod num;
pub mod render;
pub mod service;
pub mod text;
