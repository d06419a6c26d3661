//! Construction and compilation of structured document-database queries.
//!
//! A query is described by [`query::FirestoreQueryParams`]: which collection
//! (or collection group) to scan, an optional filter tree, sort order and
//! pagination bounds. Compiling such a description yields a
//! [`wire::StructuredQuery`], a plain-data mirror of the protocol's
//! structured-query message, generic over the opaque field-value type that a
//! neighboring value codec produces.

pub mod laws;
pub mod query;
pub mod wire;
