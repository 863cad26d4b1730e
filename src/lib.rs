//! Typed access layer over a collaborative document: typed node handles,
//! transaction scoping, and the schema resolver that binds a type's fields
//! to document keys.
pub mod engine;
pub mod map_wrapper;
pub mod schema;
