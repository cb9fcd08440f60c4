//! The object-update adapter: projections of world objects into the state model, and the
//! world packets it reads directly.
pub mod fields;
pub mod keys;
pub mod names;
pub mod objects;
pub mod packets;
pub mod runtime;
pub mod runtime_laws;
