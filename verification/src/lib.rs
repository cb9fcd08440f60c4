//! Verified core of a World of Warcraft 3.3.5a bot proxy: account ownership,
//! player presence, Warden handling, packet parsing and encoding, and the
//! authoritative-state model.
pub mod adapter;
pub mod bytes;
pub mod crypto;
pub mod domain;
pub mod ids;
pub mod proxy;
pub mod state;
pub mod supervisor;
pub mod text;
