//! The server-authoritative game state, the observations that update it and the reducer
//! that applies them.
pub mod auras;
pub mod authoritative;
pub mod capabilities;
pub mod entities;
pub mod inventory;
pub mod observation;
pub mod quests;
pub mod reducer;
pub mod world;
