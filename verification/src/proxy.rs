//! The proxy: session ownership, transport gating, packet codecs and Warden.
pub mod auth;
pub mod bridge;
pub mod commands;
pub mod config;
pub mod diagnostics;
pub mod framing;
pub mod gameplay;
pub mod handoff;
pub mod headless;
pub mod observations;
pub mod ownership;
pub mod player;
pub mod rc4;
pub mod runtime;
pub mod session;
pub mod supervisor;
pub mod transport_gate;
pub mod warden;
pub mod warden_client;
pub mod world;
