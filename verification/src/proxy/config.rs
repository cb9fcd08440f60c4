//! Runtime configuration of the proxy and its configured accounts.
use vstd::prelude::*;
use crate::ids::{AccountId, LaneId, WorkerGeneration};

verus! {

/// Where the proxy listens and connects, and its limits. Paths are kept as text and the
/// handshake timeout in milliseconds.
#[derive(Clone, Debug)]
pub struct ProxyRuntimeConfig {
    pub auth_bind: String,
    pub world_bind: String,
    pub transparent_world_bind: String,
    pub advertise_host: String,
    pub upstream_auth_host: String,
    pub upstream_auth_port: u16,
    pub upstream_world_host: String,
    pub upstream_world_port: u16,
    pub realm_name: String,
    pub handshake_timeout_ms: u64,
    pub max_pre_auth_connections: usize,
    pub max_pre_auth_connections_per_ip: usize,
    pub log_dir: String,
    pub run_id: String,
    pub warden_client_image: Option<String>,
}

/// A configured account the proxy plays.
#[derive(Clone, Debug)]
pub struct ProxyAccountConfig {
    pub account: AccountId,
    pub lane: LaneId,
    pub worker: WorkerGeneration,
    pub account_name: String,
    pub password: String,
    pub character: Option<String>,
}

} // verus!
