//! Messages of the cloud configuration service.

use vstd::prelude::*;

verus! {

/// What the device reports about itself when fetching its configuration.
#[derive(Clone, Debug, PartialEq, Eq)]
pub struct AgentInfo {
    pub host: String,
    pub os: String,
    pub ips: Vec<String>,
    pub version: String,
    pub git_revision: String,
}

/// The configuration request: the reporting device and its identity.
#[derive(Clone, Debug, PartialEq, Eq)]
pub struct ConfigRequest {
    pub agent_info: Option<AgentInfo>,
    pub id: String,
}

} // verus!
