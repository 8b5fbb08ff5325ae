//! What the service reports of its connections.

use vstd::prelude::*;

verus! {

/// What became of a managed session request.
#[derive(Debug, Clone, PartialEq, Eq)]
pub enum RequestOutcome {
    Accepted,
    Rejected { reason: String },
}

/// One connected client.
#[derive(Debug, Clone, PartialEq, Eq)]
pub struct ConnectionSnapshot {
    pub client_id: u64,
    pub peer: Option<String>,
    pub app_id: Option<String>,
    pub pid: Option<u32>,
    pub requested_mode: Option<String>,
    pub outcome: Option<RequestOutcome>,
}

/// The client that owns the managed session.
#[derive(Debug, Clone, PartialEq, Eq)]
pub struct ActiveSessionSnapshot {
    pub client_id: u64,
    pub app_id: String,
    pub pid: Option<u32>,
    pub requested_mode: String,
    pub session_id: String,
}

/// The live state of the broker, where `S` is the report of one logical switch.
#[derive(Debug, Clone, PartialEq)]
pub struct BrokerSnapshot<S> {
    pub capture_enabled: bool,
    pub switches: Vec<S>,
    pub connections: Vec<ConnectionSnapshot>,
    pub active_session: Option<ActiveSessionSnapshot>,
}

} // verus!
