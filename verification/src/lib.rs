//! Verified core of an edge-fleet appliance: desired/reported state
//! reconciliation, A/B update state machine, rollout gates, reconnect
//! backoff, health decisions, proxy counters and the control-plane
//! registry.

pub mod agent;
pub mod backoff;
pub mod clock;
pub mod crypto;
pub mod health;
pub mod ieee;
pub mod registry;
pub mod ota;
pub mod procfs;
pub mod proxy;
pub mod rollout;
pub mod state;
pub mod text;
pub mod version;
