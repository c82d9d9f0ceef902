//! Cluster-wide co-scheduling: the wire protocol shared by the coordinator
//! and the node agents, the agent's registry of worker processes, and the
//! coordinator's suspend/resume decisions.

pub mod agent;
pub mod codec;
pub mod coordinator;
pub mod registry;
pub mod req;

use vstd::prelude::*;

verus! {

/// Address that both daemons bind.
pub const BIND_ADDR: &'static str = "0.0.0.0";

/// Default port of a node agent.
pub const DEFAULT_RAPID_PORT: u16 = 8210;

/// Default port of the coordinator.
pub const DEFAULT_RAPICTLD_PORT: u16 = 8211;

/// Default log level.
pub const DEFAULT_DLEVEL: &'static str = "Error";

} // verus!
