//! Local deployment: nodes run as processes on this machine. Binary
//! resolution, launch specs, port and peer bookkeeping, and the node
//! lifecycle state.

pub mod binary;
pub mod process;
pub mod env;
pub mod node_control;
pub mod external;
pub mod deployer;
pub mod readiness;
