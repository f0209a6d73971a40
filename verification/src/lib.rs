//! Decision logic of an endpoint agent for remote software lifecycle
//! management: host identity, artifact naming, uninstall-command resolution,
//! command-line construction, outcome mapping and the heartbeat session.

pub mod artifact;
pub mod command;
pub mod identity;
pub mod keywords;
pub mod resolver;
pub mod session;
pub mod task;
pub mod text;
pub mod wire;
