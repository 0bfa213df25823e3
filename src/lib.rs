//! Host monitoring engine: a registry of hosts and their probe results,
//! consistent snapshots of it, and the decisions of the probe loops.

pub mod port;
pub mod host;
pub mod table;
pub mod snapshot;
pub mod manager;
pub mod monitor;
pub mod args;
pub mod tray;
pub mod hotkey;
