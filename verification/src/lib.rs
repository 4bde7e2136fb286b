//! Session detection and log tailing for a Roblox rich-presence agent.
//!
//! The library holds the decisions of the agent: which log file is followed,
//! how appended bytes become lines, which line names a place, how the watcher
//! turns process snapshots into events, and how the session reacts to them.
//! Reading files, listing processes and talking to the network are left to
//! the program around it, which hands the library plain values.

pub mod discord;
pub mod log_parser;
pub mod paths;
pub mod roblox_api;
pub mod session;
pub mod settings;
pub mod text;
pub mod tray;
pub mod watcher;
