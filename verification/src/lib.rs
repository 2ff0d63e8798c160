//! Networking core of a LAN peer-discovery and device-sync engine.
//!
//! Peers find each other over multicast DNS, keep one session per pair over
//! TCP and exchange length-prefixed binary frames. Everything in this crate is
//! plain data and decisions: sockets, timers and tasks live with the caller,
//! which feeds events in and carries the returned actions out.

pub mod api;
pub mod config;
pub mod constant;
pub mod service;
