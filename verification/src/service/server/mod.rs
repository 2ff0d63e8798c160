//! The advertising role: the listener and its sessions.

pub mod listener;
pub mod mdns;
pub mod session;
pub mod tcp;
