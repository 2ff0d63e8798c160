//! The messages exchanged over a session.

pub mod base;
pub mod clipboard;
pub mod connection;
pub mod device;
pub mod input;
pub mod system;
