//! Settings that the services are started with.

pub mod network;
pub mod system;
