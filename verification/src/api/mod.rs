//! What the commands of the user interface ask of the services.

pub mod service;
