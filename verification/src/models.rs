//! Payload shapes that reach the vault from its clients.

pub mod import;
