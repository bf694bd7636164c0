//! What the vault answers to its callers.

pub mod backup;
