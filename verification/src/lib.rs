//! Protocol version registry: which protocol version introduces which
//! feature, which version a build advertises, which peers it admits, and
//! whether a feature is in force at the version the network agreed on.

pub mod channel;
pub mod config;
pub mod history;
pub mod types;
pub mod version;
