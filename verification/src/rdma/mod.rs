//! The `LO.*` commands: transfers straight into or out of registered memory, the
//! handshake a connection owes the server before the first, and giving them up by
//! revoking their regions.

pub mod command;
pub mod connection;
pub mod error;
pub mod handshake;
pub mod protocol;
pub mod receipt;
pub mod refusal;
pub mod region_ref;
pub mod regions;
pub mod session;
pub mod setting;
