//! The `DMA.*` commands: the payload moves between the server and memory that the
//! client registered, and the reply carries only a byte count and an optional checksum.

pub mod advertisement;
pub mod buffer;
pub mod command;
pub mod error;
pub mod fabric;
pub mod protocol;
pub mod setting;
