//! The rules of direct memory transfers between a client and a Valkey server: what goes
//! on the wire, how replies are read, which windows of registered memory a transfer may
//! use, when a connection handshakes, and how closing a client takes its memory back.
//!
//! [`dma`] holds the `DMA.*` commands, [`rdma`] the `LO.*` commands, and [`ffi`] what
//! callers in other languages see of the latter. The fabric itself is asked through
//! functions that the caller passes in.

pub mod checksum;
pub mod config;
pub mod dma;
pub mod ffi;
pub mod hex;
pub mod rdma;
pub mod resp;
pub mod text;
