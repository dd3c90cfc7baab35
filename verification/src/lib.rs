//! Session and transport bridge between a local process and a remote agent.
//!
//! The crate holds the decisions of the bridge and leaves the I/O that they
//! ask for to the caller:
//!
//! - [`fs_config`]: the file-system mode and the switches derived from it;
//! - [`text`], [`version`], [`wire`]: decimal numerals and header text,
//!   semantic versions, and the primitives of the wire format;
//! - [`codec`]: the messages of the session protocol and their octets;
//! - [`handshake`], [`request`]: the upgrade request and the verification of
//!   its response;
//! - [`connection`]: one transport presented as a pair of message queues;
//! - [`operator`], [`negotiator`]: the session with the operator and how it
//!   comes about;
//! - [`keepalive`]: the liveness probe and its supervisor;
//! - [`lifecycle`]: the life of the proxy process.

pub mod codec;
pub mod connection;
pub mod fs_config;
pub mod handshake;
pub mod keepalive;
pub mod lifecycle;
pub mod negotiator;
pub mod operator;
pub mod request;
pub mod text;
pub mod version;
pub mod wire;
