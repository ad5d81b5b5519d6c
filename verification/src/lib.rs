//! Protocol logic for the WS2300 family of weather stations.
//!
//! The station is a half-duplex serial device with a proprietary
//! request/response protocol: a reset handshake, a five-byte addressed read
//! command whose bytes are echoed one by one, a payload checksum trailer,
//! and packed-nibble memory cells that decode into physical measurements.
//! This crate holds the protocol layer itself — command encoding, the two
//! checksum families, the link-session state machine and the value decoder —
//! while the caller supplies the byte channel and drives the state machine.

pub mod codec;
pub mod decode;
pub mod error;
pub mod memory_map;
pub mod session;
pub mod snapshot;
