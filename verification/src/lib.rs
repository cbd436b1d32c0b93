//! Verified core of a SOCKS5 UDP-ASSOCIATE relay bridge.
//!
//! The crate holds the pure logic of the bridge: the address and command
//! translation between the SOCKS5 wire vocabulary and the relay/tunnel
//! vocabulary, and the per-datagram decisions of the two forwarding loops.
//! The asynchronous shell (sockets, channels, the race of the loops) lives
//! outside the library and drives these functions.

pub mod address;
pub mod bridge;
pub mod convert;
