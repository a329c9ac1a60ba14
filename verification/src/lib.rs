//! Client-side core of a length-prefixed, request/response remote-console
//! protocol (RCON style).
//!
//! The crate is organised in three layers, leaves first:
//!
//! * [`packet`]: the pure wire codec — framing and parsing of single packets,
//!   with a spec-level description of the byte format and a proved round trip.
//! * [`connection`]: the request/response correlation rules for one
//!   authenticated connection — request-counter allocation, the
//!   authentication handshake check, the multi-packet termination protocol of
//!   the background receiver, and the ordering of candidate endpoints.
//! * [`reconnect`]: the reconnecting supervisor's status machine —
//!   `Connected` / `Disconnected` / `Stopped` — and its transitions.
//!
//! Everything here is synchronous and I/O free: the functions decide, the
//! caller performs the reads, writes and waits and feeds the results back in.

pub mod connection;
pub mod error;
pub mod packet;
pub mod reconnect;

pub use connection::Settings;
pub use error::RconError;
