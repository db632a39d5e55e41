//! MAC-layer management entity (MLME) core for an 802.11 client station.
//!
//! The crate is organised bottom-up:
//! - `bits`: masked sub-range accessors over unsigned backing integers,
//!   the foundation of every IEEE-numbered bitfield.
//! - `wire`: little-endian integer encodings as byte sequences.
//! - `buffer_reader` / `buffer_writer`: a bounds-checked cursor over a byte
//!   buffer; truncated input is reported as absence, never as a panic.
//! - `mac`: management and data frame headers, LLC/SNAP encapsulation, and
//!   MSDU extraction from (possibly aggregated) data frames.
//! - `fields`: information-element field structures, including the mesh
//!   path-discovery/reply/error elements with repeated sub-records.
//! - `sequence`: per-traffic-class 802.11 sequence numbers modulo 4096.
//! - `timer`: single-shot timed events with explicit cancellation.
//! - `device`: the buffer/transmit gateway and the upper-layer message queue.
//! - `client`: the client station state machine, data-frame admission and
//!   EAPOL bridging.

use vstd::prelude::*;

pub mod bits;
pub mod client;
pub mod device;
pub mod error;
pub mod fields;
pub mod frame_writer;
pub mod sequence;
pub mod timer;
pub mod buffer_reader;
pub mod buffer_writer;
pub mod mac;
pub mod messages;
pub mod wire;
