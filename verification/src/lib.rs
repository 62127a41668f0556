//! A LAN presence-and-chat core: nodes announce themselves over UDP broadcast,
//! collect the peers they hear into a deduplicated registry, and let the
//! operator pick one by index to open a point-to-point byte-relay session.
//!
//! This crate holds the decision logic: the peer model, the registry, the
//! command grammar, and the step functions of the discovery loop, the session
//! engine and the coordinator. The surrounding process performs the socket and
//! terminal I/O and feeds events to these functions.

use vstd::prelude::*;

pub mod coordinator;
pub mod discovery;
pub mod peer;
pub mod registry;
pub mod session;
pub mod text;

verus! {

/// The well-known port shared by discovery datagrams and session streams.
pub const PORT: u16 = 2000;

/// Milliseconds between presence broadcasts.
pub const REBROADCAST_MS: u64 = 1000;

/// Size in bytes of the fixed display-name buffer carried by every beacon.
pub const NAME_SIZE: usize = 32;

/// Upper bound on the bytes moved by one relay read or one operator input read.
pub const CHUNK_SIZE: usize = 256;

} // verus!
