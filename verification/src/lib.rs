//! Discovery of game servers over UDP: the wire formats of the master
//! directory and of the per-server info query, the paginated crawl of the
//! directory as a state machine, and the bookkeeping of a discovery run.
//!
//! Nothing here touches a socket. A driver performs the exchanges and feeds
//! the datagrams it receives to these functions.

use vstd::prelude::*;

pub mod bytes;
pub mod endpoint;
pub mod error;
pub mod codec;
pub mod info;
pub mod crawl;
pub mod probe;
pub mod discovery;

verus! {

/// The name and port of the master directory.
pub const MASTER_SERVER: &'static str = "hl2master.steampowered.com:27011";

/// The seconds allowed for each send and each receive.
pub const TIMEOUT_SECS: u64 = 5;

/// The size of the buffer that a reply is received into.
pub const DATAGRAM_SIZE: usize = 2048;

} // verus!
