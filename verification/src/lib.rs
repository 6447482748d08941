//! A user-space PXE boot server core: DHCP/PXE request classification,
//! DHCP reply construction, a TFTP session engine with option negotiation
//! and retransmission, and the Ethernet/IPv4/UDP framing they rest on.
//!
//! Everything here works on plain byte buffers; the surrounding binary
//! owns the raw device and the files being served.

use vstd::prelude::*;

mod error;
pub mod bytes;
pub mod tftp_wire;
pub mod frame;
pub mod tftp_state;
pub mod dhcp;
pub mod dhcp_reply;
pub mod socket;

pub use error::Error;

verus! {

/// Maximum number of retransmissions attempted by the server before giving up.
pub const MAX_RETRIES: u8 = 10;

/// Interval in milliseconds between consecutive retries in case of no answer.
pub const RETRY_TIMEOUT_MS: i64 = 200;

/// IANA port for TFTP servers.
pub const TFTP_PORT: u16 = 69;

/// UDP port a DHCP server listens on.
pub const DHCP_SERVER_PORT: u16 = 67;

/// UDP port a DHCP client listens on.
pub const DHCP_CLIENT_PORT: u16 = 68;

} // verus!
