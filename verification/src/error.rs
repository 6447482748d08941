//! The error taxonomy of the protocol core.

use vstd::prelude::*;

verus! {

/// Classified outcome of handling one inbound frame or one timeout sweep.
///
/// `Ignore` and `IgnoreNoLog` mean the input was not for us or there was
/// nothing to do; `Malformed` and `MissingDhcpOption` mean a wire-format
/// violation with no reply; `Tftp` is an in-session protocol violation;
/// `TftpEndOfFile` is the internal signal for a completed read;
/// `StopTftpConnection` carries the terminal error frame the caller must
/// still transmit; `Generic` is a host-side failure.
#[derive(Debug, Clone)]
pub enum Error {
    Ignore(String),
    IgnoreNoLog(String),
    Malformed(String),
    MissingDhcpOption(&'static str),
    Tftp(String),
    TftpEndOfFile,
    StopTftpConnection(Vec<u8>),
    Generic(String),
}

} // verus!
