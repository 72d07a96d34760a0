//! The transport boundary.
//!
//! Each operation performs exactly one exchange: open a fresh TCP
//! connection, write the encoded request, read the reply, close.  That raw
//! I/O cannot stand in this library; the code that performs it hands the
//! outcome over as an [`Exchange`] value, and everything decided from that
//! point on is verified here.

use vstd::prelude::*;

verus! {

/// The outcome of one raw request/response exchange.
pub enum Exchange {
    /// The connection was made, the whole request was written, and this
    /// reply text was read back.
    Reply(String),
    /// The connection could not be established.
    NoConnection,
    /// The connection was made, but writing the request failed.
    SendFailed,
    /// The request was written, but no reply text was obtained: the read
    /// failed, the bytes were not valid text, or no read was attempted
    /// (the fire-and-confirm operations never read).
    NoReply,
}

impl Exchange {
    /// The request reached the wire: the connection was made and the whole
    /// request was written.
    pub open spec fn sent(self) -> bool {
        match self {
            Exchange::NoConnection => false,
            Exchange::SendFailed => false,
            _ => true,
        }
    }

    /// The reply text, where one was read.
    pub open spec fn reply(self) -> Option<Seq<char>> {
        match self {
            Exchange::Reply(t) => Some(t@),
            _ => None,
        }
    }
}

} // verus!
