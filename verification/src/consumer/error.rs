//! The ways in which an exchange message can fail to become an event.

use vstd::prelude::*;

verus! {

/// Why a message was dropped.
#[derive(Debug, Copy, Clone, PartialEq, Eq, Structural)]
pub enum ConsumerError {
    /// A data message named a channel that no subscription confirmation has
    /// announced on this connection.
    UnknownChannel(i32),
    /// The exchange named a currency pair that is not supported.
    UnknownPair,
    /// A subscription confirmation gave a channel another pair than the one
    /// it had. The new pair has replaced the old one.
    ChannelReassigned(i32),
    /// A volume or a total does not fit the fixed-point range.
    OutOfRange,
    /// The configured address of an exchange is no address.
    BadAddress,
}

} // verus!
