//! What the server says of its own accord.

use vstd::prelude::*;
use crate::broadcast_api::{Broadcast, BroadcastView};
use crate::MULTIPLIER;

verus! {

/// The seconds between two heartbeats.
pub const HEARTBEAT_INTERVAL_SECS: u64 = 1;

/// The first event for a subscriber that has just connected: the scale of
/// every price and volume that will follow.
pub fn connected() -> (event: Broadcast)
    ensures
        event@ == (BroadcastView::Connected { multiplier: MULTIPLIER }),
{
    Broadcast::Connected { multiplier: MULTIPLIER }
}

/// The event that tells every subscriber that the server is alive.
pub fn heartbeat() -> (event: Broadcast)
    ensures
        event@ == BroadcastView::Heartbeat,
{
    Broadcast::Heartbeat {  }
}

} // verus!
