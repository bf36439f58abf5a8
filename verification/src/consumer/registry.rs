//! The channels of one connection.
//!
//! An exchange that carries several streams over one socket numbers them
//! anew on every connection. The registry of a connection remembers which
//! pair each number stands for; it is made empty with the connection and is
//! dropped with it.

use vstd::prelude::*;
use std::collections::HashMap;
use crate::consumer::error::ConsumerError;
use crate::domain::CurrencyPair;

verus! {

broadcast use vstd::std_specs::hash::group_hash_axioms;

/// The pair of a channel, or the failure to find one.
pub open spec fn lookup(channels: Map<i32, CurrencyPair>, channel_id: i32) -> Result<
    CurrencyPair,
    ConsumerError,
> {
    if channels.contains_key(channel_id) {
        Ok(channels[channel_id])
    } else {
        Err(ConsumerError::UnknownChannel(channel_id))
    }
}

/// The channels after a run of subscription confirmations on a new
/// connection, each confirmation a channel and its pair.
pub open spec fn registered(confirmations: Seq<(i32, CurrencyPair)>) -> Map<i32, CurrencyPair>
    decreases confirmations.len(),
{
    if confirmations.len() == 0 {
        Map::empty()
    } else {
        registered(confirmations.drop_last()).insert(confirmations.last().0, confirmations.last().1)
    }
}

/// What a registration found under the channel.
#[derive(Debug, Copy, Clone, PartialEq, Eq, Structural)]
pub enum Registration {
    /// The channel was not known.
    Fresh,
    /// The channel stood for the same pair already.
    Repeated,
    /// The channel stood for another pair, which is handed back. The
    /// exchange has broken its protocol.
    Replaced(CurrencyPair),
}

/// The channels of one connection, each with its pair.
pub struct ChannelRegistry {
    channels: HashMap<i32, CurrencyPair>,
}

impl View for ChannelRegistry {
    type V = Map<i32, CurrencyPair>;

    closed spec fn view(&self) -> Map<i32, CurrencyPair> {
        self.channels@
    }
}

impl ChannelRegistry {
    /// The registry of a new connection, which knows no channel.
    pub fn new() -> (registry: Self)
        ensures
            registry@ == Map::<i32, CurrencyPair>::empty(),
    {
        ChannelRegistry { channels: HashMap::new() }
    }

    /// Records that `channel_id` stands for `pair`, whatever it stood for,
    /// and says what it stood for.
    pub fn register(&mut self, channel_id: i32, pair: CurrencyPair) -> (found: Registration)
        ensures
            final(self)@ == old(self)@.insert(channel_id, pair),
            found == if !old(self)@.contains_key(channel_id) {
                Registration::Fresh
            } else if old(self)@[channel_id] == pair {
                Registration::Repeated
            } else {
                Registration::Replaced(old(self)@[channel_id])
            },
    {
        match self.channels.insert(channel_id, pair) {
            None => Registration::Fresh,
            Some(previous) => {
                if previous == pair {
                    Registration::Repeated
                } else {
                    Registration::Replaced(previous)
                }
            },
        }
    }

    /// The pair that `channel_id` stands for on this connection.
    pub fn resolve(&self, channel_id: i32) -> (pair: Result<CurrencyPair, ConsumerError>)
        ensures
            pair == lookup(self@, channel_id),
    {
        match self.channels.get(&channel_id) {
            Some(pair) => Ok(*pair),
            None => Err(ConsumerError::UnknownChannel(channel_id)),
        }
    }
}

/// A channel resolves to the pair that it was last registered with.
pub proof fn lemma_register_then_resolve(
    channels: Map<i32, CurrencyPair>,
    channel_id: i32,
    pair: CurrencyPair,
)
    ensures
        lookup(channels.insert(channel_id, pair), channel_id) == Ok::<CurrencyPair, ConsumerError>(
            pair,
        ),
{
}

/// Registering a channel leaves every other channel as it was.
pub proof fn lemma_register_keeps_others(
    channels: Map<i32, CurrencyPair>,
    channel_id: i32,
    pair: CurrencyPair,
    other: i32,
)
    requires
        other != channel_id,
    ensures
        lookup(channels.insert(channel_id, pair), other) == lookup(channels, other),
{
}

/// After any run of confirmations, a channel resolves to the pair of the
/// last confirmation that named it.
pub proof fn lemma_resolve_after_confirmations(
    confirmations: Seq<(i32, CurrencyPair)>,
    last: int,
)
    requires
        0 <= last < confirmations.len(),
        forall|later: int| last < later < confirmations.len() ==> confirmations[later].0 != confirmations[last].0,
    ensures
        lookup(registered(confirmations), confirmations[last].0) == Ok::<CurrencyPair, ConsumerError>(
            confirmations[last].1,
        ),
    decreases confirmations.len(),
{
    if last < confirmations.len() - 1 {
        let front = confirmations.drop_last();
        assert(front[last] == confirmations[last]);
        assert forall|later: int| last < later < front.len() implies front[later].0 != front[last].0 by {
            assert(front[later] == confirmations[later]);
        }
        lemma_resolve_after_confirmations(front, last);
    }
}

/// A channel that no confirmation has named does not resolve.
pub proof fn lemma_resolve_unregistered(confirmations: Seq<(i32, CurrencyPair)>, channel_id: i32)
    requires
        forall|i: int| 0 <= i < confirmations.len() ==> confirmations[i].0 != channel_id,
    ensures
        lookup(registered(confirmations), channel_id) == Err::<CurrencyPair, ConsumerError>(
            ConsumerError::UnknownChannel(channel_id),
        ),
    decreases confirmations.len(),
{
    if confirmations.len() > 0 {
        let front = confirmations.drop_last();
        assert forall|i: int| 0 <= i < front.len() implies front[i].0 != channel_id by {
            assert(front[i] == confirmations[i]);
        }
        lemma_resolve_unregistered(front, channel_id);
    }
}

} // verus!
