//! The canonical events that are published to subscribers.

use vstd::prelude::*;
use crate::domain::{CurrencyPair, Exchange};

pub mod server;

verus! {

/// Milliseconds since the Unix epoch.
pub type Timestamp = i64;

/// A fixed-point price.
pub type Price = i64;

/// A fixed-point volume.
pub type Volume = i64;

/// A price times a volume.
pub type Total = i64;

/// One canonical event.
#[derive(Debug, PartialEq, Eq)]
pub enum Broadcast {
    Heartbeat {  },
    OrderbookUpdate {
        source: Exchange,
        pair: CurrencyPair,
        bids: Vec<(Price, Volume)>,
        asks: Vec<(Price, Volume)>,
    },
    OrderbookRemove {
        source: Exchange,
        pair: CurrencyPair,
        bids: Vec<(Price, Volume)>,
        asks: Vec<(Price, Volume)>,
    },
    OrderbookSnapshot {
        source: Exchange,
        pair: CurrencyPair,
        bids: Vec<(Price, Volume)>,
        asks: Vec<(Price, Volume)>,
    },
    TradeSnapshot {
        source: Exchange,
        pair: CurrencyPair,
        trades: Vec<(Timestamp, Price, Volume, Total)>,
    },
    Trade { source: Exchange, pair: CurrencyPair, trade: (Timestamp, Price, Volume, Total) },
    Connected { multiplier: i32 },
    ExchangeConnectionOpened { exchange: Exchange, ts: Timestamp },
    ExchangeConnectionClosed { exchange: Exchange, ts: Timestamp },
}

/// What one inbound message amounts to: no event, one, or a list of them.
#[derive(Debug, PartialEq, Eq)]
pub enum BroadcastType {
    Nothing,
    One(Broadcast),
    Many(Vec<Broadcast>),
}

/// The mathematical value of a [`Broadcast`].
pub enum BroadcastView {
    Heartbeat,
    OrderbookUpdate {
        source: Exchange,
        pair: CurrencyPair,
        bids: Seq<(Price, Volume)>,
        asks: Seq<(Price, Volume)>,
    },
    OrderbookRemove {
        source: Exchange,
        pair: CurrencyPair,
        bids: Seq<(Price, Volume)>,
        asks: Seq<(Price, Volume)>,
    },
    OrderbookSnapshot {
        source: Exchange,
        pair: CurrencyPair,
        bids: Seq<(Price, Volume)>,
        asks: Seq<(Price, Volume)>,
    },
    TradeSnapshot {
        source: Exchange,
        pair: CurrencyPair,
        trades: Seq<(Timestamp, Price, Volume, Total)>,
    },
    Trade { source: Exchange, pair: CurrencyPair, trade: (Timestamp, Price, Volume, Total) },
    Connected { multiplier: i32 },
    ExchangeConnectionOpened { exchange: Exchange, ts: Timestamp },
    ExchangeConnectionClosed { exchange: Exchange, ts: Timestamp },
}

/// The mathematical value of a [`BroadcastType`].
pub enum BroadcastTypeView {
    Nothing,
    One(BroadcastView),
    Many(Seq<BroadcastView>),
}

impl View for Broadcast {
    type V = BroadcastView;

    open spec fn view(&self) -> BroadcastView {
        match *self {
            Broadcast::Heartbeat {  } => BroadcastView::Heartbeat,
            Broadcast::OrderbookUpdate { source, pair, bids, asks } => BroadcastView::OrderbookUpdate {
                source,
                pair,
                bids: bids@,
                asks: asks@,
            },
            Broadcast::OrderbookRemove { source, pair, bids, asks } => BroadcastView::OrderbookRemove {
                source,
                pair,
                bids: bids@,
                asks: asks@,
            },
            Broadcast::OrderbookSnapshot { source, pair, bids, asks } => BroadcastView::OrderbookSnapshot {
                source,
                pair,
                bids: bids@,
                asks: asks@,
            },
            Broadcast::TradeSnapshot { source, pair, trades } => BroadcastView::TradeSnapshot {
                source,
                pair,
                trades: trades@,
            },
            Broadcast::Trade { source, pair, trade } => BroadcastView::Trade { source, pair, trade },
            Broadcast::Connected { multiplier } => BroadcastView::Connected { multiplier },
            Broadcast::ExchangeConnectionOpened { exchange, ts } => BroadcastView::ExchangeConnectionOpened {
                exchange,
                ts,
            },
            Broadcast::ExchangeConnectionClosed { exchange, ts } => BroadcastView::ExchangeConnectionClosed {
                exchange,
                ts,
            },
        }
    }
}

/// The values of a list of events, in order.
pub open spec fn views_of(events: Seq<Broadcast>) -> Seq<BroadcastView> {
    Seq::new(events.len(), |i: int| events[i]@)
}

impl View for BroadcastType {
    type V = BroadcastTypeView;

    open spec fn view(&self) -> BroadcastTypeView {
        match *self {
            BroadcastType::Nothing => BroadcastTypeView::Nothing,
            BroadcastType::One(event) => BroadcastTypeView::One(event@),
            BroadcastType::Many(events) => BroadcastTypeView::Many(views_of(events@)),
        }
    }
}

impl BroadcastTypeView {
    /// The events to publish, in the order of publication.
    pub open spec fn events(self) -> Seq<BroadcastView> {
        match self {
            BroadcastTypeView::Nothing => Seq::empty(),
            BroadcastTypeView::One(event) => seq![event],
            BroadcastTypeView::Many(events) => events,
        }
    }
}

impl BroadcastType {
    /// Hands out the events to publish, in the order of publication.
    pub fn into_events(self) -> (events: Vec<Broadcast>)
        ensures
            views_of(events@) == self@.events(),
    {
        match self {
            BroadcastType::Nothing => {
                let events: Vec<Broadcast> = Vec::new();
                assert(views_of(events@) =~= self@.events());
                events
            },
            BroadcastType::One(event) => {
                let mut events: Vec<Broadcast> = Vec::new();
                events.push(event);
                assert(views_of(events@) =~= self@.events());
                events
            },
            BroadcastType::Many(events) => events,
        }
    }
}

} // verus!
