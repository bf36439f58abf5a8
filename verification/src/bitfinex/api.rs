//! The messages of the Bitfinex feed.
//!
//! The exchange writes prices, amounts and times as decimal numbers. Here
//! they are fixed-point already: whoever reads the wire scales each number
//! once, before the message is built.

use vstd::prelude::*;

verus! {

pub type ChannelId = i32;

pub type OrderId = i64;

/// Milliseconds since the Unix epoch.
pub type Timestamp = i64;

/// A fixed-point amount. Its sign tells the side: positive for a bid.
pub type Amount = i64;

/// A fixed-point price.
pub type Price = i64;

#[derive(Debug, Copy, Clone, PartialEq, Eq, Structural)]
pub enum Precision {
    R0,
    P0,
    P1,
    P2,
    P3,
}

#[derive(Debug, Copy, Clone, PartialEq, Eq, Structural)]
pub enum Frequency {
    F0,
    F1,
}

#[derive(Debug, Copy, Clone, PartialEq, Eq, Structural)]
pub enum TradeUpdateType {
    WithTradeId,
    WithoutTradeId,
}

/// A message to the exchange.
#[derive(Debug, PartialEq, Eq)]
pub enum Request {
    JoinQueue {
        event: String,
        channel: String,
        symbol: String,
        precision: Precision,
        frequency: Frequency,
        length: String,
    },
}

/// The mathematical value of a [`Request`].
pub enum RequestView {
    JoinQueue {
        event: Seq<char>,
        channel: Seq<char>,
        symbol: Seq<char>,
        precision: Precision,
        frequency: Frequency,
        length: Seq<char>,
    },
}

impl View for Request {
    type V = RequestView;

    open spec fn view(&self) -> RequestView {
        match *self {
            Request::JoinQueue { event, channel, symbol, precision, frequency, length } => RequestView::JoinQueue {
                event: event@,
                channel: channel@,
                symbol: symbol@,
                precision,
                frequency,
                length: length@,
            },
        }
    }
}

/// A message from the exchange.
#[derive(Debug, PartialEq, Eq)]
#[allow(inconsistent_fields)]
pub enum Response {
    Connected { event: String, version: i32 },
    SubscribeConfirmation {
        event: String,
        channel: String,
        channel_id: ChannelId,
        pair: String,
        symbol: String,
        precision: Option<Precision>,
        frequency: Option<Frequency>,
        length: Option<String>,
    },
    SubscribeError {
        event: String,
        channel: String,
        code: i32,
        msg: String,
        pair: String,
        symbol: String,
        precision: Precision,
        frequency: Frequency,
        length: String,
    },
    /// The text is always "hb".
    Heartbeat(ChannelId, String),
    InitialTrade(ChannelId, Vec<(OrderId, Timestamp, Amount, Price)>),
    Trade(ChannelId, TradeUpdateType, (OrderId, Timestamp, Amount, Price)),
    InitialOrderbook(ChannelId, Vec<(OrderId, Price, Amount)>),
    OrderbookUpdate(ChannelId, (OrderId, Price, Amount)),
}

} // verus!
