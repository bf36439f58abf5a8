//! The messages of the BTCMarkets feed.

use vstd::prelude::*;

verus! {

pub type Timestamp = i64;

pub type Price = i64;

pub type Volume = i64;

pub type Total = i64;

pub type Amount = i64;

pub type PairCode = i64;

/// A message to the exchange.
#[derive(Debug, PartialEq, Eq)]
pub enum Request {
    JoinQueue { channel_name: String, event_name: String },
}

/// The mathematical value of a [`Request`].
pub enum RequestView {
    JoinQueue { channel_name: Seq<char>, event_name: Seq<char> },
}

impl View for Request {
    type V = RequestView;

    open spec fn view(&self) -> RequestView {
        match *self {
            Request::JoinQueue { channel_name, event_name } => RequestView::JoinQueue {
                channel_name: channel_name@,
                event_name: event_name@,
            },
        }
    }
}

/// A message from the exchange.
#[derive(Debug, PartialEq, Eq)]
pub enum Response {
    OrderbookSnapshot {
        currency: String,
        instrument: String,
        timestamp: Timestamp,
        market_id: i64,
        snapshot_id: i64,
        bids: Vec<(Price, Amount, PairCode)>,
        asks: Vec<(Price, Amount, PairCode)>,
    },
    Trade {
        id: i64,
        timestamp: Timestamp,
        market_id: i64,
        agency: String,
        instrument: String,
        currency: String,
        trades: Vec<(Timestamp, Price, Volume, Total)>,
    },
    Status { status: String },
}

} // verus!
