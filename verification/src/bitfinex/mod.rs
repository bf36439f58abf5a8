//! The Bitfinex adapter.
//!
//! The exchange carries every stream over one socket and numbers the
//! streams as it confirms each subscription. A data message names only its
//! channel; the adapter finds the pair in the registry of its connection.

use vstd::prelude::*;
use vstd::string::*;
use crate::broadcast_api::{
    Broadcast,
    BroadcastType,
    BroadcastTypeView,
    BroadcastView,
    Price,
    Timestamp,
    Total,
    Volume,
};
use crate::consumer::error::ConsumerError;
use crate::consumer::registry::{lookup, ChannelRegistry, Registration};
use crate::consumer::MarketHandler;
use crate::domain::{same_text, CurrencyPair, Exchange};
use self::api::{Amount, ChannelId, Frequency, OrderId, Precision, Request, RequestView, Response};

pub mod api;

verus! {

/// One order of the book as the exchange sends it: its id, price and amount.
pub type Order = (OrderId, Price, Amount);

/// One trade as the exchange sends it: its id, time, amount and price.
pub type TradeEntry = (OrderId, Timestamp, Amount, Price);

/// The adapter of one connection to Bitfinex.
pub struct BitfinexHandler {
    /// The channels that the exchange has confirmed on this connection.
    pub channels: ChannelRegistry,
    /// The pairs to subscribe to.
    pub pairs: Vec<CurrencyPair>,
}

/// The exchange's symbol for a pair.
pub open spec fn symbol_name(pair: CurrencyPair) -> Seq<char> {
    match pair {
        CurrencyPair::XRPBTC => "tXRPBTC"@,
    }
}

/// The pair that a symbol of the exchange names, if any.
pub open spec fn pair_of_symbol(symbol: Seq<char>) -> Option<CurrencyPair> {
    if symbol == "tXRPBTC"@ {
        Some(CurrencyPair::XRPBTC)
    } else {
        None
    }
}

/// The subscription to one channel of a pair: raw books, sent as they
/// change, a hundred levels deep.
pub open spec fn join_request(channel: Seq<char>, pair: CurrencyPair) -> RequestView {
    RequestView::JoinQueue {
        event: "subscribe"@,
        channel,
        symbol: symbol_name(pair),
        precision: Precision::R0,
        frequency: Frequency::F0,
        length: "100"@,
    }
}

/// What became of a message: its events, or why it was dropped.
pub open spec fn outcome(broadcast: Result<BroadcastType, ConsumerError>) -> Result<
    BroadcastTypeView,
    ConsumerError,
> {
    match broadcast {
        Ok(events) => Ok(events@),
        Err(error) => Err(error),
    }
}

/// The event for one changed level. A positive amount is a bid; any other
/// is an ask, published with the amount's magnitude. A price of zero says
/// that the level has gone. The one amount without a magnitude is refused.
pub open spec fn orderbook_update(pair: CurrencyPair, price: Price, amount: Amount) -> Result<
    BroadcastTypeView,
    ConsumerError,
> {
    if amount == i64::MIN {
        Err(ConsumerError::OutOfRange)
    } else {
        let bids = if amount > 0 {
            seq![(price, amount)]
        } else {
            Seq::empty()
        };
        let asks = if amount > 0 {
            Seq::empty()
        } else {
            seq![(price, (-amount) as i64)]
        };
        if price == 0 {
            Ok(
                BroadcastTypeView::One(
                    BroadcastView::OrderbookRemove { source: Exchange::Bitfinex, pair, bids, asks },
                ),
            )
        } else {
            Ok(
                BroadcastTypeView::One(
                    BroadcastView::OrderbookUpdate { source: Exchange::Bitfinex, pair, bids, asks },
                ),
            )
        }
    }
}

/// Whether the total of a trade, its price times its amount, can be written.
pub open spec fn total_fits(trade: TradeEntry) -> bool {
    i64::MIN <= trade.3 * trade.2 <= i64::MAX
}

/// A trade as it is published: time, price, amount, and their product.
pub open spec fn trade_record(trade: TradeEntry) -> (Timestamp, Price, Volume, Total) {
    (trade.1, trade.3, trade.2, (trade.3 * trade.2) as i64)
}

/// The event for one trade.
pub open spec fn trade_event(pair: CurrencyPair, trade: TradeEntry) -> Result<
    BroadcastTypeView,
    ConsumerError,
> {
    if total_fits(trade) {
        Ok(
            BroadcastTypeView::One(
                BroadcastView::Trade { source: Exchange::Bitfinex, pair, trade: trade_record(trade) },
            ),
        )
    } else {
        Err(ConsumerError::OutOfRange)
    }
}

/// The event for the trades that open a channel: all of them, in order,
/// unless the total of one cannot be written.
pub open spec fn initial_trades(pair: CurrencyPair, trades: Seq<TradeEntry>) -> Result<
    BroadcastTypeView,
    ConsumerError,
> {
    if forall|i: int| 0 <= i < trades.len() ==> total_fits(#[trigger] trades[i]) {
        Ok(
            BroadcastTypeView::One(
                BroadcastView::TradeSnapshot {
                    source: Exchange::Bitfinex,
                    pair,
                    trades: Seq::new(trades.len(), |i: int| trade_record(trades[i])),
                },
            ),
        )
    } else {
        Err(ConsumerError::OutOfRange)
    }
}

/// The bids among some orders: those with a positive amount, in order.
pub open spec fn bids_of(orders: Seq<Order>) -> Seq<(Price, Volume)> {
    orders.filter(|order: Order| order.2 > 0).map_values(|order: Order| (order.1, order.2))
}

/// The asks among some orders: the others, in order, each with the
/// magnitude of its amount.
pub open spec fn asks_of(orders: Seq<Order>) -> Seq<(Price, Volume)> {
    orders.filter(|order: Order| order.2 <= 0).map_values(
        |order: Order| (order.1, (-order.2) as i64),
    )
}

/// The event for the book that opens a channel, unless the amount of one
/// order has no magnitude.
pub open spec fn initial_orderbook(pair: CurrencyPair, orders: Seq<Order>) -> Result<
    BroadcastTypeView,
    ConsumerError,
> {
    if forall|i: int| 0 <= i < orders.len() ==> (#[trigger] orders[i]).2 != i64::MIN {
        Ok(
            BroadcastTypeView::One(
                BroadcastView::OrderbookSnapshot {
                    source: Exchange::Bitfinex,
                    pair,
                    bids: bids_of(orders),
                    asks: asks_of(orders),
                },
            ),
        )
    } else {
        Err(ConsumerError::OutOfRange)
    }
}

/// What a message amounts to on a connection with the given channels.
/// A data message is read under the pair of its channel and fails where the
/// channel is not known. A subscription confirmation publishes nothing; it
/// fails where its symbol is not supported, or where its channel stood for
/// another pair. Every other message is dropped.
pub open spec fn response_outcome(channels: Map<i32, CurrencyPair>, response: Response) -> Result<
    BroadcastTypeView,
    ConsumerError,
> {
    match response {
        Response::OrderbookUpdate(channel_id, order) => match lookup(channels, channel_id) {
            Ok(pair) => orderbook_update(pair, order.1, order.2),
            Err(error) => Err(error),
        },
        Response::Trade(channel_id, _, trade) => match lookup(channels, channel_id) {
            Ok(pair) => trade_event(pair, trade),
            Err(error) => Err(error),
        },
        Response::SubscribeConfirmation { channel_id, symbol, .. } => match pair_of_symbol(symbol@) {
            Some(pair) => if channels.contains_key(channel_id) && channels[channel_id] != pair {
                Err(ConsumerError::ChannelReassigned(channel_id))
            } else {
                Ok(BroadcastTypeView::Nothing)
            },
            None => Err(ConsumerError::UnknownPair),
        },
        Response::InitialOrderbook(channel_id, orders) => match lookup(channels, channel_id) {
            Ok(pair) => initial_orderbook(pair, orders@),
            Err(error) => Err(error),
        },
        Response::InitialTrade(channel_id, trades) => match lookup(channels, channel_id) {
            Ok(pair) => initial_trades(pair, trades@),
            Err(error) => Err(error),
        },
        _ => Ok(BroadcastTypeView::Nothing),
    }
}

/// The channels of a connection after a message: a confirmation with a
/// supported symbol registers its channel, and nothing else changes them.
pub open spec fn response_channels(channels: Map<i32, CurrencyPair>, response: Response) -> Map<
    i32,
    CurrencyPair,
> {
    match response {
        Response::SubscribeConfirmation { channel_id, symbol, .. } => match pair_of_symbol(symbol@) {
            Some(pair) => channels.insert(channel_id, pair),
            None => channels,
        },
        _ => channels,
    }
}

impl MarketHandler for BitfinexHandler {
    type Request = Request;

    /// For each pair, in order: its order book, then its trades.
    fn get_requests(pairs: &[CurrencyPair]) -> (requests: Vec<Request>)
        ensures
            requests@.len() == 2 * pairs@.len(),
            forall|i: int|
                0 <= i < pairs@.len() ==> (#[trigger] requests@[2 * i])@ == join_request(
                    "book"@,
                    pairs@[i],
                ),
            forall|i: int|
                0 <= i < pairs@.len() ==> (#[trigger] requests@[2 * i + 1])@ == join_request(
                    "trades"@,
                    pairs@[i],
                ),
    {
        let mut requests: Vec<Request> = Vec::new();
        let mut n: usize = 0;
        while n < pairs.len()
            invariant
                n <= pairs@.len(),
                requests@.len() == 2 * n,
                forall|i: int|
                    0 <= i < n ==> (#[trigger] requests@[2 * i])@ == join_request("book"@, pairs@[i]),
                forall|i: int|
                    0 <= i < n ==> (#[trigger] requests@[2 * i + 1])@ == join_request(
                        "trades"@,
                        pairs@[i],
                    ),
            decreases pairs@.len() - n,
        {
            requests.push(
                Request::JoinQueue {
                    event: String::from_str("subscribe"),
                    channel: String::from_str("book"),
                    symbol: Self::stringify_pair(&pairs[n]),
                    precision: Precision::R0,
                    frequency: Frequency::F0,
                    length: String::from_str("100"),
                },
            );
            requests.push(
                Request::JoinQueue {
                    event: String::from_str("subscribe"),
                    channel: String::from_str("trades"),
                    symbol: Self::stringify_pair(&pairs[n]),
                    precision: Precision::R0,
                    frequency: Frequency::F0,
                    length: String::from_str("100"),
                },
            );
            n += 1;
        }
        requests
    }

    fn stringify_pair(pair: &CurrencyPair) -> (name: String)
        ensures
            name@ == symbol_name(*pair),
    {
        match *pair {
            CurrencyPair::XRPBTC => String::from_str("tXRPBTC"),
        }
    }
}

impl BitfinexHandler {
    /// The adapter of a new connection, which knows no channel yet.
    pub fn new(pairs: Vec<CurrencyPair>) -> (handler: Self)
        ensures
            handler.pairs == pairs,
            handler.channels@ == Map::<i32, CurrencyPair>::empty(),
    {
        BitfinexHandler { channels: ChannelRegistry::new(), pairs }
    }

    /// Turns one message of the exchange into events, and registers the
    /// channel of a subscription confirmation.
    pub fn handle_response(&mut self, response: Response) -> (broadcast: Result<
        BroadcastType,
        ConsumerError,
    >)
        ensures
            final(self).pairs == old(self).pairs,
            outcome(broadcast) == response_outcome(old(self).channels@, response),
            final(self).channels@ == response_channels(old(self).channels@, response),
    {
        match response {
            Response::OrderbookUpdate(channel_id, order) => {
                match self.channels.resolve(channel_id) {
                    Ok(pair) => map_orderbook_update(pair, order.1, order.2),
                    Err(error) => Err(error),
                }
            },
            Response::Trade(channel_id, _trade_update_type, trade) => {
                match self.channels.resolve(channel_id) {
                    Ok(pair) => map_trade(pair, trade),
                    Err(error) => Err(error),
                }
            },
            Response::SubscribeConfirmation { channel_id, symbol, .. } => {
                match map_pair_code(symbol.as_str()) {
                    Ok(pair) => match self.channels.register(channel_id, pair) {
                        Registration::Replaced(_) => Err(ConsumerError::ChannelReassigned(channel_id)),
                        _ => Ok(BroadcastType::Nothing),
                    },
                    Err(error) => Err(error),
                }
            },
            Response::InitialOrderbook(channel_id, orders) => {
                match self.channels.resolve(channel_id) {
                    Ok(pair) => map_initial_orderbook(pair, orders),
                    Err(error) => Err(error),
                }
            },
            Response::InitialTrade(channel_id, trades) => {
                match self.channels.resolve(channel_id) {
                    Ok(pair) => map_initial_trades(pair, trades),
                    Err(error) => Err(error),
                }
            },
            _ => Ok(BroadcastType::Nothing),
        }
    }
}

/// Maps a symbol of the exchange to its pair. The exchange lists its symbols
/// at https://api.bitfinex.com/v1/symbols.
pub fn map_pair_code(pair_code: &str) -> (pair: Result<CurrencyPair, ConsumerError>)
    ensures
        pair == match pair_of_symbol(pair_code@) {
            Some(known) => Ok::<CurrencyPair, ConsumerError>(known),
            None => Err(ConsumerError::UnknownPair),
        },
{
    if same_text(pair_code, "tXRPBTC") {
        Ok(CurrencyPair::XRPBTC)
    } else {
        Err(ConsumerError::UnknownPair)
    }
}

/// Publishes one changed level of a book.
pub fn map_orderbook_update(pair: CurrencyPair, price: Price, amount: Amount) -> (broadcast: Result<
    BroadcastType,
    ConsumerError,
>)
    ensures
        outcome(broadcast) == orderbook_update(pair, price, amount),
{
    if amount == i64::MIN {
        return Err(ConsumerError::OutOfRange);
    }
    let mut bids: Vec<(Price, Volume)> = Vec::new();
    let mut asks: Vec<(Price, Volume)> = Vec::new();
    if amount > 0 {
        bids.push((price, amount));
    } else {
        asks.push((price, -amount));
    }
    proof {
        let expected = orderbook_update(pair, price, amount)->Ok_0->One_0;
        if price == 0 {
            assert(bids@ =~= expected->OrderbookRemove_bids);
            assert(asks@ =~= expected->OrderbookRemove_asks);
        } else {
            assert(bids@ =~= expected->OrderbookUpdate_bids);
            assert(asks@ =~= expected->OrderbookUpdate_asks);
        }
    }
    let broadcast = if price == 0 {
        Broadcast::OrderbookRemove { source: Exchange::Bitfinex, pair, bids, asks }
    } else {
        Broadcast::OrderbookUpdate { source: Exchange::Bitfinex, pair, bids, asks }
    };
    Ok(BroadcastType::One(broadcast))
}

/// Publishes one trade.
pub fn map_trade(pair: CurrencyPair, trade: TradeEntry) -> (broadcast: Result<
    BroadcastType,
    ConsumerError,
>)
    ensures
        outcome(broadcast) == trade_event(pair, trade),
{
    let (_order_id, ts, amount, price) = trade;
    match price.checked_mul(amount) {
        Some(total) => Ok(
            BroadcastType::One(
                Broadcast::Trade { source: Exchange::Bitfinex, pair, trade: (ts, price, amount, total) },
            ),
        ),
        None => Err(ConsumerError::OutOfRange),
    }
}

/// Publishes the trades that open a channel.
pub fn map_initial_trades(pair: CurrencyPair, trades: Vec<TradeEntry>) -> (broadcast: Result<
    BroadcastType,
    ConsumerError,
>)
    ensures
        outcome(broadcast) == initial_trades(pair, trades@),
{
    let mut trades_out: Vec<(Timestamp, Price, Volume, Total)> = Vec::new();
    let mut i: usize = 0;
    while i < trades.len()
        invariant
            i <= trades.len(),
            trades_out@.len() == i,
            forall|k: int| 0 <= k < i ==> total_fits(#[trigger] trades@[k]),
            forall|k: int| 0 <= k < i ==> trades_out@[k] == trade_record(trades@[k]),
        decreases trades.len() - i,
    {
        let (_order_id, ts, amount, price) = trades[i];
        match price.checked_mul(amount) {
            Some(total) => {
                trades_out.push((ts, price, amount, total));
            },
            None => {
                assert(!total_fits(trades@[i as int]));
                return Err(ConsumerError::OutOfRange);
            },
        }
        i += 1;
    }
    assert(trades_out@ =~= Seq::new(trades@.len(), |k: int| trade_record(trades@[k])));
    Ok(BroadcastType::One(Broadcast::TradeSnapshot { source: Exchange::Bitfinex, pair, trades: trades_out }))
}

/// After a subscription confirmation with a supported symbol, the channel
/// that it names resolves to the pair of that symbol, whatever the channel
/// stood for before.
pub proof fn lemma_confirmed_channel_resolves(channels: Map<i32, CurrencyPair>, response: Response)
    requires
        response is SubscribeConfirmation,
        pair_of_symbol(response->SubscribeConfirmation_symbol@) is Some,
    ensures
        lookup(response_channels(channels, response), response->SubscribeConfirmation_channel_id) == Ok::<
            CurrencyPair,
            ConsumerError,
        >(pair_of_symbol(response->SubscribeConfirmation_symbol@)->Some_0),
{
}

/// A message that is no subscription confirmation changes no channel, and a
/// data message on a channel that is not known publishes nothing.
pub proof fn lemma_unknown_channel_is_refused(channels: Map<i32, CurrencyPair>, response: Response)
    requires
        !(response is SubscribeConfirmation),
    ensures
        response_channels(channels, response) == channels,
        match response {
            Response::OrderbookUpdate(channel_id, _) | Response::Trade(channel_id, _, _)
            | Response::InitialOrderbook(channel_id, _) | Response::InitialTrade(channel_id, _) =>
                !channels.contains_key(channel_id) ==> response_outcome(channels, response) == Err::<
                    BroadcastTypeView,
                    ConsumerError,
                >(ConsumerError::UnknownChannel(channel_id)),
            _ => true,
        },
{
}

/// How the bids grow with the orders: by the last order, where it is a bid.
pub proof fn lemma_bids_step(orders: Seq<Order>)
    requires
        orders.len() > 0,
    ensures
        bids_of(orders) == if orders.last().2 > 0 {
            bids_of(orders.drop_last()).push((orders.last().1, orders.last().2))
        } else {
            bids_of(orders.drop_last())
        },
{
    reveal(Seq::filter);
    if orders.last().2 > 0 {
        assert(bids_of(orders) =~= bids_of(orders.drop_last()).push(
            (orders.last().1, orders.last().2),
        ));
    }
}

/// How the asks grow with the orders: by the last order, where it is no bid.
pub proof fn lemma_asks_step(orders: Seq<Order>)
    requires
        orders.len() > 0,
    ensures
        asks_of(orders) == if orders.last().2 <= 0 {
            asks_of(orders.drop_last()).push((orders.last().1, (-orders.last().2) as i64))
        } else {
            asks_of(orders.drop_last())
        },
{
    reveal(Seq::filter);
    if orders.last().2 <= 0 {
        assert(asks_of(orders) =~= asks_of(orders.drop_last()).push(
            (orders.last().1, (-orders.last().2) as i64),
        ));
    }
}

/// Publishes the book that opens a channel.
pub fn map_initial_orderbook(pair: CurrencyPair, orders: Vec<Order>) -> (broadcast: Result<
    BroadcastType,
    ConsumerError,
>)
    ensures
        outcome(broadcast) == initial_orderbook(pair, orders@),
{
    let mut bids: Vec<(Price, Volume)> = Vec::new();
    let mut asks: Vec<(Price, Volume)> = Vec::new();
    let mut i: usize = 0;
    proof {
        reveal(Seq::filter);
        assert(bids_of(orders@.take(0)) =~= Seq::empty());
        assert(asks_of(orders@.take(0)) =~= Seq::empty());
    }
    while i < orders.len()
        invariant
            i <= orders.len(),
            forall|k: int| 0 <= k < i ==> (#[trigger] orders@[k]).2 != i64::MIN,
            bids@ == bids_of(orders@.take(i as int)),
            asks@ == asks_of(orders@.take(i as int)),
        decreases orders.len() - i,
    {
        let (_order_id, price, amount) = orders[i];
        if amount == i64::MIN {
            return Err(ConsumerError::OutOfRange);
        }
        proof {
            assert(orders@.take(i + 1).drop_last() =~= orders@.take(i as int));
            assert(orders@.take(i + 1).last() == orders@[i as int]);
            lemma_bids_step(orders@.take(i + 1));
            lemma_asks_step(orders@.take(i + 1));
        }
        if amount > 0 {
            bids.push((price, amount));
        } else {
            asks.push((price, -amount));
        }
        i += 1;
    }
    assert(orders@.take(orders.len() as int) =~= orders@);
    Ok(BroadcastType::One(Broadcast::OrderbookSnapshot { source: Exchange::Bitfinex, pair, bids, asks }))
}

} // verus!
