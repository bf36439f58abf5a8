//! The BTCMarkets adapter.
//!
//! This exchange never sends a change to its order book: every message
//! carries the whole top of the book. The adapter keeps the last such
//! snapshot of each pair and publishes the difference to the next one.

use vstd::prelude::*;
use vstd::string::*;
use std::collections::HashMap;
use crate::broadcast_api::{Broadcast, BroadcastType, BroadcastTypeView, BroadcastView, Price, Volume};
use crate::consumer::error::ConsumerError;
use crate::consumer::MarketHandler;
use crate::domain::{same_text, CurrencyPair, Exchange};
use self::api::{Request, RequestView, Response};

pub mod api;

verus! {

broadcast use vstd::std_specs::hash::group_hash_axioms;

/// One level of the book: its price, its volume, and the exchange's own code.
/// Two entries are the same only where all three agree.
pub type OrderbookEntry = (i64, i64, i64);

/// The bids and the asks of one snapshot.
pub type OrderbookBidsAndAsks = (Vec<OrderbookEntry>, Vec<OrderbookEntry>);

/// The last snapshot of each pair, under the pair's rank.
pub type OrderbookSnapshots = HashMap<u64, OrderbookBidsAndAsks>;

/// The entries of `first` that `second` lacks, in the order of `first`.
pub open spec fn missing_from(first: Seq<OrderbookEntry>, second: Seq<OrderbookEntry>) -> Seq<
    OrderbookEntry,
> {
    first.filter(|entry: OrderbookEntry| !second.contains(entry))
}

/// The price and volume of each entry, in order.
pub open spec fn price_volume(entries: Seq<OrderbookEntry>) -> Seq<(Price, Volume)> {
    Seq::new(entries.len(), |i: int| (entries[i].0, entries[i].1))
}

/// The snapshot that is kept for a pair, if any.
pub open spec fn baseline(snapshots: Map<u64, OrderbookBidsAndAsks>, pair: CurrencyPair) -> Option<
    (Seq<OrderbookEntry>, Seq<OrderbookEntry>),
> {
    let key = pair.rank() as u64;
    if snapshots.contains_key(key) {
        Some((snapshots[key].0@, snapshots[key].1@))
    } else {
        None
    }
}

/// The removal to publish between two snapshots: none where nothing left.
pub open spec fn removal_events(
    pair: CurrencyPair,
    last: (Seq<OrderbookEntry>, Seq<OrderbookEntry>),
    bids: Seq<OrderbookEntry>,
    asks: Seq<OrderbookEntry>,
) -> Seq<BroadcastView> {
    let removed_bids = missing_from(last.0, bids);
    let removed_asks = missing_from(last.1, asks);
    if removed_bids.len() > 0 || removed_asks.len() > 0 {
        seq![
            BroadcastView::OrderbookRemove {
                source: Exchange::BtcMarkets,
                pair,
                bids: price_volume(removed_bids),
                asks: price_volume(removed_asks),
            },
        ]
    } else {
        Seq::empty()
    }
}

/// The addition to publish between two snapshots: none where nothing came.
pub open spec fn addition_events(
    pair: CurrencyPair,
    last: (Seq<OrderbookEntry>, Seq<OrderbookEntry>),
    bids: Seq<OrderbookEntry>,
    asks: Seq<OrderbookEntry>,
) -> Seq<BroadcastView> {
    let new_bids = missing_from(bids, last.0);
    let new_asks = missing_from(asks, last.1);
    if new_bids.len() > 0 || new_asks.len() > 0 {
        seq![
            BroadcastView::OrderbookUpdate {
                source: Exchange::BtcMarkets,
                pair,
                bids: price_volume(new_bids),
                asks: price_volume(new_asks),
            },
        ]
    } else {
        Seq::empty()
    }
}

/// What a snapshot amounts to, given the one kept for its pair: the whole
/// book where none is kept, else the removal and then the addition.
pub open spec fn orderbook_change(
    prior: Option<(Seq<OrderbookEntry>, Seq<OrderbookEntry>)>,
    pair: CurrencyPair,
    bids: Seq<OrderbookEntry>,
    asks: Seq<OrderbookEntry>,
) -> BroadcastTypeView {
    match prior {
        None => BroadcastTypeView::One(
            BroadcastView::OrderbookSnapshot {
                source: Exchange::BtcMarkets,
                pair,
                bids: price_volume(bids),
                asks: price_volume(asks),
            },
        ),
        Some(last) => BroadcastTypeView::Many(
            removal_events(pair, last, bids, asks) + addition_events(pair, last, bids, asks),
        ),
    }
}

/// The adapter of one connection to BTCMarkets.
pub struct BtcmarketsHandler {
    /// The last snapshot of each pair that has sent one on this connection.
    pub orderbook_snapshots: OrderbookSnapshots,
    /// The pairs to subscribe to.
    pub pairs: Vec<CurrencyPair>,
}

/// The exchange's name for a pair.
pub open spec fn pair_name(pair: CurrencyPair) -> Seq<char> {
    match pair {
        CurrencyPair::XRPBTC => "XRPBTC"@,
    }
}

/// The pair that an instrument and a currency name together, if any.
pub open spec fn pair_of_code(instrument: Seq<char>, currency: Seq<char>) -> Option<CurrencyPair> {
    if instrument + currency == "XRPBTC"@ {
        Some(CurrencyPair::XRPBTC)
    } else {
        None
    }
}

/// The subscription to a pair's order book.
pub open spec fn orderbook_request(pair: CurrencyPair) -> RequestView {
    RequestView::JoinQueue {
        channel_name: "Orderbook_"@ + pair_name(pair),
        event_name: "OrderBookChange"@,
    }
}

/// The subscription to a pair's trades.
pub open spec fn trade_request(pair: CurrencyPair) -> RequestView {
    RequestView::JoinQueue { channel_name: "TRADE_"@ + pair_name(pair), event_name: "MarketTrade"@ }
}

impl MarketHandler for BtcmarketsHandler {
    type Request = Request;

    /// For each pair, in order: its order book, then its trades.
    fn get_requests(pairs: &[CurrencyPair]) -> (requests: Vec<Request>)
        ensures
            requests@.len() == 2 * pairs@.len(),
            forall|i: int|
                0 <= i < pairs@.len() ==> (#[trigger] requests@[2 * i])@ == orderbook_request(pairs@[i]),
            forall|i: int|
                0 <= i < pairs@.len() ==> (#[trigger] requests@[2 * i + 1])@ == trade_request(
                    pairs@[i],
                ),
    {
        let mut requests: Vec<Request> = Vec::new();
        let mut n: usize = 0;
        while n < pairs.len()
            invariant
                n <= pairs@.len(),
                requests@.len() == 2 * n,
                forall|i: int|
                    0 <= i < n ==> (#[trigger] requests@[2 * i])@ == orderbook_request(pairs@[i]),
                forall|i: int|
                    0 <= i < n ==> (#[trigger] requests@[2 * i + 1])@ == trade_request(pairs@[i]),
            decreases pairs@.len() - n,
        {
            let pair = Self::stringify_pair(&pairs[n]);
            requests.push(
                Request::JoinQueue {
                    channel_name: String::from_str("Orderbook_").concat(pair.as_str()),
                    event_name: String::from_str("OrderBookChange"),
                },
            );
            requests.push(
                Request::JoinQueue {
                    channel_name: String::from_str("TRADE_").concat(pair.as_str()),
                    event_name: String::from_str("MarketTrade"),
                },
            );
            n += 1;
        }
        requests
    }

    fn stringify_pair(pair: &CurrencyPair) -> (name: String)
        ensures
            name@ == pair_name(*pair),
    {
        match *pair {
            CurrencyPair::XRPBTC => String::from_str("XRPBTC"),
        }
    }
}

/// Maps the exchange's two-part name of a pair. Supported pairs are listed at
/// https://api.btcmarkets.net/v2/market/active.
pub fn map_pair_code(instrument: &str, currency: &str) -> (pair: Result<CurrencyPair, ConsumerError>)
    ensures
        pair == match pair_of_code(instrument@, currency@) {
            Some(known) => Ok::<CurrencyPair, ConsumerError>(known),
            None => Err(ConsumerError::UnknownPair),
        },
{
    let code = String::from_str(instrument).concat(currency);
    if same_text(code.as_str(), "XRPBTC") {
        Ok(CurrencyPair::XRPBTC)
    } else {
        Err(ConsumerError::UnknownPair)
    }
}

impl BtcmarketsHandler {
    /// The adapter of a new connection: no snapshot is kept yet.
    pub fn new(pairs: Vec<CurrencyPair>) -> (handler: Self)
        ensures
            handler.pairs == pairs,
            handler.orderbook_snapshots@ == Map::<u64, OrderbookBidsAndAsks>::empty(),
    {
        BtcmarketsHandler { orderbook_snapshots: HashMap::new(), pairs }
    }

    /// Turns one message of the exchange into events. A snapshot of a book
    /// goes through [`map_orderbook_change`]; a list of trades is published
    /// as it came; anything else is dropped. A message that names an
    /// unsupported pair fails and changes nothing.
    pub fn handle_response(&mut self, response: Response) -> (broadcast: Result<
        BroadcastType,
        ConsumerError,
    >)
        ensures
            final(self).pairs == old(self).pairs,
            match response {
                Response::OrderbookSnapshot { currency, instrument, bids, asks, .. } => match pair_of_code(
                    instrument@,
                    currency@,
                ) {
                    Some(pair) => {
                        &&& broadcast is Ok
                        &&& broadcast->Ok_0@ == orderbook_change(
                            baseline(old(self).orderbook_snapshots@, pair),
                            pair,
                            bids@,
                            asks@,
                        )
                        &&& baseline(final(self).orderbook_snapshots@, pair) == Some((bids@, asks@))
                        &&& forall|other: CurrencyPair|
                            other != pair ==> baseline(final(self).orderbook_snapshots@, other)
                                == baseline(old(self).orderbook_snapshots@, other)
                    },
                    None => {
                        &&& broadcast == Err::<BroadcastType, ConsumerError>(ConsumerError::UnknownPair)
                        &&& final(self).orderbook_snapshots@ == old(self).orderbook_snapshots@
                    },
                },
                Response::Trade { currency, instrument, trades, .. } => {
                    &&& final(self).orderbook_snapshots@ == old(self).orderbook_snapshots@
                    &&& match pair_of_code(instrument@, currency@) {
                        Some(pair) => {
                            &&& broadcast is Ok
                            &&& broadcast->Ok_0@ == BroadcastTypeView::One(
                                BroadcastView::TradeSnapshot {
                                    source: Exchange::BtcMarkets,
                                    pair,
                                    trades: trades@,
                                },
                            )
                        },
                        None => broadcast == Err::<BroadcastType, ConsumerError>(
                            ConsumerError::UnknownPair,
                        ),
                    }
                },
                Response::Status { .. } => {
                    &&& final(self).orderbook_snapshots@ == old(self).orderbook_snapshots@
                    &&& broadcast is Ok
                    &&& broadcast->Ok_0@ == BroadcastTypeView::Nothing
                },
            },
    {
        match response {
            Response::OrderbookSnapshot { currency, instrument, bids, asks, .. } => {
                match map_pair_code(instrument.as_str(), currency.as_str()) {
                    Ok(pair) => Ok(map_orderbook_change(&mut self.orderbook_snapshots, pair, bids, asks)),
                    Err(e) => Err(e),
                }
            },
            Response::Trade { currency, instrument, trades, .. } => {
                match map_pair_code(instrument.as_str(), currency.as_str()) {
                    Ok(pair) => Ok(
                        BroadcastType::One(
                            Broadcast::TradeSnapshot { source: Exchange::BtcMarkets, pair, trades },
                        ),
                    ),
                    Err(e) => Err(e),
                }
            },
            _ => Ok(BroadcastType::Nothing),
        }
    }
}

/// Whether `entries` holds `entry`.
fn holds(entries: &Vec<OrderbookEntry>, entry: &OrderbookEntry) -> (found: bool)
    ensures
        found == entries@.contains(*entry),
{
    let mut i: usize = 0;
    while i < entries.len()
        invariant
            i <= entries.len(),
            forall|k: int| 0 <= k < i ==> entries@[k] != *entry,
        decreases entries.len() - i,
    {
        let e = &entries[i];
        if e.0 == entry.0 && e.1 == entry.1 && e.2 == entry.2 {
            return true;
        }
        i += 1;
    }
    false
}

/// The entries of `first` that `second` lacks.
fn lacking(first: &Vec<OrderbookEntry>, second: &Vec<OrderbookEntry>) -> (out: Vec<OrderbookEntry>)
    ensures
        out@ == missing_from(first@, second@),
{
    let mut out: Vec<OrderbookEntry> = Vec::new();
    let mut i: usize = 0;
    while i < first.len()
        invariant
            i <= first.len(),
            out@ == missing_from(first@.take(i as int), second@),
        decreases first.len() - i,
    {
        let entry = first[i];
        proof {
            assert(first@.take(i + 1).drop_last() =~= first@.take(i as int));
            assert(first@.take(i + 1).last() == entry);
            lemma_missing_from_step(first@.take(i + 1), second@);
        }
        if !holds(second, &entry) {
            out.push(entry);
        }
        i += 1;
    }
    assert(first@.take(first.len() as int) =~= first@);
    out
}

/// Compares two snapshots of one side of the book: what the second has lost
/// of the first, and what it has gained. Order and repetition in `first` and
/// `second` are kept in the two results.
pub fn diff(first: &Vec<OrderbookEntry>, second: &Vec<OrderbookEntry>) -> (changes: (
    Vec<OrderbookEntry>,
    Vec<OrderbookEntry>,
))
    ensures
        changes.0@ == missing_from(first@, second@),
        changes.1@ == missing_from(second@, first@),
{
    (lacking(first, second), lacking(second, first))
}

/// Strips the exchange's code from each entry.
fn strip(entries: &Vec<OrderbookEntry>) -> (out: Vec<(Price, Volume)>)
    ensures
        out@ == price_volume(entries@),
{
    let mut out: Vec<(Price, Volume)> = Vec::new();
    let mut i: usize = 0;
    while i < entries.len()
        invariant
            i <= entries.len(),
            out@ == price_volume(entries@.take(i as int)),
        decreases entries.len() - i,
    {
        out.push((entries[i].0, entries[i].1));
        assert(out@ =~= price_volume(entries@.take(i + 1)));
        i += 1;
    }
    assert(entries@.take(entries.len() as int) =~= entries@);
    out
}

/// Takes the next snapshot of a pair's book. The snapshot replaces the one
/// kept for the pair, whatever it holds. Where none was kept the whole book
/// is published; else what left the book, then what entered it, each only
/// where there is anything to say.
pub fn map_orderbook_change(
    orderbook_snapshots: &mut OrderbookSnapshots,
    pair: CurrencyPair,
    bids: Vec<OrderbookEntry>,
    asks: Vec<OrderbookEntry>,
) -> (broadcast: BroadcastType)
    ensures
        broadcast@ == orderbook_change(baseline(old(orderbook_snapshots)@, pair), pair, bids@, asks@),
        baseline(final(orderbook_snapshots)@, pair) == Some((bids@, asks@)),
        forall|other: CurrencyPair|
            other != pair ==> baseline(final(orderbook_snapshots)@, other) == baseline(
                old(orderbook_snapshots)@,
                other,
            ),
{
    let key: u64 = pair.ordinal();
    let ghost prior = baseline(orderbook_snapshots@, pair);
    let mut responses: Vec<Broadcast> = Vec::new();
    match orderbook_snapshots.get(&key) {
        None => {
            let broadcast = Broadcast::OrderbookSnapshot {
                source: Exchange::BtcMarkets,
                pair,
                bids: strip(&bids),
                asks: strip(&asks),
            };
            orderbook_snapshots.insert(key, (bids, asks));
            return BroadcastType::One(broadcast);
        },
        Some(last_snapshot) => {
            let (removed_bids, new_bids) = diff(&last_snapshot.0, &bids);
            let (removed_asks, new_asks) = diff(&last_snapshot.1, &asks);
            if removed_bids.len() > 0 || removed_asks.len() > 0 {
                responses.push(
                    Broadcast::OrderbookRemove {
                        source: Exchange::BtcMarkets,
                        pair,
                        bids: strip(&removed_bids),
                        asks: strip(&removed_asks),
                    },
                );
            }
            if new_bids.len() > 0 || new_asks.len() > 0 {
                responses.push(
                    Broadcast::OrderbookUpdate {
                        source: Exchange::BtcMarkets,
                        pair,
                        bids: strip(&new_bids),
                        asks: strip(&new_asks),
                    },
                );
            }
        },
    }
    orderbook_snapshots.insert(key, (bids, asks));
    let broadcast = BroadcastType::Many(responses);
    assert(broadcast@->Many_0 =~= orderbook_change(prior, pair, bids@, asks@)->Many_0);
    broadcast
}

/// Feeding the same snapshot twice publishes the whole book once and then
/// nothing: against itself a snapshot has lost nothing and gained nothing.
pub proof fn lemma_same_snapshot_is_silent(
    pair: CurrencyPair,
    bids: Seq<OrderbookEntry>,
    asks: Seq<OrderbookEntry>,
)
    ensures
        orderbook_change(None, pair, bids, asks) == BroadcastTypeView::One(
            BroadcastView::OrderbookSnapshot {
                source: Exchange::BtcMarkets,
                pair,
                bids: price_volume(bids),
                asks: price_volume(asks),
            },
        ),
        orderbook_change(Some((bids, asks)), pair, bids, asks) == BroadcastTypeView::Many(Seq::empty()),
{
    lemma_nothing_missing_from_itself(bids);
    lemma_nothing_missing_from_itself(asks);
    assert(removal_events(pair, (bids, asks), bids, asks) + addition_events(
        pair,
        (bids, asks),
        bids,
        asks,
    ) =~= Seq::empty());
}

/// How the difference grows with the first list: by its last entry, where
/// the second list lacks it.
pub proof fn lemma_missing_from_step(first: Seq<OrderbookEntry>, second: Seq<OrderbookEntry>)
    requires
        first.len() > 0,
    ensures
        missing_from(first, second) == if second.contains(first.last()) {
            missing_from(first.drop_last(), second)
        } else {
            missing_from(first.drop_last(), second).push(first.last())
        },
{
    reveal(Seq::filter);
}

/// The difference is exact: it holds an entry just where the first list holds
/// it and the second does not.
pub proof fn lemma_missing_from_members(
    first: Seq<OrderbookEntry>,
    second: Seq<OrderbookEntry>,
    entry: OrderbookEntry,
)
    ensures
        missing_from(first, second).contains(entry) <==> first.contains(entry) && !second.contains(
            entry,
        ),
    decreases first.len(),
{
    if first.len() == 0 {
        reveal(Seq::filter);
        assert(missing_from(first, second) =~= Seq::empty());
    } else {
        let front = first.drop_last();
        lemma_missing_from_step(first, second);
        lemma_missing_from_members(front, second, entry);
        let rest = missing_from(front, second);
        if first.contains(entry) {
            let k = choose|k: int| 0 <= k < first.len() && first[k] == entry;
            if k < first.len() - 1 {
                assert(front[k] == entry);
            }
        }
        if front.contains(entry) {
            let k = choose|k: int| 0 <= k < front.len() && front[k] == entry;
            assert(first[k] == entry);
        }
        if !second.contains(first.last()) {
            let grown = rest.push(first.last());
            if rest.contains(entry) {
                let k = choose|k: int| 0 <= k < rest.len() && rest[k] == entry;
                assert(grown[k] == entry);
            }
            if first.last() == entry {
                assert(grown[rest.len() as int] == entry);
            }
            if grown.contains(entry) {
                let k = choose|k: int| 0 <= k < grown.len() && grown[k] == entry;
                if k < rest.len() {
                    assert(rest[k] == entry);
                }
            }
        }
    }
}

/// The two differences lead from the first list to the second: an entry is
/// in the second just where it is in the first and was not lost, or was
/// gained.
pub proof fn lemma_changes_rebuild_snapshot(
    first: Seq<OrderbookEntry>,
    second: Seq<OrderbookEntry>,
    entry: OrderbookEntry,
)
    ensures
        second.contains(entry) <==> (first.contains(entry) && !missing_from(first, second).contains(
            entry,
        )) || missing_from(second, first).contains(entry),
        !(missing_from(first, second).contains(entry) && missing_from(second, first).contains(entry)),
{
    lemma_missing_from_members(first, second, entry);
    lemma_missing_from_members(second, first, entry);
}

/// No entry of a list is missing from that list.
pub proof fn lemma_nothing_missing_from_itself(entries: Seq<OrderbookEntry>)
    ensures
        missing_from(entries, entries).len() == 0,
{
    let rest = missing_from(entries, entries);
    if rest.len() > 0 {
        assert(rest.contains(rest[0]));
        lemma_missing_from_members(entries, entries, rest[0]);
    }
}

} // verus!
