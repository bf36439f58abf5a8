use market_relay::bitfinex::api::{Frequency, Precision, Request, Response, TradeUpdateType};
use market_relay::bitfinex::{
    map_initial_orderbook, map_initial_trades, map_orderbook_update, map_pair_code, map_trade, BitfinexHandler,
};
use market_relay::broadcast_api::{Broadcast, BroadcastType};
use market_relay::consumer::error::ConsumerError;
use market_relay::consumer::MarketHandler;
use market_relay::domain::{CurrencyPair, Exchange};
use market_relay::MULTIPLIER;

fn scaled(value: f64) -> i64 {
    (value * f64::from(MULTIPLIER)).round() as i64
}

fn confirmation(channel_id: i32, symbol: &str) -> Response {
    Response::SubscribeConfirmation {
        event: String::from("subscribed"),
        channel: String::from("book"),
        channel_id,
        pair: String::from("XRPBTC"),
        symbol: String::from(symbol),
        precision: Some(Precision::R0),
        frequency: Some(Frequency::F0),
        length: Some(String::from("100")),
    }
}

fn subscribed(channel_id: i32) -> BitfinexHandler {
    let mut handler = BitfinexHandler::new(vec![CurrencyPair::XRPBTC]);
    assert_eq!(handler.handle_response(confirmation(channel_id, "tXRPBTC")), Ok(BroadcastType::Nothing));
    handler
}

#[test]
fn a_negative_amount_is_an_ask_of_its_magnitude() {
    let mut handler = subscribed(5);
    let response = Response::OrderbookUpdate(5, (123, scaled(1.2345), scaled(-0.5)));
    assert_eq!(
        handler.handle_response(response),
        Ok(BroadcastType::One(Broadcast::OrderbookUpdate {
            source: Exchange::Bitfinex,
            pair: CurrencyPair::XRPBTC,
            bids: vec![],
            asks: vec![(123_450_000, 50_000_000)],
        }))
    );
}

#[test]
fn a_book_of_one_negative_amount_is_a_snapshot_of_one_ask() {
    let mut handler = subscribed(5);
    let response = Response::InitialOrderbook(5, vec![(123, scaled(1.2345), scaled(-0.5))]);
    assert_eq!(
        handler.handle_response(response),
        Ok(BroadcastType::One(Broadcast::OrderbookSnapshot {
            source: Exchange::Bitfinex,
            pair: CurrencyPair::XRPBTC,
            bids: vec![],
            asks: vec![(123_450_000, 50_000_000)],
        }))
    );
}

#[test]
fn a_positive_amount_is_a_bid() {
    assert_eq!(
        map_orderbook_update(CurrencyPair::XRPBTC, 25_000, 300),
        Ok(BroadcastType::One(Broadcast::OrderbookUpdate {
            source: Exchange::Bitfinex,
            pair: CurrencyPair::XRPBTC,
            bids: vec![(25_000, 300)],
            asks: vec![],
        }))
    );
}

#[test]
fn an_amount_of_zero_is_an_ask() {
    assert_eq!(
        map_orderbook_update(CurrencyPair::XRPBTC, 25_000, 0),
        Ok(BroadcastType::One(Broadcast::OrderbookUpdate {
            source: Exchange::Bitfinex,
            pair: CurrencyPair::XRPBTC,
            bids: vec![],
            asks: vec![(25_000, 0)],
        }))
    );
}

#[test]
fn a_price_of_zero_removes_the_level() {
    assert_eq!(
        map_orderbook_update(CurrencyPair::XRPBTC, 0, 1),
        Ok(BroadcastType::One(Broadcast::OrderbookRemove {
            source: Exchange::Bitfinex,
            pair: CurrencyPair::XRPBTC,
            bids: vec![(0, 1)],
            asks: vec![],
        }))
    );
    assert_eq!(
        map_orderbook_update(CurrencyPair::XRPBTC, 0, -1),
        Ok(BroadcastType::One(Broadcast::OrderbookRemove {
            source: Exchange::Bitfinex,
            pair: CurrencyPair::XRPBTC,
            bids: vec![],
            asks: vec![(0, 1)],
        }))
    );
}

#[test]
fn an_amount_without_magnitude_is_refused() {
    assert_eq!(map_orderbook_update(CurrencyPair::XRPBTC, 1, i64::MIN), Err(ConsumerError::OutOfRange));
    assert_eq!(
        map_orderbook_update(CurrencyPair::XRPBTC, 1, i64::MIN + 1),
        Ok(BroadcastType::One(Broadcast::OrderbookUpdate {
            source: Exchange::Bitfinex,
            pair: CurrencyPair::XRPBTC,
            bids: vec![],
            asks: vec![(1, i64::MAX)],
        }))
    );
    assert_eq!(
        map_initial_orderbook(CurrencyPair::XRPBTC, vec![(1, 1, 1), (2, 2, i64::MIN), (3, 3, 3)]),
        Err(ConsumerError::OutOfRange)
    );
}

#[test]
fn data_on_an_unknown_channel_is_refused() {
    let mut handler = subscribed(5);
    assert_eq!(
        handler.handle_response(Response::OrderbookUpdate(7, (1, 2, 3))),
        Err(ConsumerError::UnknownChannel(7))
    );
    assert_eq!(
        handler.handle_response(Response::Trade(8, TradeUpdateType::WithTradeId, (1, 2, 3, 4))),
        Err(ConsumerError::UnknownChannel(8))
    );
    assert_eq!(
        handler.handle_response(Response::InitialOrderbook(9, vec![])),
        Err(ConsumerError::UnknownChannel(9))
    );
    assert_eq!(
        handler.handle_response(Response::InitialTrade(-1, vec![])),
        Err(ConsumerError::UnknownChannel(-1))
    );
    assert_eq!(handler.channels.resolve(5), Ok(CurrencyPair::XRPBTC));
}

#[test]
fn a_new_handler_knows_no_channel() {
    let mut handler = BitfinexHandler::new(vec![CurrencyPair::XRPBTC]);
    assert_eq!(handler.pairs, vec![CurrencyPair::XRPBTC]);
    assert_eq!(
        handler.handle_response(Response::OrderbookUpdate(5, (1, 2, 3))),
        Err(ConsumerError::UnknownChannel(5))
    );
}

#[test]
fn a_confirmation_registers_its_channel() {
    let mut handler = BitfinexHandler::new(vec![]);
    assert_eq!(handler.channels.resolve(42), Err(ConsumerError::UnknownChannel(42)));
    assert_eq!(handler.handle_response(confirmation(42, "tXRPBTC")), Ok(BroadcastType::Nothing));
    assert_eq!(handler.channels.resolve(42), Ok(CurrencyPair::XRPBTC));
    assert_eq!(handler.handle_response(confirmation(42, "tXRPBTC")), Ok(BroadcastType::Nothing));
    assert_eq!(handler.channels.resolve(42), Ok(CurrencyPair::XRPBTC));
}

#[test]
fn a_confirmation_of_an_unsupported_symbol_is_refused() {
    let mut handler = BitfinexHandler::new(vec![]);
    assert_eq!(handler.handle_response(confirmation(42, "tETHBTC")), Err(ConsumerError::UnknownPair));
    assert_eq!(handler.channels.resolve(42), Err(ConsumerError::UnknownChannel(42)));
}

#[test]
fn other_messages_are_dropped() {
    let mut handler = subscribed(5);
    assert_eq!(
        handler.handle_response(Response::Heartbeat(5, String::from("hb"))),
        Ok(BroadcastType::Nothing)
    );
    assert_eq!(
        handler.handle_response(Response::Heartbeat(6, String::from("hb"))),
        Ok(BroadcastType::Nothing)
    );
    assert_eq!(
        handler.handle_response(Response::Connected { event: String::from("info"), version: 2 }),
        Ok(BroadcastType::Nothing)
    );
    let refused = Response::SubscribeError {
        event: String::from("error"),
        channel: String::from("book"),
        code: 10300,
        msg: String::from("subscribe: invalid"),
        pair: String::from("XRPBTC"),
        symbol: String::from("tXRPBTC"),
        precision: Precision::P0,
        frequency: Frequency::F1,
        length: String::from("25"),
    };
    assert_eq!(handler.handle_response(refused), Ok(BroadcastType::Nothing));
}

#[test]
fn a_trade_carries_its_total() {
    let mut handler = subscribed(17);
    let response = Response::Trade(17, TradeUpdateType::WithoutTradeId, (99, 1_530_000_000, 300, 25_000));
    assert_eq!(
        handler.handle_response(response),
        Ok(BroadcastType::One(Broadcast::Trade {
            source: Exchange::Bitfinex,
            pair: CurrencyPair::XRPBTC,
            trade: (1_530_000_000, 25_000, 300, 7_500_000),
        }))
    );
}

#[test]
fn a_sold_trade_keeps_its_sign() {
    assert_eq!(
        map_trade(CurrencyPair::XRPBTC, (1, 10, -4, 6)),
        Ok(BroadcastType::One(Broadcast::Trade {
            source: Exchange::Bitfinex,
            pair: CurrencyPair::XRPBTC,
            trade: (10, 6, -4, -24),
        }))
    );
}

#[test]
fn a_total_that_cannot_be_written_is_refused() {
    assert_eq!(
        map_trade(CurrencyPair::XRPBTC, (1, 10, scaled(1000.0), scaled(1.0))),
        Err(ConsumerError::OutOfRange)
    );
    assert_eq!(map_trade(CurrencyPair::XRPBTC, (1, 10, 2, i64::MAX / 2 + 1)), Err(ConsumerError::OutOfRange));
    assert_eq!(
        map_trade(CurrencyPair::XRPBTC, (1, 10, 2, i64::MAX / 2)),
        Ok(BroadcastType::One(Broadcast::Trade {
            source: Exchange::Bitfinex,
            pair: CurrencyPair::XRPBTC,
            trade: (10, i64::MAX / 2, 2, i64::MAX - 1),
        }))
    );
    assert_eq!(
        map_initial_trades(CurrencyPair::XRPBTC, vec![(1, 1, 1, 1), (2, 2, i64::MAX, 2)]),
        Err(ConsumerError::OutOfRange)
    );
}

#[test]
fn the_first_trades_come_as_one_snapshot() {
    let mut handler = subscribed(3);
    let response = Response::InitialTrade(3, vec![(1, 1000, 2, 50), (2, 2000, -3, 60)]);
    assert_eq!(
        handler.handle_response(response),
        Ok(BroadcastType::One(Broadcast::TradeSnapshot {
            source: Exchange::Bitfinex,
            pair: CurrencyPair::XRPBTC,
            trades: vec![(1000, 50, 2, 100), (2000, 60, -3, -180)],
        }))
    );
    assert_eq!(
        map_initial_trades(CurrencyPair::XRPBTC, vec![]),
        Ok(BroadcastType::One(Broadcast::TradeSnapshot {
            source: Exchange::Bitfinex,
            pair: CurrencyPair::XRPBTC,
            trades: vec![],
        }))
    );
}

#[test]
fn the_first_book_is_split_by_sign() {
    let orders = vec![(1, 100, 5), (2, 101, -6), (3, 102, 7), (4, 103, 0), (5, 104, -8)];
    assert_eq!(
        map_initial_orderbook(CurrencyPair::XRPBTC, orders),
        Ok(BroadcastType::One(Broadcast::OrderbookSnapshot {
            source: Exchange::Bitfinex,
            pair: CurrencyPair::XRPBTC,
            bids: vec![(100, 5), (102, 7)],
            asks: vec![(101, 6), (103, 0), (104, 8)],
        }))
    );
    assert_eq!(
        map_initial_orderbook(CurrencyPair::XRPBTC, vec![]),
        Ok(BroadcastType::One(Broadcast::OrderbookSnapshot {
            source: Exchange::Bitfinex,
            pair: CurrencyPair::XRPBTC,
            bids: vec![],
            asks: vec![],
        }))
    );
}

#[test]
fn bitfinex_symbols() {
    assert_eq!(map_pair_code("tXRPBTC"), Ok(CurrencyPair::XRPBTC));
    assert_eq!(map_pair_code("XRPBTC"), Err(ConsumerError::UnknownPair));
    assert_eq!(map_pair_code("tXRPBTCx"), Err(ConsumerError::UnknownPair));
    assert_eq!(map_pair_code(""), Err(ConsumerError::UnknownPair));
}

#[test]
fn bitfinex_names_its_pair() {
    assert_eq!(BitfinexHandler::stringify_pair(&CurrencyPair::XRPBTC), "tXRPBTC");
}

#[test]
fn bitfinex_asks_for_book_and_trades_of_each_pair() {
    let requests = BitfinexHandler::get_requests(&[CurrencyPair::XRPBTC]);
    assert_eq!(
        requests,
        vec![
            Request::JoinQueue {
                event: String::from("subscribe"),
                channel: String::from("book"),
                symbol: String::from("tXRPBTC"),
                precision: Precision::R0,
                frequency: Frequency::F0,
                length: String::from("100"),
            },
            Request::JoinQueue {
                event: String::from("subscribe"),
                channel: String::from("trades"),
                symbol: String::from("tXRPBTC"),
                precision: Precision::R0,
                frequency: Frequency::F0,
                length: String::from("100"),
            },
        ]
    );
    assert_eq!(BitfinexHandler::get_requests(&[]), vec![]);
}
