use market_relay::broadcast_api::server::{connected, heartbeat, HEARTBEAT_INTERVAL_SECS};
use market_relay::broadcast_api::{Broadcast, BroadcastType};
use market_relay::consumer::handler::{delivery_result, MultipleBroadcastError};
use market_relay::consumer::supervisor::{
    announcement, step, ConnectionEvent, ConnectionState, SupervisorAction, RECONNECT_DELAY_SECS,
};
use market_relay::consumer::error::ConsumerError;
use market_relay::consumer::{connect_addr, timestamp, timestamp_of};
use market_relay::domain::Exchange;

#[test]
fn a_new_subscriber_is_told_the_multiplier_first() {
    assert_eq!(connected(), Broadcast::Connected { multiplier: 100_000_000 });
}

#[test]
fn the_heartbeat_event() {
    assert_eq!(heartbeat(), Broadcast::Heartbeat {});
    assert_eq!(HEARTBEAT_INTERVAL_SECS, 1);
}

#[test]
fn timestamp_of_whole_seconds() {
    assert_eq!(timestamp_of(Some(0)), Some(0));
    assert_eq!(timestamp_of(Some(1)), Some(1000));
    assert_eq!(timestamp_of(Some(1_530_000_000)), Some(1_530_000_000_000));
    assert_eq!(timestamp_of(Some(9_223_372_036_854_775)), Some(9_223_372_036_854_775_000));
}

#[test]
fn timestamp_of_too_many_seconds() {
    assert_eq!(timestamp_of(Some(9_223_372_036_854_776)), None);
    assert_eq!(timestamp_of(Some(u64::MAX)), None);
}

#[test]
fn timestamp_of_a_clock_before_the_epoch() {
    assert_eq!(timestamp_of(None), None);
}

#[test]
fn connect_addr_reads_an_address() {
    let addr = connect_addr("wss://api.bitfinex.com/ws/2");
    assert!(matches!(&addr, Ok(url) if url.as_str() == "wss://api.bitfinex.com/ws/2"));
    assert!(matches!(&addr, Ok(url) if url.scheme() == "wss" && url.host_str() == Some("api.bitfinex.com")));
    let addr = connect_addr("ws://127.0.0.1:3012");
    assert!(matches!(&addr, Ok(url) if url.port() == Some(3012)));
}

#[test]
fn connect_addr_refuses_what_is_no_address() {
    assert_eq!(connect_addr(""), Err(ConsumerError::BadAddress));
    assert_eq!(connect_addr("api.bitfinex.com/ws/2"), Err(ConsumerError::BadAddress));
    assert_eq!(connect_addr("wss://"), Err(ConsumerError::BadAddress));
}

#[test]
fn timestamp_is_of_this_century_and_to_the_second() {
    let ts = timestamp();
    assert!(matches!(ts, Some(ms) if ms > 1_500_000_000_000 && ms % 1000 == 0));
}

#[test]
fn a_round_without_failure_succeeds() {
    assert_eq!(delivery_result(&vec![]), Ok(()));
    assert_eq!(delivery_result(&vec![true]), Ok(()));
    assert_eq!(delivery_result(&vec![true, true, true]), Ok(()));
}

#[test]
fn a_round_names_its_failures() {
    assert_eq!(delivery_result(&vec![false]), Err(MultipleBroadcastError { failed: vec![0] }));
    assert_eq!(
        delivery_result(&vec![true, false, true, false]),
        Err(MultipleBroadcastError { failed: vec![1, 3] })
    );
}

#[test]
fn events_are_handed_out_in_order() {
    assert_eq!(BroadcastType::Nothing.into_events(), vec![]);
    assert_eq!(BroadcastType::One(heartbeat()).into_events(), vec![Broadcast::Heartbeat {}]);
    assert_eq!(
        BroadcastType::Many(vec![connected(), heartbeat()]).into_events(),
        vec![Broadcast::Connected { multiplier: 100_000_000 }, Broadcast::Heartbeat {}]
    );
}

#[test]
fn every_lost_connection_is_announced_and_made_again() {
    let rounds: i64 = 4;
    let mut state = ConnectionState::Disconnected;
    let mut published = vec![];
    let mut waits = vec![];
    let mut clock: i64 = 0;
    let mut round: i64 = 0;
    while round < rounds {
        let events = [ConnectionEvent::RetryDue, ConnectionEvent::HandshakeDone, ConnectionEvent::ConnectionLost];
        for event in events {
            let (next, action) = step(state, event);
            state = next;
            clock += 500;
            if let Some(event) = announcement(Exchange::Bitfinex, action, clock) {
                published.push(event);
            }
            match action {
                SupervisorAction::Retire { delay_secs } => {
                    waits.push(delay_secs);
                    clock += 1000 * delay_secs as i64;
                }
                SupervisorAction::Wait { delay_secs } => {
                    waits.push(delay_secs);
                    clock += 1000 * delay_secs as i64;
                }
                _ => {}
            }
        }
        assert_eq!(state, ConnectionState::Disconnected);
        round += 1;
    }
    assert_eq!(waits, vec![10, 10, 10, 10]);
    assert_eq!(
        published,
        vec![
            Broadcast::ExchangeConnectionOpened { exchange: Exchange::Bitfinex, ts: 1_000 },
            Broadcast::ExchangeConnectionClosed { exchange: Exchange::Bitfinex, ts: 1_500 },
            Broadcast::ExchangeConnectionOpened { exchange: Exchange::Bitfinex, ts: 12_500 },
            Broadcast::ExchangeConnectionClosed { exchange: Exchange::Bitfinex, ts: 13_000 },
            Broadcast::ExchangeConnectionOpened { exchange: Exchange::Bitfinex, ts: 24_000 },
            Broadcast::ExchangeConnectionClosed { exchange: Exchange::Bitfinex, ts: 24_500 },
            Broadcast::ExchangeConnectionOpened { exchange: Exchange::Bitfinex, ts: 35_500 },
            Broadcast::ExchangeConnectionClosed { exchange: Exchange::Bitfinex, ts: 36_000 },
        ]
    );
    assert_eq!(step(state, ConnectionEvent::RetryDue), (ConnectionState::Connecting, SupervisorAction::Connect));
}

#[test]
fn the_steps_of_one_connection() {
    assert_eq!(RECONNECT_DELAY_SECS, 10);
    assert_eq!(
        step(ConnectionState::Disconnected, ConnectionEvent::RetryDue),
        (ConnectionState::Connecting, SupervisorAction::Connect)
    );
    assert_eq!(
        step(ConnectionState::Connecting, ConnectionEvent::HandshakeDone),
        (ConnectionState::Open, SupervisorAction::Subscribe)
    );
    assert_eq!(
        step(ConnectionState::Open, ConnectionEvent::ConnectionLost),
        (ConnectionState::Disconnected, SupervisorAction::Retire { delay_secs: 10 })
    );
}

#[test]
fn a_refused_connection_waits_and_announces_nothing() {
    let (state, action) = step(ConnectionState::Connecting, ConnectionEvent::ConnectFailed);
    assert_eq!(state, ConnectionState::Disconnected);
    assert_eq!(action, SupervisorAction::Wait { delay_secs: 10 });
    assert_eq!(announcement(Exchange::BtcMarkets, action, 77), None);
}

#[test]
fn an_event_out_of_place_changes_nothing() {
    assert_eq!(
        step(ConnectionState::Disconnected, ConnectionEvent::ConnectionLost),
        (ConnectionState::Disconnected, SupervisorAction::Ignore)
    );
    assert_eq!(
        step(ConnectionState::Disconnected, ConnectionEvent::HandshakeDone),
        (ConnectionState::Disconnected, SupervisorAction::Ignore)
    );
    assert_eq!(
        step(ConnectionState::Disconnected, ConnectionEvent::ConnectFailed),
        (ConnectionState::Disconnected, SupervisorAction::Ignore)
    );
    assert_eq!(
        step(ConnectionState::Connecting, ConnectionEvent::RetryDue),
        (ConnectionState::Connecting, SupervisorAction::Ignore)
    );
    assert_eq!(
        step(ConnectionState::Connecting, ConnectionEvent::ConnectionLost),
        (ConnectionState::Connecting, SupervisorAction::Ignore)
    );
    assert_eq!(
        step(ConnectionState::Open, ConnectionEvent::RetryDue),
        (ConnectionState::Open, SupervisorAction::Ignore)
    );
    assert_eq!(
        step(ConnectionState::Open, ConnectionEvent::HandshakeDone),
        (ConnectionState::Open, SupervisorAction::Ignore)
    );
    assert_eq!(
        step(ConnectionState::Open, ConnectionEvent::ConnectFailed),
        (ConnectionState::Open, SupervisorAction::Ignore)
    );
}

#[test]
fn announcements_of_actions() {
    assert_eq!(
        announcement(Exchange::BtcMarkets, SupervisorAction::Subscribe, 5),
        Some(Broadcast::ExchangeConnectionOpened { exchange: Exchange::BtcMarkets, ts: 5 })
    );
    assert_eq!(
        announcement(Exchange::BtcMarkets, SupervisorAction::Retire { delay_secs: 10 }, 6),
        Some(Broadcast::ExchangeConnectionClosed { exchange: Exchange::BtcMarkets, ts: 6 })
    );
    assert_eq!(announcement(Exchange::Bitfinex, SupervisorAction::Connect, 7), None);
    assert_eq!(announcement(Exchange::Bitfinex, SupervisorAction::Wait { delay_secs: 10 }, 7), None);
    assert_eq!(announcement(Exchange::Bitfinex, SupervisorAction::Ignore, 7), None);
}
