//! The life of the connection to one exchange.
//!
//! A connection is made, used until it is lost, and made again after a
//! fixed wait, without end. The decisions of that loop stand here as one
//! step from a state and an event to the next state and what to do; the
//! caller does it and reports what happened then.

use vstd::prelude::*;
use crate::broadcast_api::{Broadcast, BroadcastView, Timestamp};
use crate::domain::Exchange;

verus! {

/// The seconds to wait after a connection is lost or refused.
pub const RECONNECT_DELAY_SECS: u64 = 10;

/// Where the connection to an exchange stands.
#[derive(Debug, Copy, Clone, PartialEq, Eq, Structural)]
pub enum ConnectionState {
    /// No socket; a wait may be running.
    Disconnected,
    /// A socket is being opened.
    Connecting,
    /// The handshake is done and messages flow.
    Open,
}

/// What happened to the connection.
#[derive(Debug, Copy, Clone, PartialEq, Eq, Structural)]
pub enum ConnectionEvent {
    /// It is time to try: at the start, or when a wait is over.
    RetryDue,
    /// The socket could not be opened.
    ConnectFailed,
    /// The handshake was completed.
    HandshakeDone,
    /// The socket was closed, by either side or by an error.
    ConnectionLost,
}

/// What to do next.
#[derive(Debug, Copy, Clone, PartialEq, Eq, Structural)]
pub enum SupervisorAction {
    /// Nothing: the event does not belong to the state.
    Ignore,
    /// Make a new adapter, with no channel and no snapshot, and open a socket.
    Connect,
    /// Send every subscription request, then publish that the connection
    /// was opened.
    Subscribe,
    /// Publish that the connection was closed, drop the adapter, and report
    /// `RetryDue` after the delay.
    Retire { delay_secs: u64 },
    /// Report `RetryDue` after the delay.
    Wait { delay_secs: u64 },
}

/// The next state and the action for an event in a state.
pub open spec fn transition(state: ConnectionState, event: ConnectionEvent) -> (
    ConnectionState,
    SupervisorAction,
) {
    match (state, event) {
        (ConnectionState::Disconnected, ConnectionEvent::RetryDue) => (
            ConnectionState::Connecting,
            SupervisorAction::Connect,
        ),
        (ConnectionState::Connecting, ConnectionEvent::ConnectFailed) => (
            ConnectionState::Disconnected,
            SupervisorAction::Wait { delay_secs: RECONNECT_DELAY_SECS },
        ),
        (ConnectionState::Connecting, ConnectionEvent::HandshakeDone) => (
            ConnectionState::Open,
            SupervisorAction::Subscribe,
        ),
        (ConnectionState::Open, ConnectionEvent::ConnectionLost) => (
            ConnectionState::Disconnected,
            SupervisorAction::Retire { delay_secs: RECONNECT_DELAY_SECS },
        ),
        _ => (state, SupervisorAction::Ignore),
    }
}

/// The event that an action publishes at the time `ts`, if it publishes one.
pub open spec fn announced(exchange: Exchange, action: SupervisorAction, ts: Timestamp) -> Option<
    BroadcastView,
> {
    match action {
        SupervisorAction::Subscribe => Some(BroadcastView::ExchangeConnectionOpened { exchange, ts }),
        SupervisorAction::Retire { .. } => Some(
            BroadcastView::ExchangeConnectionClosed { exchange, ts },
        ),
        _ => None,
    }
}

/// The actions of a run of events from a state, in order.
pub open spec fn actions_of(state: ConnectionState, events: Seq<ConnectionEvent>) -> Seq<
    SupervisorAction,
>
    decreases events.len(),
{
    if events.len() == 0 {
        Seq::empty()
    } else {
        actions_of(state, events.drop_last()).push(
            transition(state_after(state, events.drop_last()), events.last()).1,
        )
    }
}

/// The state after a run of events from a state.
pub open spec fn state_after(state: ConnectionState, events: Seq<ConnectionEvent>) -> ConnectionState
    decreases events.len(),
{
    if events.len() == 0 {
        state
    } else {
        transition(state_after(state, events.drop_last()), events.last()).0
    }
}

/// How many of the actions publish an opening.
pub open spec fn openings(actions: Seq<SupervisorAction>) -> nat
    decreases actions.len(),
{
    if actions.len() == 0 {
        0
    } else if actions.last() is Subscribe {
        openings(actions.drop_last()) + 1
    } else {
        openings(actions.drop_last())
    }
}

/// How many of the actions publish a closing.
pub open spec fn closings(actions: Seq<SupervisorAction>) -> nat
    decreases actions.len(),
{
    if actions.len() == 0 {
        0
    } else if actions.last() is Retire {
        closings(actions.drop_last()) + 1
    } else {
        closings(actions.drop_last())
    }
}

/// Takes one step of the connection's life.
pub fn step(state: ConnectionState, event: ConnectionEvent) -> (next: (
    ConnectionState,
    SupervisorAction,
))
    ensures
        next == transition(state, event),
{
    match state {
        ConnectionState::Disconnected => match event {
            ConnectionEvent::RetryDue => (ConnectionState::Connecting, SupervisorAction::Connect),
            _ => (state, SupervisorAction::Ignore),
        },
        ConnectionState::Connecting => match event {
            ConnectionEvent::ConnectFailed => (
                ConnectionState::Disconnected,
                SupervisorAction::Wait { delay_secs: RECONNECT_DELAY_SECS },
            ),
            ConnectionEvent::HandshakeDone => (ConnectionState::Open, SupervisorAction::Subscribe),
            _ => (state, SupervisorAction::Ignore),
        },
        ConnectionState::Open => match event {
            ConnectionEvent::ConnectionLost => (
                ConnectionState::Disconnected,
                SupervisorAction::Retire { delay_secs: RECONNECT_DELAY_SECS },
            ),
            _ => (state, SupervisorAction::Ignore),
        },
    }
}

/// The event to publish with an action, if the action publishes one.
/// `ts` is the time of publication.
pub fn announcement(exchange: Exchange, action: SupervisorAction, ts: Timestamp) -> (event: Option<
    Broadcast,
>)
    ensures
        match announced(exchange, action, ts) {
            Some(expected) => event matches Some(made) && made@ == expected,
            None => event is None,
        },
{
    match action {
        SupervisorAction::Subscribe => Some(Broadcast::ExchangeConnectionOpened { exchange, ts }),
        SupervisorAction::Retire { .. } => Some(Broadcast::ExchangeConnectionClosed { exchange, ts }),
        _ => None,
    }
}

/// The events of so many connections in a row that are each made and then
/// lost.
pub open spec fn lost_connections(count: nat) -> Seq<ConnectionEvent>
    decreases count,
{
    if count == 0 {
        Seq::empty()
    } else {
        lost_connections((count - 1) as nat) + seq![
            ConnectionEvent::RetryDue,
            ConnectionEvent::HandshakeDone,
            ConnectionEvent::ConnectionLost,
        ]
    }
}

/// The actions that such a run asks for: for each connection its making,
/// its opening, and its closing with the wait.
pub open spec fn reconnections(count: nat) -> Seq<SupervisorAction>
    decreases count,
{
    if count == 0 {
        Seq::empty()
    } else {
        reconnections((count - 1) as nat) + seq![
            SupervisorAction::Connect,
            SupervisorAction::Subscribe,
            SupervisorAction::Retire { delay_secs: RECONNECT_DELAY_SECS },
        ]
    }
}

/// What one more event adds to a run.
pub proof fn lemma_run_grows(
    state: ConnectionState,
    events: Seq<ConnectionEvent>,
    event: ConnectionEvent,
)
    ensures
        state_after(state, events.push(event)) == transition(state_after(state, events), event).0,
        actions_of(state, events.push(event)) == actions_of(state, events).push(
            transition(state_after(state, events), event).1,
        ),
{
    assert(events.push(event).drop_last() =~= events);
}

/// However many connections are made and lost in a row, each is announced
/// as opened and then as closed, each loss is followed by the wait, and the
/// loop stands ready to connect again.
pub proof fn lemma_lost_connections_are_made_again(count: nat)
    ensures
        state_after(ConnectionState::Disconnected, lost_connections(count))
            == ConnectionState::Disconnected,
        actions_of(ConnectionState::Disconnected, lost_connections(count)) == reconnections(count),
        openings(reconnections(count)) == count,
        closings(reconnections(count)) == count,
    decreases count,
{
    let start = ConnectionState::Disconnected;
    if count > 0 {
        let fewer = (count - 1) as nat;
        let before = lost_connections(fewer);
        lemma_lost_connections_are_made_again(fewer);
        let e1 = ConnectionEvent::RetryDue;
        let e2 = ConnectionEvent::HandshakeDone;
        let e3 = ConnectionEvent::ConnectionLost;
        lemma_run_grows(start, before, e1);
        lemma_run_grows(start, before.push(e1), e2);
        lemma_run_grows(start, before.push(e1).push(e2), e3);
        assert(lost_connections(count) =~= before.push(e1).push(e2).push(e3));
        let done = reconnections(fewer);
        let a1 = SupervisorAction::Connect;
        let a2 = SupervisorAction::Subscribe;
        let a3 = SupervisorAction::Retire { delay_secs: RECONNECT_DELAY_SECS };
        let s1 = done.push(a1);
        let s2 = s1.push(a2);
        let s3 = s2.push(a3);
        assert(reconnections(count) =~= s3);
        assert(s1.drop_last() =~= done && s1.last() == a1);
        assert(s2.drop_last() =~= s1 && s2.last() == a2);
        assert(s3.drop_last() =~= s2 && s3.last() == a3);
        assert(openings(s1) == openings(done) && closings(s1) == closings(done));
        assert(openings(s2) == openings(s1) + 1 && closings(s2) == closings(s1));
        assert(openings(s3) == openings(s2) && closings(s3) == closings(s2) + 1);
    }
}

/// The loop has no end: in every state some event leads on, and whatever
/// ends a connection or an attempt is followed by a wait.
pub proof fn lemma_never_stuck(state: ConnectionState)
    ensures
        exists|event: ConnectionEvent| !(#[trigger] transition(state, event).1 is Ignore),
        forall|event: ConnectionEvent|
            state != ConnectionState::Disconnected && #[trigger] transition(state, event).0
                == ConnectionState::Disconnected ==> match transition(state, event).1 {
                SupervisorAction::Retire { delay_secs } => delay_secs == RECONNECT_DELAY_SECS,
                SupervisorAction::Wait { delay_secs } => delay_secs == RECONNECT_DELAY_SECS,
                _ => false,
            },
{
    match state {
        ConnectionState::Disconnected => {
            assert(!(transition(state, ConnectionEvent::RetryDue).1 is Ignore));
        },
        ConnectionState::Connecting => {
            assert(!(transition(state, ConnectionEvent::ConnectFailed).1 is Ignore));
        },
        ConnectionState::Open => {
            assert(!(transition(state, ConnectionEvent::ConnectionLost).1 is Ignore));
        },
    }
}

/// Openings and closings come in turn. After any run of events on a
/// connection that began disconnected, every opening has been followed by
/// its closing, but for the last one while the connection is open.
pub proof fn lemma_openings_and_closings_alternate(events: Seq<ConnectionEvent>)
    ensures
        openings(actions_of(ConnectionState::Disconnected, events)) == closings(
            actions_of(ConnectionState::Disconnected, events),
        ) + if state_after(ConnectionState::Disconnected, events) is Open {
            1nat
        } else {
            0nat
        },
    decreases events.len(),
{
    let start = ConnectionState::Disconnected;
    if events.len() > 0 {
        lemma_openings_and_closings_alternate(events.drop_last());
        let before = actions_of(start, events.drop_last());
        let last = transition(state_after(start, events.drop_last()), events.last()).1;
        assert(actions_of(start, events).drop_last() =~= before);
        assert(actions_of(start, events).last() == last);
    }
}

} // verus!
