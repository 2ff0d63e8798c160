//! The client's connection state machine.
//!
//! The connection manager alone switches the discovery browser on and off:
//! off on entering `Connected`, on when the connection is lost or fails.

use vstd::prelude::*;
use super::ServerInfo;
use super::ServerInfoView;

verus! {

/// State of the client's connection to its peer.
#[derive(Debug, Clone, PartialEq, Eq)]
pub enum ConnectionState {
    /// A session with the peer is established.
    Connected,
    /// No session; the last one ended in order.
    Disconnected,
    /// No session; the last attempt or session failed for the given reason.
    Error(String),
}

/// What entering a connection state does to the discovery browser.
#[derive(Debug, Clone, Copy, PartialEq, Eq, Structural)]
pub enum DiscoveryAction {
    /// Stop browsing: a session is active.
    StopBrowsing,
    /// Start browsing: a peer has to be found again.
    StartBrowsing,
}

/// Something that happens to an established connection.
#[derive(Debug, Clone, PartialEq, Eq)]
pub enum ConnectionEvent {
    /// The shutdown signal arrived.
    Shutdown,
    /// The peer closed the connection.
    PeerClosed,
    /// A frame was decoded.
    FrameReceived,
    /// Reading or decoding failed with the given description.
    ReadFailed(String),
    /// The heartbeat timer fired.
    HeartbeatDue,
}

/// What the connection task does next.
#[derive(Debug, Clone, PartialEq, Eq)]
pub enum ConnectionStep {
    /// Keep reading.
    Continue,
    /// Send a heartbeat that carries the local device id, then keep reading.
    SendHeartbeat,
    /// Leave the connected state for the given one.
    Leave(ConnectionState),
}

/// Plain model of a connection state.
pub enum ConnectionStateView {
    Connected,
    Disconnected,
    Error(Seq<char>),
}

/// Plain model of a connection step.
pub enum ConnectionStepView {
    Continue,
    SendHeartbeat,
    Leave(ConnectionStateView),
}

/// Plain model of a connection event.
pub enum ConnectionEventView {
    Shutdown,
    PeerClosed,
    FrameReceived,
    ReadFailed(Seq<char>),
    HeartbeatDue,
}

impl View for ConnectionState {
    type V = ConnectionStateView;

    open spec fn view(&self) -> ConnectionStateView {
        match self {
            ConnectionState::Connected => ConnectionStateView::Connected,
            ConnectionState::Disconnected => ConnectionStateView::Disconnected,
            ConnectionState::Error(reason) => ConnectionStateView::Error(reason@),
        }
    }
}

impl View for ConnectionStep {
    type V = ConnectionStepView;

    open spec fn view(&self) -> ConnectionStepView {
        match self {
            ConnectionStep::Continue => ConnectionStepView::Continue,
            ConnectionStep::SendHeartbeat => ConnectionStepView::SendHeartbeat,
            ConnectionStep::Leave(state) => ConnectionStepView::Leave(state@),
        }
    }
}

impl View for ConnectionEvent {
    type V = ConnectionEventView;

    open spec fn view(&self) -> ConnectionEventView {
        match self {
            ConnectionEvent::Shutdown => ConnectionEventView::Shutdown,
            ConnectionEvent::PeerClosed => ConnectionEventView::PeerClosed,
            ConnectionEvent::FrameReceived => ConnectionEventView::FrameReceived,
            ConnectionEvent::ReadFailed(reason) => ConnectionEventView::ReadFailed(reason@),
            ConnectionEvent::HeartbeatDue => ConnectionEventView::HeartbeatDue,
        }
    }
}

/// The browser is stopped on entering `Connected` and started on entering
/// any other state.
pub open spec fn spec_discovery_action(state: ConnectionStateView) -> DiscoveryAction {
    match state {
        ConnectionStateView::Connected => DiscoveryAction::StopBrowsing,
        _ => DiscoveryAction::StartBrowsing,
    }
}

/// The state a dial attempt ends in.
pub open spec fn spec_dial_outcome(result: Result<(), Seq<char>>) -> ConnectionStateView {
    match result {
        Ok(_) => ConnectionStateView::Connected,
        Err(reason) => ConnectionStateView::Error(reason),
    }
}

/// What an event does to an established connection.
pub open spec fn spec_connection_step(event: ConnectionEventView) -> ConnectionStepView {
    match event {
        ConnectionEventView::Shutdown => ConnectionStepView::Leave(
            ConnectionStateView::Disconnected,
        ),
        ConnectionEventView::PeerClosed => ConnectionStepView::Leave(
            ConnectionStateView::Disconnected,
        ),
        ConnectionEventView::FrameReceived => ConnectionStepView::Continue,
        ConnectionEventView::ReadFailed(reason) => ConnectionStepView::Leave(
            ConnectionStateView::Error(reason),
        ),
        ConnectionEventView::HeartbeatDue => ConnectionStepView::SendHeartbeat,
    }
}

/// How many entries of `actions` equal `action`.
pub open spec fn spec_count_actions(actions: Seq<DiscoveryAction>, action: DiscoveryAction) -> nat
    decreases actions.len(),
{
    if actions.len() == 0 {
        0
    } else {
        spec_count_actions(actions.drop_last(), action) + if actions.last() == action {
            1nat
        } else {
            0nat
        }
    }
}

/// How many entries of `states` are `Connected`.
pub open spec fn spec_count_connected(states: Seq<ConnectionStateView>) -> nat
    decreases states.len(),
{
    if states.len() == 0 {
        0
    } else {
        spec_count_connected(states.drop_last()) + if states.last()
            == ConnectionStateView::Connected {
            1nat
        } else {
            0nat
        }
    }
}

/// The browser actions of a sequence of states, one per state entered.
pub open spec fn spec_discovery_actions(states: Seq<ConnectionStateView>) -> Seq<DiscoveryAction> {
    Seq::new(states.len(), |i: int| spec_discovery_action(states[i]))
}

/// The state a dial attempt ends in: `Connected` on success, `Error` with
/// the transport's reason on failure.
pub fn dial_outcome(result: Result<(), String>) -> (state: ConnectionState)
    ensures
        state@ == spec_dial_outcome(
            match result {
                Ok(_) => Ok(()),
                Err(reason) => Err(reason@),
            },
        ),
{
    match result {
        Ok(_) => ConnectionState::Connected,
        Err(reason) => ConnectionState::Error(reason),
    }
}

/// What the browser has to do when `state` is entered.
pub fn discovery_action(state: &ConnectionState) -> (action: DiscoveryAction)
    ensures
        action == spec_discovery_action(state@),
{
    match state {
        ConnectionState::Connected => DiscoveryAction::StopBrowsing,
        ConnectionState::Disconnected => DiscoveryAction::StartBrowsing,
        ConnectionState::Error(_) => DiscoveryAction::StartBrowsing,
    }
}

/// The browser actions for the states entered, in order: one per state.
pub fn handle_state_changes(states: &Vec<ConnectionState>) -> (actions: Vec<DiscoveryAction>)
    ensures
        actions@ == spec_discovery_actions(states@.map_values(|s: ConnectionState| s@)),
{
    let mut actions: Vec<DiscoveryAction> = Vec::new();
    let mut i: usize = 0;
    while i < states.len()
        invariant
            i <= states.len(),
            actions@.len() == i,
            forall|j: int| 0 <= j < i ==> actions@[j] == spec_discovery_action(states@[j]@),
        decreases states.len() - i,
    {
        actions.push(discovery_action(&states[i]));
        i += 1;
    }
    assert(actions@ =~= spec_discovery_actions(states@.map_values(|s: ConnectionState| s@)));
    actions
}

/// What the connection task does on `event`: it leaves for `Disconnected` on
/// shutdown or when the peer closes, for `Error` when reading fails, sends a
/// heartbeat when one is due and otherwise keeps reading.
pub fn handle_connection(event: ConnectionEvent) -> (step: ConnectionStep)
    ensures
        step@ == spec_connection_step(event@),
{
    match event {
        ConnectionEvent::Shutdown => ConnectionStep::Leave(ConnectionState::Disconnected),
        ConnectionEvent::PeerClosed => ConnectionStep::Leave(ConnectionState::Disconnected),
        ConnectionEvent::FrameReceived => ConnectionStep::Continue,
        ConnectionEvent::ReadFailed(reason) => ConnectionStep::Leave(
            ConnectionState::Error(reason),
        ),
        ConnectionEvent::HeartbeatDue => ConnectionStep::SendHeartbeat,
    }
}

/// Over any sequence of states entered, the browser is stopped once for each
/// `Connected` and started once for each other state: no transition is
/// missed and none acts twice.
pub proof fn lemma_browser_follows_connection(states: Seq<ConnectionStateView>)
    ensures
        spec_discovery_actions(states).len() == states.len(),
        spec_count_actions(spec_discovery_actions(states), DiscoveryAction::StopBrowsing)
            == spec_count_connected(states),
        spec_count_actions(spec_discovery_actions(states), DiscoveryAction::StartBrowsing)
            == states.len() - spec_count_connected(states),
    decreases states.len(),
{
    if states.len() > 0 {
        lemma_browser_follows_connection(states.drop_last());
        assert(spec_discovery_actions(states).drop_last() =~= spec_discovery_actions(
            states.drop_last(),
        ));
    }
}

/// Something the connection manager is told.
#[derive(Debug, Clone, PartialEq, Eq)]
pub enum ClientEvent {
    /// Discovery resolved a peer to dial.
    PeerResolved(ServerInfo),
    /// The dial attempt ended in a connection.
    DialSucceeded,
    /// The dial attempt failed, for the transport's reason.
    DialFailed(String),
    /// Something happened to the established connection.
    Connection(ConnectionEvent),
    /// The client is asked to stop.
    StopRequested,
}

/// Plain model of a [`ClientEvent`].
pub enum ClientEventView {
    PeerResolved(ServerInfoView),
    DialSucceeded,
    DialFailed(Seq<char>),
    Connection(ConnectionEventView),
    StopRequested,
}

impl View for ClientEvent {
    type V = ClientEventView;

    open spec fn view(&self) -> ClientEventView {
        match self {
            ClientEvent::PeerResolved(peer) => ClientEventView::PeerResolved(peer@),
            ClientEvent::DialSucceeded => ClientEventView::DialSucceeded,
            ClientEvent::DialFailed(reason) => ClientEventView::DialFailed(reason@),
            ClientEvent::Connection(event) => ClientEventView::Connection(event@),
            ClientEvent::StopRequested => ClientEventView::StopRequested,
        }
    }
}

/// Something the connection manager asks its caller to do.
#[derive(Debug, Clone, Copy, PartialEq, Eq, Structural)]
pub enum ClientEffect {
    /// Signal the attempt or connection in flight to shut down and join
    /// it; nothing is to be done where none is.
    StopAttempt,
    /// Dial the peer the manager now holds.
    Dial,
    /// Keep the writing half of the new connection.
    StoreWriter,
    /// Drop the writing half.
    ClearWriter,
    /// Stop the discovery browser.
    StopBrowsing,
    /// Start the discovery browser.
    StartBrowsing,
    /// Send a heartbeat that carries the local device id.
    SendHeartbeat,
}

/// The client's connection manager: the state of the connection, the peer
/// it is for, and what the manager has last asked of the browser.
pub struct TcpClient {
    state: ConnectionState,
    peer: Option<ServerInfo>,
    writer_held: bool,
    browsing: bool,
}

/// Plain model of a [`TcpClient`].
pub struct TcpClientView {
    /// State of the connection.
    pub state: ConnectionStateView,
    /// The peer last dialed.
    pub peer: Option<ServerInfoView>,
    /// Whether the writing half of a connection is held.
    pub writer_held: bool,
    /// Whether the browser runs, as far as the manager has asked.
    pub browsing: bool,
}

impl View for TcpClient {
    type V = TcpClientView;

    closed spec fn view(&self) -> TcpClientView {
        TcpClientView {
            state: self.state@,
            peer: match self.peer {
                Some(peer) => Some(peer@),
                None => None,
            },
            writer_held: self.writer_held,
            browsing: self.browsing,
        }
    }
}

/// The effect that carries out a browser action.
pub open spec fn spec_browser_effect(action: DiscoveryAction) -> ClientEffect {
    match action {
        DiscoveryAction::StopBrowsing => ClientEffect::StopBrowsing,
        DiscoveryAction::StartBrowsing => ClientEffect::StartBrowsing,
    }
}

/// The manager on entering `state`: the browser is switched as the state
/// asks, once.
pub open spec fn spec_enter(client: TcpClientView, state: ConnectionStateView) -> (
    TcpClientView,
    Seq<ClientEffect>,
) {
    let connected = state == ConnectionStateView::Connected;
    (
        TcpClientView {
            state,
            peer: client.peer,
            writer_held: connected,
            browsing: !connected,
        },
        seq![
            if connected {
                ClientEffect::StoreWriter
            } else {
                ClientEffect::ClearWriter
            },
            spec_browser_effect(spec_discovery_action(state)),
        ],
    )
}

/// The transition table: the manager after `event`, and the effects in the
/// order its caller carries them out.
pub open spec fn spec_transition(client: TcpClientView, event: ClientEventView) -> (
    TcpClientView,
    Seq<ClientEffect>,
) {
    match event {
        ClientEventView::PeerResolved(peer) => (
            TcpClientView {
                state: client.state,
                peer: Some(peer),
                writer_held: false,
                browsing: client.browsing,
            },
            seq![ClientEffect::ClearWriter, ClientEffect::StopAttempt, ClientEffect::Dial],
        ),
        ClientEventView::DialSucceeded => spec_enter(client, spec_dial_outcome(Ok(()))),
        ClientEventView::DialFailed(reason) => spec_enter(client, spec_dial_outcome(Err(reason))),
        ClientEventView::Connection(event) => if client.state != ConnectionStateView::Connected {
            (client, Seq::empty())
        } else {
            match spec_connection_step(event) {
                ConnectionStepView::Continue => (client, Seq::empty()),
                ConnectionStepView::SendHeartbeat => (client, seq![ClientEffect::SendHeartbeat]),
                ConnectionStepView::Leave(state) => spec_enter(client, state),
            }
        },
        ClientEventView::StopRequested => (
            TcpClientView {
                state: client.state,
                peer: client.peer,
                writer_held: false,
                browsing: client.browsing,
            },
            seq![ClientEffect::ClearWriter, ClientEffect::StopAttempt],
        ),
    }
}

/// How many entries of `effects` equal `effect`.
pub open spec fn spec_count_effects(effects: Seq<ClientEffect>, effect: ClientEffect) -> nat
    decreases effects.len(),
{
    if effects.len() == 0 {
        0
    } else {
        spec_count_effects(effects.drop_last(), effect) + if effects.last() == effect {
            1nat
        } else {
            0nat
        }
    }
}

/// The browser runs exactly while no session is active.
pub open spec fn spec_coupled(client: TcpClientView) -> bool {
    client.browsing == (client.state != ConnectionStateView::Connected)
}

impl TcpClient {
    /// A manager without a connection, with the browser running.
    pub fn new() -> (r: Self)
        ensures
            r@ == (TcpClientView {
                state: ConnectionStateView::Disconnected,
                peer: None,
                writer_held: false,
                browsing: true,
            }),
    {
        TcpClient {
            state: ConnectionState::Disconnected,
            peer: None,
            writer_held: false,
            browsing: true,
        }
    }

    /// State of the connection.
    pub fn state(&self) -> (r: &ConnectionState)
        ensures
            r@ == self@.state,
    {
        &self.state
    }

    /// The peer last dialed.
    pub fn peer(&self) -> (r: Option<&ServerInfo>)
        ensures
            match r {
                Some(peer) => self@.peer == Some(peer@),
                None => self@.peer.is_none(),
            },
    {
        self.peer.as_ref()
    }

    /// Whether the writing half of a connection is held.
    pub fn has_writer(&self) -> (r: bool)
        ensures
            r == self@.writer_held,
    {
        self.writer_held
    }

    /// Whether the browser runs, as far as the manager has asked.
    pub fn is_browsing(&self) -> (r: bool)
        ensures
            r == self@.browsing,
    {
        self.browsing
    }

    fn enter(&mut self, state: ConnectionState) -> (effects: Vec<ClientEffect>)
        ensures
            (final(self)@, effects@) == spec_enter(old(self)@, state@),
    {
        let action = discovery_action(&state);
        let mut effects: Vec<ClientEffect> = Vec::new();
        match action {
            DiscoveryAction::StopBrowsing => {
                self.writer_held = true;
                self.browsing = false;
                effects.push(ClientEffect::StoreWriter);
                effects.push(ClientEffect::StopBrowsing);
            },
            DiscoveryAction::StartBrowsing => {
                self.writer_held = false;
                self.browsing = true;
                effects.push(ClientEffect::ClearWriter);
                effects.push(ClientEffect::StartBrowsing);
            },
        }
        self.state = state;
        assert(effects@ =~= spec_enter(old(self)@, state@).1);
        effects
    }

    /// Takes in `event` and returns what has to be done, in order.
    ///
    /// A resolved peer is dialed after the attempt or connection in flight,
    /// if there is one, has been stopped. The end of a dial and the end of a connection enter a
    /// new state, and entering a state switches the browser exactly once:
    /// off for `Connected`, on for `Disconnected` and `Error`. Events of a
    /// connection that is not established are ignored.
    pub fn transition(&mut self, event: ClientEvent) -> (effects: Vec<ClientEffect>)
        ensures
            (final(self)@, effects@) == spec_transition(old(self)@, event@),
    {
        match event {
            ClientEvent::PeerResolved(peer) => {
                let mut effects: Vec<ClientEffect> = Vec::new();
                effects.push(ClientEffect::ClearWriter);
                effects.push(ClientEffect::StopAttempt);
                effects.push(ClientEffect::Dial);
                self.peer = Some(peer);
                self.writer_held = false;
                assert(effects@ =~= spec_transition(old(self)@, event@).1);
                effects
            },
            ClientEvent::DialSucceeded => {
                let state = dial_outcome(Ok(()));
                self.enter(state)
            },
            ClientEvent::DialFailed(reason) => {
                let state = dial_outcome(Err(reason));
                self.enter(state)
            },
            ClientEvent::Connection(inner) => {
                let connected = match self.state {
                    ConnectionState::Connected => true,
                    _ => false,
                };
                if !connected {
                    return Vec::new();
                }
                match handle_connection(inner) {
                    ConnectionStep::Continue => Vec::new(),
                    ConnectionStep::SendHeartbeat => {
                        let mut effects: Vec<ClientEffect> = Vec::new();
                        effects.push(ClientEffect::SendHeartbeat);
                        assert(effects@ =~= seq![ClientEffect::SendHeartbeat]);
                        effects
                    },
                    ConnectionStep::Leave(state) => self.enter(state),
                }
            },
            ClientEvent::StopRequested => {
                let mut effects: Vec<ClientEffect> = Vec::new();
                effects.push(ClientEffect::ClearWriter);
                effects.push(ClientEffect::StopAttempt);
                self.writer_held = false;
                assert(effects@ =~= spec_transition(old(self)@, event@).1);
                effects
            },
        }
    }
}

/// The manager after `events`, one after the other.
pub open spec fn spec_run(client: TcpClientView, events: Seq<ClientEventView>) -> TcpClientView
    decreases events.len(),
{
    if events.len() == 0 {
        client
    } else {
        spec_transition(spec_run(client, events.drop_last()), events.last()).0
    }
}

/// Over any run of events the browser runs exactly while no session is
/// active, given that it did so at the start, as it does for a new manager.
pub proof fn lemma_coupling_holds_over_runs(client: TcpClientView, events: Seq<ClientEventView>)
    requires
        spec_coupled(client),
    ensures
        spec_coupled(spec_run(client, events)),
    decreases events.len(),
{
    if events.len() > 0 {
        lemma_coupling_holds_over_runs(client, events.drop_last());
        lemma_coupling_preserved(spec_run(client, events.drop_last()), events.last());
    }
}

/// Coupling of connection and discovery: whatever happens, a manager whose
/// browser runs exactly while no session is active stays that way.
pub proof fn lemma_coupling_preserved(client: TcpClientView, event: ClientEventView)
    requires
        spec_coupled(client),
    ensures
        spec_coupled(spec_transition(client, event).0),
{
}

/// Each transition into `Connected` stops the browser exactly once and does
/// not start it; each transition into `Disconnected` or `Error` starts it
/// exactly once and does not stop it; an event that enters no state leaves
/// the browser alone.
pub proof fn lemma_browser_switched_once(client: TcpClientView, event: ClientEventView)
    ensures
        ({
            let (after, effects) = spec_transition(client, event);
            let stops = spec_count_effects(effects, ClientEffect::StopBrowsing);
            let starts = spec_count_effects(effects, ClientEffect::StartBrowsing);
            let enters = event is DialSucceeded || event is DialFailed || (event matches ClientEventView::Connection(inner)
                && client.state == ConnectionStateView::Connected && spec_connection_step(
                inner,
            ) is Leave);
            &&& enters && after.state == ConnectionStateView::Connected ==> stops == 1 && starts
                == 0
            &&& enters && after.state != ConnectionStateView::Connected ==> stops == 0 && starts
                == 1
            &&& !enters ==> stops == 0 && starts == 0 && after.state == client.state
        }),
{
    let (after, effects) = spec_transition(client, event);
    lemma_count_effects(effects, ClientEffect::StopBrowsing);
    lemma_count_effects(effects, ClientEffect::StartBrowsing);
}

/// Counting over the short effect lists that transitions return.
proof fn lemma_count_effects(effects: Seq<ClientEffect>, effect: ClientEffect)
    requires
        effects.len() <= 3,
    ensures
        spec_count_effects(effects, effect) == (if effects.len() > 0 && effects[0] == effect {
            1nat
        } else {
            0nat
        }) + (if effects.len() > 1 && effects[1] == effect {
            1nat
        } else {
            0nat
        }) + (if effects.len() > 2 && effects[2] == effect {
            1nat
        } else {
            0nat
        }),
    decreases effects.len(),
{
    if effects.len() > 0 {
        lemma_count_effects(effects.drop_last(), effect);
    }
}

} // verus!
