//! The connection-session state machine: join, accept, exchange, teardown.
//!
//! The machine drives one network session at a time. It never performs I/O
//! itself: each step answers one event with the next state and the actions
//! that the surrounding task has to perform, in order.

use vstd::prelude::*;
use crate::bus::Message;
use crate::power::{PowerCommand, PowerLevel};
use crate::wire::{decode, spec_decode, spec_encode, Payload, SENTINEL};

verus! {

/// The port on which the device listens for its peer.
pub const ACCEPT_PORT: u16 = 1234;

/// The bound, in seconds, on joining the network and on accepting the peer.
pub const LINK_TIMEOUT_SECS: u64 = 100;

/// The interval, in milliseconds, at which an active session checks that its
/// socket can still receive.
pub const LIVENESS_INTERVAL_MS: u64 = 100;

/// Where a session stands in its lifecycle.
#[derive(Clone, Copy, Debug, PartialEq, Eq, Structural)]
pub enum ConnectionState {
    /// No session; waiting to be switched on.
    Idle,
    /// Joining the wireless network.
    Joining,
    /// Joined; waiting for the network configuration to come up.
    Joined,
    /// Listening for the peer.
    Accepting,
    /// Exchanging power levels with the peer.
    Active,
    /// Tearing down. A session passes through this within one step and is
    /// never found in it between steps.
    Closing,
}

/// How an attempt to join or to accept ended.
#[derive(Clone, Copy, Debug, PartialEq, Eq, Structural)]
pub enum LinkOutcome {
    Done,
    Failed,
    TimedOut,
}

/// Everything that can happen to a session.
#[derive(Clone, Copy, Debug, PartialEq, Eq, Structural)]
pub enum SessionEvent {
    /// The controller switches the link on or off.
    WifiSwitch(bool),
    /// The controller wants this level announced to the peer.
    LocalPower(PowerLevel),
    /// The attempt to join the network ended.
    JoinFinished(LinkOutcome),
    /// The network configuration is up.
    ConfigReady,
    /// The attempt to accept the peer ended.
    AcceptFinished(LinkOutcome),
    /// A read returned these bytes, already decoded.
    Received(Payload),
    /// A read failed.
    ReadFailed,
    /// The write of a power level failed.
    WriteFailed,
    /// The socket can no longer receive.
    LivenessLost,
}

/// What the surrounding task has to do for the session.
#[derive(Clone, Copy, Debug, PartialEq, Eq, Structural)]
pub enum SessionAction {
    /// Switch the session's status indicator.
    SetStatus(bool),
    /// Join the wireless network, and report how it ended.
    Join { timeout_secs: u64 },
    /// Wait until the network configuration is up, and report it.
    AwaitConfig,
    /// Listen on the port, accept one peer, and report how it ended.
    Accept { port: u16, timeout_secs: u64 },
    /// Put a message on the bus.
    Publish(Message),
    /// Write one byte to the peer. Between steps of an active session a
    /// failure is reported as `WriteFailed`.
    Transmit(u8),
    /// Flush what was written.
    Flush,
    /// Abort the socket.
    Abort,
    /// Leave the wireless network.
    Leave,
}

/// A connection session.
#[derive(Clone, Copy, Debug, PartialEq, Eq, Structural)]
pub struct Session {
    pub state: ConnectionState,
    /// The power level last sent to the peer or received from it.
    pub last_power: PowerLevel,
}

/// What every way out of a session performs: the socket is aborted, the
/// network left and the indicator cleared.
pub open spec fn teardown() -> Seq<SessionAction> {
    seq![SessionAction::Abort, SessionAction::Leave, SessionAction::SetStatus(false)]
}

/// The way out that nobody asked for: the teardown, and word of it to the
/// controller.
pub open spec fn breakdown() -> Seq<SessionAction> {
    teardown().push(SessionAction::Publish(Message::ConnectionBroken))
}

/// The way out that the operator asked for: the peer is told first.
pub open spec fn farewell() -> Seq<SessionAction> {
    seq![SessionAction::Transmit(SENTINEL), SessionAction::Flush] + teardown()
}

/// What a failed join leaves to do.
pub open spec fn join_refused() -> Seq<SessionAction> {
    seq![SessionAction::Publish(Message::ConnectionReady(false)), SessionAction::SetStatus(false)]
}

/// What a failed accept leaves to do.
pub open spec fn accept_refused() -> Seq<SessionAction> {
    seq![
        SessionAction::Publish(Message::ConnectionReady(false)),
        SessionAction::Leave,
        SessionAction::SetStatus(false),
    ]
}

/// The command by which the controller follows the peer from one level to
/// another: up if the new level is greater, down if it is lesser, none if it
/// is the same. The command is never owed back to the peer.
pub open spec fn follow(known: PowerLevel, wanted: PowerLevel) -> Seq<SessionAction> {
    if wanted.spec_byte() > known.spec_byte() {
        seq![
            SessionAction::Publish(
                Message::PowerCommand { command: PowerCommand::Increase, broadcast: false },
            ),
        ]
    } else if wanted.spec_byte() < known.spec_byte() {
        seq![
            SessionAction::Publish(
                Message::PowerCommand { command: PowerCommand::Decrease, broadcast: false },
            ),
        ]
    } else {
        Seq::empty()
    }
}

impl SessionEvent {
    /// The event that a bus message is to the session, if the message is
    /// addressed to it.
    pub open spec fn spec_from_message(message: Message) -> Option<SessionEvent> {
        match message {
            Message::WifiEnabled(enabled) => Some(SessionEvent::WifiSwitch(enabled)),
            Message::LocalPower(level) => Some(SessionEvent::LocalPower(level)),
            _ => None,
        }
    }

    pub fn from_message(message: Message) -> (event: Option<SessionEvent>)
        ensures
            event == SessionEvent::spec_from_message(message),
    {
        match message {
            Message::WifiEnabled(enabled) => Some(SessionEvent::WifiSwitch(enabled)),
            Message::LocalPower(level) => Some(SessionEvent::LocalPower(level)),
            _ => None,
        }
    }
}

impl Session {
    /// A session at rest is never found tearing down.
    pub open spec fn wf(self) -> bool {
        self.state != ConnectionState::Closing
    }

    /// The session in another state, with the same memory of the power.
    pub open spec fn moved(self, state: ConnectionState) -> Session {
        Session { state, last_power: self.last_power }
    }

    /// The transition relation: the next session and the actions owed, or
    /// `None` where the event does not belong to the state. An event that
    /// does not belong changes nothing and asks for nothing; a bus message
    /// among them stays on its channel until the session reaches a state
    /// that takes it.
    pub open spec fn spec_step(self, event: SessionEvent) -> Option<(Session, Seq<SessionAction>)> {
        match self.state {
            ConnectionState::Idle => match event {
                SessionEvent::WifiSwitch(true) => Some(
                    (
                        self.moved(ConnectionState::Joining),
                        seq![
                            SessionAction::SetStatus(true),
                            SessionAction::Join { timeout_secs: LINK_TIMEOUT_SECS },
                        ],
                    ),
                ),
                SessionEvent::WifiSwitch(false) => Some((self, Seq::empty())),
                _ => None,
            },
            ConnectionState::Joining => match event {
                SessionEvent::JoinFinished(LinkOutcome::Done) => Some(
                    (self.moved(ConnectionState::Joined), seq![SessionAction::AwaitConfig]),
                ),
                SessionEvent::JoinFinished(_) => Some(
                    (self.moved(ConnectionState::Idle), join_refused()),
                ),
                _ => None,
            },
            ConnectionState::Joined => match event {
                SessionEvent::ConfigReady => Some(
                    (
                        self.moved(ConnectionState::Accepting),
                        seq![
                            SessionAction::Publish(Message::ConnectionReady(true)),
                            SessionAction::Accept {
                                port: ACCEPT_PORT,
                                timeout_secs: LINK_TIMEOUT_SECS,
                            },
                        ],
                    ),
                ),
                _ => None,
            },
            ConnectionState::Accepting => match event {
                SessionEvent::AcceptFinished(LinkOutcome::Done) => Some(
                    (
                        self.moved(ConnectionState::Active),
                        seq![SessionAction::Publish(Message::ConnectionReady(true))],
                    ),
                ),
                SessionEvent::AcceptFinished(_) => Some(
                    (self.moved(ConnectionState::Idle), accept_refused()),
                ),
                _ => None,
            },
            ConnectionState::Active => match event {
                SessionEvent::WifiSwitch(false) => Some(
                    (self.moved(ConnectionState::Idle), farewell()),
                ),
                SessionEvent::WifiSwitch(true) => Some((self, Seq::empty())),
                SessionEvent::LocalPower(level) => Some(
                    (
                        Session { state: ConnectionState::Active, last_power: level },
                        seq![SessionAction::Transmit(spec_encode(level))],
                    ),
                ),
                SessionEvent::Received(Payload::Empty) => Some((self, Seq::empty())),
                SessionEvent::Received(Payload::Power(level)) => Some(
                    (
                        Session { state: ConnectionState::Active, last_power: level },
                        follow(self.last_power, level),
                    ),
                ),
                SessionEvent::Received(Payload::Terminate)
                | SessionEvent::Received(Payload::Invalid)
                | SessionEvent::ReadFailed
                | SessionEvent::WriteFailed
                | SessionEvent::LivenessLost => Some(
                    (self.moved(ConnectionState::Idle), breakdown()),
                ),
                _ => None,
            },
            ConnectionState::Closing => None,
        }
    }
}

fn teardown_actions() -> (actions: Vec<SessionAction>)
    ensures
        actions@ == teardown(),
{
    let mut actions: Vec<SessionAction> = Vec::new();
    actions.push(SessionAction::Abort);
    actions.push(SessionAction::Leave);
    actions.push(SessionAction::SetStatus(false));
    proof {
        assert(actions@ =~= teardown());
    }
    actions
}

fn breakdown_actions() -> (actions: Vec<SessionAction>)
    ensures
        actions@ == breakdown(),
{
    let mut actions = teardown_actions();
    actions.push(SessionAction::Publish(Message::ConnectionBroken));
    actions
}

fn farewell_actions() -> (actions: Vec<SessionAction>)
    ensures
        actions@ == farewell(),
{
    let mut actions: Vec<SessionAction> = Vec::new();
    actions.push(SessionAction::Transmit(SENTINEL));
    actions.push(SessionAction::Flush);
    actions.push(SessionAction::Abort);
    actions.push(SessionAction::Leave);
    actions.push(SessionAction::SetStatus(false));
    proof {
        assert(actions@ =~= farewell());
    }
    actions
}

fn refusal_actions(joined: bool) -> (actions: Vec<SessionAction>)
    ensures
        actions@ == if joined {
            accept_refused()
        } else {
            join_refused()
        },
{
    let mut actions: Vec<SessionAction> = Vec::new();
    actions.push(SessionAction::Publish(Message::ConnectionReady(false)));
    if joined {
        actions.push(SessionAction::Leave);
    }
    actions.push(SessionAction::SetStatus(false));
    proof {
        if joined {
            assert(actions@ =~= accept_refused());
        } else {
            assert(actions@ =~= join_refused());
        }
    }
    actions
}

fn follow_actions(known: PowerLevel, wanted: PowerLevel) -> (actions: Vec<SessionAction>)
    ensures
        actions@ == follow(known, wanted),
{
    let mut actions: Vec<SessionAction> = Vec::new();
    if wanted.byte() > known.byte() {
        actions.push(
            SessionAction::Publish(
                Message::PowerCommand { command: PowerCommand::Increase, broadcast: false },
            ),
        );
    } else if wanted.byte() < known.byte() {
        actions.push(
            SessionAction::Publish(
                Message::PowerCommand { command: PowerCommand::Decrease, broadcast: false },
            ),
        );
    }
    proof {
        assert(actions@ =~= follow(known, wanted));
    }
    actions
}

impl Session {
    /// Whether `after` and `actions` are the answer of this session to the
    /// event: the next state and the actions that the transition relation
    /// gives, or no change and `None` where the event does not belong.
    pub open spec fn answered(
        self,
        event: SessionEvent,
        after: Session,
        actions: Option<Vec<SessionAction>>,
    ) -> bool {
        match self.spec_step(event) {
            Some((next, owed)) => {
                &&& after == next
                &&& actions is Some
                &&& actions->0@ == owed
            },
            None => after == self && actions is None,
        }
    }

    /// A session that waits to be switched on and knows the power as off.
    pub fn new() -> (session: Session)
        ensures
            session.state == ConnectionState::Idle,
            session.last_power == PowerLevel::Off,
            session.wf(),
    {
        Session { state: ConnectionState::Idle, last_power: PowerLevel::Off }
    }

    /// Whether the event belongs to the state the session is in.
    pub fn accepts(&self, event: SessionEvent) -> (taken: bool)
        ensures
            taken == self.spec_step(event).is_some(),
    {
        match self.state {
            ConnectionState::Idle => match event {
                SessionEvent::WifiSwitch(_) => true,
                _ => false,
            },
            ConnectionState::Joining => match event {
                SessionEvent::JoinFinished(_) => true,
                _ => false,
            },
            ConnectionState::Joined => match event {
                SessionEvent::ConfigReady => true,
                _ => false,
            },
            ConnectionState::Accepting => match event {
                SessionEvent::AcceptFinished(_) => true,
                _ => false,
            },
            ConnectionState::Active => match event {
                SessionEvent::WifiSwitch(_)
                | SessionEvent::LocalPower(_)
                | SessionEvent::Received(_)
                | SessionEvent::ReadFailed
                | SessionEvent::WriteFailed
                | SessionEvent::LivenessLost => true,
                _ => false,
            },
            ConnectionState::Closing => false,
        }
    }

    /// Answers one event: moves the session to its next state and returns the
    /// actions owed, in the order in which they are to be performed. Returns
    /// `None`, and changes nothing, where the event does not belong to the
    /// state.
    pub fn step(&mut self, event: SessionEvent) -> (actions: Option<Vec<SessionAction>>)
        ensures
            old(self).answered(event, *final(self), actions),
            old(self).wf() ==> final(self).wf(),
    {
        match self.state {
            ConnectionState::Idle => match event {
                SessionEvent::WifiSwitch(true) => {
                    self.state = ConnectionState::Joining;
                    let mut actions: Vec<SessionAction> = Vec::new();
                    actions.push(SessionAction::SetStatus(true));
                    actions.push(SessionAction::Join { timeout_secs: LINK_TIMEOUT_SECS });
                    proof {
                        assert(actions@ =~= seq![
                            SessionAction::SetStatus(true),
                            SessionAction::Join { timeout_secs: LINK_TIMEOUT_SECS },
                        ]);
                    }
                    Some(actions)
                },
                SessionEvent::WifiSwitch(false) => Some(Vec::new()),
                _ => None,
            },
            ConnectionState::Joining => match event {
                SessionEvent::JoinFinished(LinkOutcome::Done) => {
                    self.state = ConnectionState::Joined;
                    let mut actions: Vec<SessionAction> = Vec::new();
                    actions.push(SessionAction::AwaitConfig);
                    proof {
                        assert(actions@ =~= seq![SessionAction::AwaitConfig]);
                    }
                    Some(actions)
                },
                SessionEvent::JoinFinished(_) => {
                    self.state = ConnectionState::Idle;
                    Some(refusal_actions(false))
                },
                _ => None,
            },
            ConnectionState::Joined => match event {
                SessionEvent::ConfigReady => {
                    self.state = ConnectionState::Accepting;
                    let mut actions: Vec<SessionAction> = Vec::new();
                    actions.push(SessionAction::Publish(Message::ConnectionReady(true)));
                    actions.push(
                        SessionAction::Accept {
                            port: ACCEPT_PORT,
                            timeout_secs: LINK_TIMEOUT_SECS,
                        },
                    );
                    proof {
                        assert(actions@ =~= seq![
                            SessionAction::Publish(Message::ConnectionReady(true)),
                            SessionAction::Accept {
                                port: ACCEPT_PORT,
                                timeout_secs: LINK_TIMEOUT_SECS,
                            },
                        ]);
                    }
                    Some(actions)
                },
                _ => None,
            },
            ConnectionState::Accepting => match event {
                SessionEvent::AcceptFinished(LinkOutcome::Done) => {
                    self.state = ConnectionState::Active;
                    let mut actions: Vec<SessionAction> = Vec::new();
                    actions.push(SessionAction::Publish(Message::ConnectionReady(true)));
                    proof {
                        assert(actions@ =~= seq![
                            SessionAction::Publish(Message::ConnectionReady(true)),
                        ]);
                    }
                    Some(actions)
                },
                SessionEvent::AcceptFinished(_) => {
                    self.state = ConnectionState::Idle;
                    Some(refusal_actions(true))
                },
                _ => None,
            },
            ConnectionState::Active => match event {
                SessionEvent::WifiSwitch(false) => {
                    self.state = ConnectionState::Idle;
                    Some(farewell_actions())
                },
                SessionEvent::WifiSwitch(true) => Some(Vec::new()),
                SessionEvent::LocalPower(level) => {
                    self.last_power = level;
                    let mut actions: Vec<SessionAction> = Vec::new();
                    actions.push(SessionAction::Transmit(crate::wire::encode(level)));
                    proof {
                        assert(actions@ =~= seq![SessionAction::Transmit(spec_encode(level))]);
                    }
                    Some(actions)
                },
                SessionEvent::Received(Payload::Empty) => Some(Vec::new()),
                SessionEvent::Received(Payload::Power(level)) => {
                    let actions = follow_actions(self.last_power, level);
                    self.last_power = level;
                    Some(actions)
                },
                SessionEvent::Received(Payload::Terminate)
                | SessionEvent::Received(Payload::Invalid)
                | SessionEvent::ReadFailed
                | SessionEvent::WriteFailed
                | SessionEvent::LivenessLost => {
                    self.state = ConnectionState::Idle;
                    Some(breakdown_actions())
                },
                _ => None,
            },
            ConnectionState::Closing => None,
        }
    }

    /// Answers a read that returned these bytes: decodes them and takes the
    /// step that their meaning asks for.
    pub fn receive(&mut self, bytes: &[u8]) -> (actions: Option<Vec<SessionAction>>)
        ensures
            old(self).answered(SessionEvent::Received(spec_decode(bytes@)), *final(self), actions),
            old(self).wf() ==> final(self).wf(),
    {
        self.step(SessionEvent::Received(decode(bytes)))
    }
}

/// Whether an action puts a power command on the bus that is owed back to
/// the peer.
pub open spec fn is_broadcast_command(action: SessionAction) -> bool {
    match action {
        SessionAction::Publish(Message::PowerCommand { broadcast, .. }) => broadcast,
        _ => false,
    }
}

/// Whether an action reports the outcome of bringing the link up.
pub open spec fn is_ready_report(action: SessionAction) -> bool {
    action is Publish && action->Publish_0 is ConnectionReady
}

/// A step keeps a session out of the transient state, and a session at rest
/// remembers the power unless the event carried a level.
pub proof fn lemma_step_keeps_session_sound(session: Session, event: SessionEvent)
    requires
        session.wf(),
    ensures
        match session.spec_step(event) {
            Some((next, _)) => {
                &&& next.wf()
                &&& next.last_power != session.last_power ==> ({
                    &&& session.state == ConnectionState::Active
                    &&& event == SessionEvent::LocalPower(next.last_power) || event
                        == SessionEvent::Received(Payload::Power(next.last_power))
                })
            },
            None => true,
        },
{
}

/// A timeout and an explicit failure are one and the same to the session,
/// when joining and when accepting: same next state, same actions. After a
/// failed join the session is idle again, has reported the failure exactly
/// once, first of all, and has cleared its indicator.
pub proof fn lemma_timeout_is_failure(session: Session)
    ensures
        session.spec_step(SessionEvent::JoinFinished(LinkOutcome::TimedOut)) == session.spec_step(
            SessionEvent::JoinFinished(LinkOutcome::Failed),
        ),
        session.spec_step(SessionEvent::AcceptFinished(LinkOutcome::TimedOut))
            == session.spec_step(SessionEvent::AcceptFinished(LinkOutcome::Failed)),
        session.state == ConnectionState::Joining ==> session.spec_step(
            SessionEvent::JoinFinished(LinkOutcome::TimedOut),
        ) == Some((session.moved(ConnectionState::Idle), join_refused())),
        session.state == ConnectionState::Accepting ==> session.spec_step(
            SessionEvent::AcceptFinished(LinkOutcome::TimedOut),
        ) == Some((session.moved(ConnectionState::Idle), accept_refused())),
        join_refused()[0] == SessionAction::Publish(Message::ConnectionReady(false)),
        accept_refused()[0] == SessionAction::Publish(Message::ConnectionReady(false)),
        forall|i: int| 1 <= i < join_refused().len() ==> !is_ready_report(#[trigger] join_refused()[i]),
        forall|i: int|
            1 <= i < accept_refused().len() ==> !is_ready_report(#[trigger] accept_refused()[i]),
        join_refused().last() == SessionAction::SetStatus(false),
        accept_refused().last() == SessionAction::SetStatus(false),
{
}

/// No power command that the session puts on the bus is owed back to the
/// peer, whatever the state and whatever the event.
pub proof fn lemma_remote_commands_are_not_broadcast(session: Session, event: SessionEvent)
    ensures
        match session.spec_step(event) {
            Some((_, owed)) => forall|i: int|
                0 <= i < owed.len() ==> !is_broadcast_command(#[trigger] owed[i]),
            None => true,
        },
{
}

/// What the peer says is never answered on the wire: a step on received
/// bytes writes nothing to the peer.
pub proof fn lemma_receiving_transmits_nothing(session: Session, payload: Payload)
    ensures
        match session.spec_step(SessionEvent::Received(payload)) {
            Some((_, owed)) => forall|i: int| 0 <= i < owed.len() ==> !(#[trigger] owed[i] is Transmit),
            None => true,
        },
{
}

/// Every way out of an active session performs the same teardown, whatever
/// triggered it. Only the close that the operator asked for tells the peer
/// first and keeps quiet on the bus; every other one reports the break.
pub proof fn lemma_every_exit_tears_down(session: Session, event: SessionEvent)
    requires
        session.state == ConnectionState::Active,
        session.spec_step(event) matches Some((next, _)) && next.state != ConnectionState::Active,
    ensures
        session.spec_step(event) == Some(
            (
                session.moved(ConnectionState::Idle),
                if event == SessionEvent::WifiSwitch(false) {
                    farewell()
                } else {
                    breakdown()
                },
            ),
        ),
        farewell().subrange(2, 5) == teardown(),
        breakdown().subrange(0, 3) == teardown(),
        farewell()[0] == SessionAction::Transmit(SENTINEL),
        forall|i: int|
            0 <= i < farewell().len() ==> #[trigger] farewell()[i] != SessionAction::Publish(
                Message::ConnectionBroken,
            ),
        breakdown().last() == SessionAction::Publish(Message::ConnectionBroken),
{
    assert(farewell().subrange(2, 5) =~= teardown());
    assert(breakdown().subrange(0, 3) =~= teardown());
}

} // verus!
