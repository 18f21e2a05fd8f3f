use fan_controller::bus::Message;
use fan_controller::power::{PowerCommand, PowerLevel};
use fan_controller::session::{
    ConnectionState, LinkOutcome, Session, SessionAction, SessionEvent, ACCEPT_PORT,
    LINK_TIMEOUT_SECS, LIVENESS_INTERVAL_MS,
};
use fan_controller::wire::Payload;

fn active(last_power: PowerLevel) -> Session {
    Session { state: ConnectionState::Active, last_power }
}

fn teardown_with_report() -> Vec<SessionAction> {
    vec![
        SessionAction::Abort,
        SessionAction::Leave,
        SessionAction::SetStatus(false),
        SessionAction::Publish(Message::ConnectionBroken),
    ]
}

#[test]
fn session_constants() {
    assert_eq!(ACCEPT_PORT, 1234);
    assert_eq!(LINK_TIMEOUT_SECS, 100);
    assert_eq!(LIVENESS_INTERVAL_MS, 100);
}

#[test]
fn new_session_is_idle() {
    let session = Session::new();
    assert_eq!(session.state, ConnectionState::Idle);
    assert_eq!(session.last_power, PowerLevel::Off);
}

#[test]
fn idle_waits_for_the_switch() {
    let mut session = Session::new();
    assert_eq!(session.step(SessionEvent::WifiSwitch(false)), Some(vec![]));
    assert_eq!(session.state, ConnectionState::Idle);
    assert_eq!(session.step(SessionEvent::LocalPower(PowerLevel::Low)), None);
    assert_eq!(session.step(SessionEvent::ReadFailed), None);
    assert_eq!(session, Session::new());
    assert_eq!(
        session.step(SessionEvent::WifiSwitch(true)),
        Some(vec![SessionAction::SetStatus(true), SessionAction::Join { timeout_secs: 100 }])
    );
    assert_eq!(session.state, ConnectionState::Joining);
}

#[test]
fn the_way_up_to_an_active_session() {
    let mut session = Session::new();
    session.step(SessionEvent::WifiSwitch(true));
    assert_eq!(
        session.step(SessionEvent::JoinFinished(LinkOutcome::Done)),
        Some(vec![SessionAction::AwaitConfig])
    );
    assert_eq!(session.state, ConnectionState::Joined);
    assert_eq!(
        session.step(SessionEvent::ConfigReady),
        Some(vec![
            SessionAction::Publish(Message::ConnectionReady(true)),
            SessionAction::Accept { port: 1234, timeout_secs: 100 },
        ])
    );
    assert_eq!(session.state, ConnectionState::Accepting);
    assert_eq!(
        session.step(SessionEvent::AcceptFinished(LinkOutcome::Done)),
        Some(vec![SessionAction::Publish(Message::ConnectionReady(true))])
    );
    assert_eq!(session.state, ConnectionState::Active);
}

#[test]
fn join_error_and_join_timeout_are_alike() {
    let joining = Session { state: ConnectionState::Joining, last_power: PowerLevel::Low };
    let mut failed = joining;
    let mut timed_out = joining;
    let after_failure = failed.step(SessionEvent::JoinFinished(LinkOutcome::Failed));
    let after_timeout = timed_out.step(SessionEvent::JoinFinished(LinkOutcome::TimedOut));
    assert_eq!(after_failure, after_timeout);
    assert_eq!(failed, timed_out);
    assert_eq!(
        after_timeout,
        Some(vec![
            SessionAction::Publish(Message::ConnectionReady(false)),
            SessionAction::SetStatus(false),
        ])
    );
    assert_eq!(failed, Session { state: ConnectionState::Idle, last_power: PowerLevel::Low });
}

#[test]
fn accept_error_and_accept_timeout_leave_the_network() {
    for outcome in [LinkOutcome::Failed, LinkOutcome::TimedOut] {
        let mut session = Session { state: ConnectionState::Accepting, last_power: PowerLevel::Off };
        assert_eq!(
            session.step(SessionEvent::AcceptFinished(outcome)),
            Some(vec![
                SessionAction::Publish(Message::ConnectionReady(false)),
                SessionAction::Leave,
                SessionAction::SetStatus(false),
            ])
        );
        assert_eq!(session.state, ConnectionState::Idle);
    }
}

#[test]
fn events_out_of_place_change_nothing() {
    let events = [
        SessionEvent::WifiSwitch(true),
        SessionEvent::WifiSwitch(false),
        SessionEvent::LocalPower(PowerLevel::Medium),
        SessionEvent::ConfigReady,
        SessionEvent::AcceptFinished(LinkOutcome::Done),
        SessionEvent::Received(Payload::Terminate),
        SessionEvent::ReadFailed,
        SessionEvent::WriteFailed,
        SessionEvent::LivenessLost,
    ];
    let joining = Session { state: ConnectionState::Joining, last_power: PowerLevel::Off };
    for event in events {
        let mut session = joining;
        assert!(!session.accepts(event));
        assert_eq!(session.step(event), None);
        assert_eq!(session, joining);
    }
    let closing = Session { state: ConnectionState::Closing, last_power: PowerLevel::Off };
    for event in events {
        let mut session = closing;
        assert!(!session.accepts(event));
        assert_eq!(session.step(event), None);
    }
}

#[test]
fn accepts_agrees_with_step() {
    let states = [
        ConnectionState::Idle,
        ConnectionState::Joining,
        ConnectionState::Joined,
        ConnectionState::Accepting,
        ConnectionState::Active,
        ConnectionState::Closing,
    ];
    let events = [
        SessionEvent::WifiSwitch(true),
        SessionEvent::WifiSwitch(false),
        SessionEvent::LocalPower(PowerLevel::Low),
        SessionEvent::JoinFinished(LinkOutcome::Done),
        SessionEvent::JoinFinished(LinkOutcome::Failed),
        SessionEvent::ConfigReady,
        SessionEvent::AcceptFinished(LinkOutcome::TimedOut),
        SessionEvent::Received(Payload::Empty),
        SessionEvent::Received(Payload::Invalid),
        SessionEvent::ReadFailed,
        SessionEvent::WriteFailed,
        SessionEvent::LivenessLost,
    ];
    for state in states {
        for event in events {
            let session = Session { state, last_power: PowerLevel::Low };
            let mut stepped = session;
            let answer = stepped.step(event);
            assert_eq!(session.accepts(event), answer.is_some());
            if state != ConnectionState::Closing {
                assert_ne!(stepped.state, ConnectionState::Closing);
            }
        }
    }
}

#[test]
fn operator_close_tells_the_peer_and_keeps_quiet() {
    let mut session = active(PowerLevel::Low);
    assert_eq!(
        session.step(SessionEvent::WifiSwitch(false)),
        Some(vec![
            SessionAction::Transmit(111),
            SessionAction::Flush,
            SessionAction::Abort,
            SessionAction::Leave,
            SessionAction::SetStatus(false),
        ])
    );
    assert_eq!(session, Session { state: ConnectionState::Idle, last_power: PowerLevel::Low });
}

#[test]
fn switch_on_while_active_is_ignored() {
    let mut session = active(PowerLevel::Low);
    assert_eq!(session.step(SessionEvent::WifiSwitch(true)), Some(vec![]));
    assert_eq!(session, active(PowerLevel::Low));
}

#[test]
fn local_power_is_written_as_one_byte() {
    let mut session = active(PowerLevel::Off);
    assert_eq!(
        session.step(SessionEvent::LocalPower(PowerLevel::Low)),
        Some(vec![SessionAction::Transmit(80)])
    );
    assert_eq!(session, active(PowerLevel::Low));
    assert_eq!(
        session.step(SessionEvent::LocalPower(PowerLevel::Medium)),
        Some(vec![SessionAction::Transmit(100)])
    );
    assert_eq!(
        session.step(SessionEvent::LocalPower(PowerLevel::Off)),
        Some(vec![SessionAction::Transmit(0)])
    );
    assert_eq!(session, active(PowerLevel::Off));
}

#[test]
fn every_failure_tears_down_alike() {
    let failures = [
        SessionEvent::Received(Payload::Terminate),
        SessionEvent::Received(Payload::Invalid),
        SessionEvent::ReadFailed,
        SessionEvent::WriteFailed,
        SessionEvent::LivenessLost,
    ];
    for event in failures {
        let mut session = active(PowerLevel::Medium);
        assert_eq!(session.step(event), Some(teardown_with_report()));
        assert_eq!(
            session,
            Session { state: ConnectionState::Idle, last_power: PowerLevel::Medium }
        );
    }
}

#[test]
fn remote_level_becomes_a_quiet_command() {
    let increase = Message::PowerCommand { command: PowerCommand::Increase, broadcast: false };
    let decrease = Message::PowerCommand { command: PowerCommand::Decrease, broadcast: false };
    let mut session = active(PowerLevel::Off);
    assert_eq!(session.receive(&[80]), Some(vec![SessionAction::Publish(increase)]));
    assert_eq!(session.last_power, PowerLevel::Low);
    assert_eq!(session.receive(b"100"), Some(vec![SessionAction::Publish(increase)]));
    assert_eq!(session.last_power, PowerLevel::Medium);
    assert_eq!(session.receive(&[100]), Some(vec![]));
    assert_eq!(session.last_power, PowerLevel::Medium);
    assert_eq!(session.receive(b"0"), Some(vec![SessionAction::Publish(decrease)]));
    assert_eq!(session.last_power, PowerLevel::Off);
    assert_eq!(session.state, ConnectionState::Active);
}

#[test]
fn empty_read_is_a_no_op() {
    let mut session = active(PowerLevel::Low);
    assert_eq!(session.receive(&[]), Some(vec![]));
    assert_eq!(session, active(PowerLevel::Low));
}

#[test]
fn sentinel_from_the_peer_breaks_the_session() {
    let mut session = active(PowerLevel::Low);
    assert_eq!(session.receive(&[111]), Some(teardown_with_report()));
    assert_eq!(session.state, ConnectionState::Idle);
    let mut texted = active(PowerLevel::Low);
    assert_eq!(texted.receive(b"111"), Some(teardown_with_report()));
}

#[test]
fn stray_byte_breaks_the_session_and_nothing_more() {
    let mut session = active(PowerLevel::Low);
    assert_eq!(session.receive(&[7]), Some(teardown_with_report()));
    assert_eq!(session, Session { state: ConnectionState::Idle, last_power: PowerLevel::Low });
}

#[test]
fn bytes_while_idle_are_not_taken() {
    let mut session = Session::new();
    assert_eq!(session.receive(&[80]), None);
    assert_eq!(session, Session::new());
}

#[test]
fn bus_messages_as_session_events() {
    assert_eq!(
        SessionEvent::from_message(Message::WifiEnabled(true)),
        Some(SessionEvent::WifiSwitch(true))
    );
    assert_eq!(
        SessionEvent::from_message(Message::WifiEnabled(false)),
        Some(SessionEvent::WifiSwitch(false))
    );
    assert_eq!(
        SessionEvent::from_message(Message::LocalPower(PowerLevel::Low)),
        Some(SessionEvent::LocalPower(PowerLevel::Low))
    );
    assert_eq!(SessionEvent::from_message(Message::SetupSwitch), None);
    assert_eq!(SessionEvent::from_message(Message::ConnectionBroken), None);
    assert_eq!(SessionEvent::from_message(Message::ConnectionReady(true)), None);
}
