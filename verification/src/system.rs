//! How the session manager and the device controller work together.
//!
//! The two machines share nothing but the bus. What is stated here holds of
//! every pair of them, and is proved from their transition relations alone.

use vstd::prelude::*;
use crate::bus::{Message, Task};
use crate::device::{
    announces_power, shows, Controller, DeviceAction, DeviceState, Handshake, ROW_WIFI,
};
use crate::label::Label;
use crate::session::{
    ConnectionState, LinkOutcome, Session, SessionAction, SessionEvent,
};
use crate::wire::Payload;

verus! {

/// Every message that the session publishes is addressed to the controller,
/// and every message that the controller publishes to the session, as an
/// event that the session knows.
pub proof fn lemma_messages_reach_their_task(
    session: Session,
    event: SessionEvent,
    controller: Controller,
    message: Message,
)
    ensures
        session.spec_step(event) matches Some((_, owed)) ==> forall|i: int|
            0 <= i < owed.len() ==> (#[trigger] owed[i] matches SessionAction::Publish(sent)
                ==> sent.spec_channel().spec_consumer() == Task::DeviceController
                && SessionEvent::spec_from_message(sent) is None),
        controller.spec_step(message) matches Some((_, owed)) ==> forall|i: int|
            0 <= i < owed.len() ==> (#[trigger] owed[i] matches DeviceAction::Publish(sent)
                ==> sent.spec_channel().spec_consumer() == Task::SessionManager
                && SessionEvent::spec_from_message(sent) is Some),
{
}

/// Echo suppression: whatever the peer sends, and whatever state the two
/// machines are in, no message that the session publishes on receiving it
/// makes the controller send a power level back towards the peer.
pub proof fn lemma_remote_change_is_not_echoed(
    session: Session,
    payload: Payload,
    controller: Controller,
)
    ensures
        session.spec_step(SessionEvent::Received(payload)) matches Some((_, heard))
            ==> forall|i: int|
            0 <= i < heard.len() ==> (#[trigger] heard[i] matches SessionAction::Publish(sent)
                ==> (controller.spec_step(sent) matches Some((_, owed)) ==> forall|j: int|
                0 <= j < owed.len() ==> !announces_power(#[trigger] owed[j]))),
{
}

/// A join that fails and a join that times out end alike, all the way down:
/// the session is idle again and has reported the failure; the controller
/// that waits for the outcome disables wireless, settles, and leaves
/// "WIFI: Off" on the display; and the word that it sends back finds the
/// idle session, which has nothing left to do.
pub proof fn lemma_failed_join_ends_idle(
    session: Session,
    outcome: LinkOutcome,
    controller: Controller,
)
    requires
        session.state == ConnectionState::Joining,
        outcome != LinkOutcome::Done,
        controller.phase == Handshake::AwaitingJoin,
    ensures
        ({
            let (idle, reported) = session.spec_step(SessionEvent::JoinFinished(outcome))->0;
            let (settled, shown) = controller.spec_step(Message::ConnectionReady(false))->0;
            &&& session.spec_step(SessionEvent::JoinFinished(outcome)) is Some
            &&& controller.spec_step(Message::ConnectionReady(false)) is Some
            &&& idle.state == ConnectionState::Idle
            &&& reported[0] == SessionAction::Publish(Message::ConnectionReady(false))
            &&& settled == Controller::settled(
                DeviceState { wifi_enabled: false, ..controller.state },
            )
            &&& shown[0] == DeviceAction::Publish(Message::WifiEnabled(false))
            &&& shows(shown.last(), ROW_WIFI, Label::WifiOff)
            &&& idle.spec_step(SessionEvent::WifiSwitch(false)) == Some(
                (idle, Seq::<SessionAction>::empty()),
            )
        }),
{
}

} // verus!
