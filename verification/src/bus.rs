//! The messages that cross task boundaries, and the channel each travels on.
//!
//! The bus is a fixed set of bounded first-in-first-out channels. Tasks share
//! no memory: whatever one task wants of another, it says with one of these
//! messages, by value.

use vstd::prelude::*;
use crate::power::{PowerCommand, PowerLevel};

verus! {

/// How many messages each channel holds before a sender has to wait.
pub const CAPACITY: usize = 64;

/// A message on the bus.
#[derive(Clone, Copy, Debug, PartialEq, Eq, Structural)]
pub enum Message {
    /// The on/off switch was pressed.
    SetupSwitch,
    /// The wireless button was pressed.
    WifiToggleRequested,
    /// Move the power one rung; `broadcast` says whether the resulting level
    /// is owed to a connected peer.
    PowerCommand { command: PowerCommand, broadcast: bool },
    /// The outcome of one phase of bringing the link up.
    ConnectionReady(bool),
    /// An established session ended without the operator asking for it.
    ConnectionBroken,
    /// The controller switches the wireless link on or off.
    WifiEnabled(bool),
    /// A power level that the controller wants announced to the peer.
    LocalPower(PowerLevel),
}

/// The channels of the bus.
#[derive(Clone, Copy, Debug, PartialEq, Eq, Structural)]
pub enum Channel {
    SpeedControl,
    SendOverConnection,
    SetupSwitch,
    WifiButton,
    WifiMain,
    ConnectionBreak,
    ConnectionReady,
}

/// The tasks that take messages off the bus.
#[derive(Clone, Copy, Debug, PartialEq, Eq, Structural)]
pub enum Task {
    DeviceController,
    SessionManager,
}

impl Message {
    /// The channel that carries this message.
    pub open spec fn spec_channel(self) -> Channel {
        match self {
            Message::SetupSwitch => Channel::SetupSwitch,
            Message::WifiToggleRequested => Channel::WifiButton,
            Message::PowerCommand { .. } => Channel::SpeedControl,
            Message::ConnectionReady(_) => Channel::ConnectionReady,
            Message::ConnectionBroken => Channel::ConnectionBreak,
            Message::WifiEnabled(_) => Channel::WifiMain,
            Message::LocalPower(_) => Channel::SendOverConnection,
        }
    }

    pub fn channel(self) -> (channel: Channel)
        ensures
            channel == self.spec_channel(),
    {
        match self {
            Message::SetupSwitch => Channel::SetupSwitch,
            Message::WifiToggleRequested => Channel::WifiButton,
            Message::PowerCommand { .. } => Channel::SpeedControl,
            Message::ConnectionReady(_) => Channel::ConnectionReady,
            Message::ConnectionBroken => Channel::ConnectionBreak,
            Message::WifiEnabled(_) => Channel::WifiMain,
            Message::LocalPower(_) => Channel::SendOverConnection,
        }
    }
}

impl Channel {
    /// The one task that receives from this channel.
    pub open spec fn spec_consumer(self) -> Task {
        match self {
            Channel::SendOverConnection | Channel::WifiMain => Task::SessionManager,
            _ => Task::DeviceController,
        }
    }

    pub fn consumer(self) -> (task: Task)
        ensures
            task == self.spec_consumer(),
    {
        match self {
            Channel::SendOverConnection | Channel::WifiMain => Task::SessionManager,
            _ => Task::DeviceController,
        }
    }
}

} // verus!
