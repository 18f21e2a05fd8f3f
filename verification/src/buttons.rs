//! The four button tasks: pure sources of bus messages.
//!
//! Each task owns one debouncer. A settled press becomes exactly one message;
//! after it the task rests for a fixed dead time, during which the input is
//! not looked at.

use vstd::prelude::*;
use crate::bus::Message;
use crate::debounce::{Debouncer, Observation, Phase, Wait};
use crate::power::PowerCommand;

verus! {

/// The dead time, in milliseconds, after a press.
pub const BUTTONS_TASK_DELAY: u64 = 400;

/// The physical controls of the device.
#[derive(Clone, Copy, Debug, PartialEq, Eq, Structural)]
pub enum Button {
    PowerSwitch,
    IncreasePower,
    DecreasePower,
    WifiConnection,
}

/// What a button task does next.
#[derive(Clone, Copy, Debug, PartialEq, Eq, Structural)]
pub enum ButtonWait {
    /// Serve the debouncer.
    Input(Wait),
    /// Rest for so many milliseconds, then report that the rest is over.
    Rest(u64),
}

/// The task of one button.
#[derive(Clone, Copy, Debug, PartialEq, Eq, Structural)]
pub struct ButtonTask {
    pub button: Button,
    pub debouncer: Debouncer,
    /// Whether the task is in its dead time.
    pub resting: bool,
}

impl Button {
    /// The one message that a press of this button means. Commands from a
    /// button are owed to a connected peer.
    pub open spec fn spec_message(self) -> Message {
        match self {
            Button::PowerSwitch => Message::SetupSwitch,
            Button::IncreasePower => Message::PowerCommand {
                command: PowerCommand::Increase,
                broadcast: true,
            },
            Button::DecreasePower => Message::PowerCommand {
                command: PowerCommand::Decrease,
                broadcast: true,
            },
            Button::WifiConnection => Message::WifiToggleRequested,
        }
    }

    pub fn message(self) -> (message: Message)
        ensures
            message == self.spec_message(),
    {
        match self {
            Button::PowerSwitch => Message::SetupSwitch,
            Button::IncreasePower => Message::PowerCommand {
                command: PowerCommand::Increase,
                broadcast: true,
            },
            Button::DecreasePower => Message::PowerCommand {
                command: PowerCommand::Decrease,
                broadcast: true,
            },
            Button::WifiConnection => Message::WifiToggleRequested,
        }
    }
}

impl ButtonTask {
    /// A task that starts its first debounce cycle.
    pub open spec fn fresh(button: Button, debounce: u16) -> ButtonTask {
        ButtonTask {
            button,
            debouncer: Debouncer { debounce, phase: Phase::Sampling },
            resting: false,
        }
    }

    /// What the task does next.
    pub open spec fn spec_pending(self) -> ButtonWait {
        if self.resting {
            ButtonWait::Rest(BUTTONS_TASK_DELAY)
        } else {
            ButtonWait::Input(self.debouncer.spec_pending())
        }
    }

    /// One observation of the input: the task afterwards, and the message to
    /// send if the observation settled a press. During the dead time the
    /// observation is dropped.
    pub open spec fn spec_observe(self, seen: Observation) -> (ButtonTask, Option<Message>) {
        if self.resting {
            (self, None)
        } else {
            let (debouncer, settled) = self.debouncer.spec_debounce(seen);
            (
                ButtonTask { button: self.button, debouncer, resting: settled is Some },
                if settled is Some {
                    Some(self.button.spec_message())
                } else {
                    None
                },
            )
        }
    }

    /// The task after its dead time.
    pub open spec fn spec_rested(self) -> ButtonTask {
        ButtonTask { resting: false, ..self }
    }

    pub fn new(button: Button, debounce: u16) -> (task: ButtonTask)
        ensures
            task == ButtonTask::fresh(button, debounce),
    {
        ButtonTask { button, debouncer: Debouncer::new(debounce), resting: false }
    }

    /// What the task does next.
    pub fn pending(&self) -> (wait: ButtonWait)
        ensures
            wait == self.spec_pending(),
    {
        if self.resting {
            ButtonWait::Rest(BUTTONS_TASK_DELAY)
        } else {
            ButtonWait::Input(self.debouncer.pending())
        }
    }

    /// Takes one observation of the input and returns the message to send if
    /// it settled a press.
    pub fn observe(&mut self, seen: Observation) -> (message: Option<Message>)
        ensures
            (*final(self), message) == old(self).spec_observe(seen),
    {
        if self.resting {
            return None;
        }
        match self.debouncer.debounce(seen) {
            Some(_) => {
                self.resting = true;
                Some(self.button.message())
            },
            None => None,
        }
    }

    /// Ends the dead time.
    pub fn rested(&mut self)
        ensures
            *final(self) == old(self).spec_rested(),
    {
        self.resting = false;
    }
}

/// The task of the on/off switch.
pub fn button_power_switch(debounce: u16) -> (task: ButtonTask)
    ensures
        task == ButtonTask::fresh(Button::PowerSwitch, debounce),
{
    ButtonTask::new(Button::PowerSwitch, debounce)
}

/// The task of the button that raises the power.
pub fn button_increase_power_pressed(debounce: u16) -> (task: ButtonTask)
    ensures
        task == ButtonTask::fresh(Button::IncreasePower, debounce),
{
    ButtonTask::new(Button::IncreasePower, debounce)
}

/// The task of the button that lowers the power.
pub fn button_decrease_power_pressed(debounce: u16) -> (task: ButtonTask)
    ensures
        task == ButtonTask::fresh(Button::DecreasePower, debounce),
{
    ButtonTask::new(Button::DecreasePower, debounce)
}

/// The task of the wireless button.
pub fn button_wifi_connection(debounce: u16) -> (task: ButtonTask)
    ensures
        task == ButtonTask::fresh(Button::WifiConnection, debounce),
{
    ButtonTask::new(Button::WifiConnection, debounce)
}

/// A press becomes exactly one message, the button's own, and only when the
/// debouncer settled; the dead time follows at once, and nothing that the
/// input does during it becomes a message or moves the task.
pub proof fn lemma_one_message_per_press(task: ButtonTask, seen: Observation)
    ensures
        ({
            let (after, message) = task.spec_observe(seen);
            &&& after.button == task.button
            &&& message is Some <==> !task.resting && task.debouncer.spec_debounce(seen).1 is Some
            &&& message is Some ==> message == Some(task.button.spec_message()) && after.resting
                && after.spec_pending() == ButtonWait::Rest(BUTTONS_TASK_DELAY)
            &&& task.resting ==> after == task && message is None
        }),
{
}

/// Buttons never read the device state, and what they send goes to the
/// controller alone.
pub proof fn lemma_buttons_address_the_controller(button: Button)
    ensures
        button.spec_message().spec_channel().spec_consumer()
            == crate::bus::Task::DeviceController,
{
}

} // verus!
