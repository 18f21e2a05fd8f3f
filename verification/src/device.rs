//! The device controller: the one owner of the device state.
//!
//! The controller answers each bus message with the next state and the
//! actuator writes and bus messages that it owes, in order. It performs
//! nothing itself.

use vstd::prelude::*;
use crate::bus::Message;
use crate::label::Label;
use crate::power::{PowerCommand, PowerLevel, DUTY_OFF};

verus! {

/// How long, in milliseconds, the "State" splash stays on the display.
pub const SPLASH_DWELL_MS: u64 = 2000;

/// How long, in milliseconds, a directional indicator stays lit after a
/// power change.
pub const SPEED_CHANGE_DELAY_MS: u64 = 400;

/// How long, in milliseconds, the controller waits after the link came up
/// before it announces the power to the peer.
pub const ANNOUNCE_DELAY_MS: u64 = 400;

/// The display row of the state and power texts.
pub const ROW_POWER: u8 = 0;

/// The display row of the wireless text.
pub const ROW_WIFI: u8 = 1;

/// The authoritative state of the device.
#[derive(Clone, Copy, Debug, PartialEq, Eq, Structural)]
pub struct DeviceState {
    pub on: bool,
    pub wifi_enabled: bool,
    pub power: PowerLevel,
}

/// How far the two-phase handshake with the session manager has come.
#[derive(Clone, Copy, Debug, PartialEq, Eq, Structural)]
pub enum Handshake {
    /// No handshake is under way.
    Settled,
    /// Waiting for the outcome of joining the network.
    AwaitingJoin,
    /// Waiting for the outcome of accepting the peer.
    AwaitingAccept,
}

/// The four states that the device can be told to be in.
#[derive(Clone, Copy, Debug, PartialEq, Eq, Structural)]
pub enum Mode {
    Off,
    OnNoWifi,
    OnWifiJoining,
    OnWifiActive,
}

/// The status lights that the controller drives.
#[derive(Clone, Copy, Debug, PartialEq, Eq, Structural)]
pub enum Indicator {
    /// Lit while the device is on.
    Powered,
    /// Pulses when the power goes up.
    Raising,
    /// Pulses when the power goes down.
    Lowering,
}

/// What the surrounding task has to do for the controller.
#[derive(Clone, Copy, Debug, PartialEq, Eq, Structural)]
pub enum DeviceAction {
    /// Clear the display.
    ClearDisplay,
    /// Write a label at the start of a display row.
    Show { row: u8, label: Label },
    /// Write the PWM compare register.
    SetDuty(u16),
    /// Switch a status light.
    SetIndicator(Indicator, bool),
    /// Hold for so many milliseconds.
    Dwell(u64),
    /// Put a message on the bus.
    Publish(Message),
}

/// The device controller's state machine.
#[derive(Clone, Copy, Debug, PartialEq, Eq, Structural)]
pub struct Controller {
    pub state: DeviceState,
    pub phase: Handshake,
}

impl DeviceState {
    /// A device that is off has no power and no wireless link.
    pub open spec fn wf(self) -> bool {
        !self.on ==> self.power == PowerLevel::Off && !self.wifi_enabled
    }

    /// The state of a device that was just started.
    pub open spec fn initial() -> DeviceState {
        DeviceState { on: false, wifi_enabled: false, power: PowerLevel::Off }
    }
}

/// The indicator that pulses for a command.
pub open spec fn spec_indicator_for(command: PowerCommand) -> Indicator {
    match command {
        PowerCommand::Increase => Indicator::Raising,
        PowerCommand::Decrease => Indicator::Lowering,
    }
}

/// The label of the wireless row.
pub open spec fn spec_wifi_label(enabled: bool) -> Label {
    if enabled {
        Label::WifiOn
    } else {
        Label::WifiOff
    }
}

/// What switching the device on asks for.
pub open spec fn switch_on_actions() -> Seq<DeviceAction> {
    seq![
        DeviceAction::SetDuty(DUTY_OFF),
        DeviceAction::ClearDisplay,
        DeviceAction::SetIndicator(Indicator::Powered, true),
        DeviceAction::Show { row: ROW_POWER, label: Label::StateOn },
        DeviceAction::Dwell(SPLASH_DWELL_MS),
        DeviceAction::ClearDisplay,
        DeviceAction::Show { row: ROW_POWER, label: Label::Power(PowerLevel::Off) },
        DeviceAction::Show { row: ROW_WIFI, label: Label::WifiOff },
    ]
}

/// What switching the device off asks for.
pub open spec fn switch_off_actions() -> Seq<DeviceAction> {
    seq![
        DeviceAction::SetDuty(DUTY_OFF),
        DeviceAction::ClearDisplay,
        DeviceAction::SetIndicator(Indicator::Powered, false),
        DeviceAction::Publish(Message::WifiEnabled(false)),
        DeviceAction::Show { row: ROW_POWER, label: Label::StateOff },
        DeviceAction::Dwell(SPLASH_DWELL_MS),
    ]
}

/// What a handshake that failed asks for, whichever phase failed: the
/// session manager is told, and the display goes back to power and
/// wireless-off.
pub open spec fn revert_actions(power: PowerLevel) -> Seq<DeviceAction> {
    seq![
        DeviceAction::Publish(Message::WifiEnabled(false)),
        DeviceAction::ClearDisplay,
        DeviceAction::Show { row: ROW_POWER, label: Label::Power(power) },
        DeviceAction::Show { row: ROW_WIFI, label: Label::WifiOff },
    ]
}

/// What a handshake that succeeded asks for: the display shows the link, and
/// the peer learns the current power.
pub open spec fn linked_actions(power: PowerLevel) -> Seq<DeviceAction> {
    seq![
        DeviceAction::ClearDisplay,
        DeviceAction::Show { row: ROW_POWER, label: Label::Power(power) },
        DeviceAction::Show { row: ROW_WIFI, label: Label::WifiOn },
        DeviceAction::Dwell(ANNOUNCE_DELAY_MS),
        DeviceAction::Publish(Message::LocalPower(power)),
    ]
}

/// What a wireless toggle asks for at once.
pub open spec fn toggle_actions(enable: bool) -> Seq<DeviceAction> {
    let opening = seq![
        DeviceAction::ClearDisplay,
        DeviceAction::Show { row: ROW_POWER, label: Label::Connecting },
        DeviceAction::Publish(Message::WifiEnabled(enable)),
    ];
    if enable {
        opening
    } else {
        opening.push(DeviceAction::Show { row: ROW_WIFI, label: Label::WifiOff })
    }
}

/// What a power change asks for: the duty, a pulse of the directional
/// indicator, the new label, word to the peer where it is owed, and the
/// wireless label.
pub open spec fn power_change_actions(
    command: PowerCommand,
    level: PowerLevel,
    announce: bool,
    wifi_enabled: bool,
) -> Seq<DeviceAction> {
    let shown = seq![
        DeviceAction::SetDuty(level.spec_duty()),
        DeviceAction::SetIndicator(spec_indicator_for(command), true),
        DeviceAction::Dwell(SPEED_CHANGE_DELAY_MS),
        DeviceAction::SetIndicator(spec_indicator_for(command), false),
        DeviceAction::ClearDisplay,
        DeviceAction::Show { row: ROW_POWER, label: Label::Power(level) },
    ];
    let told = if announce {
        shown.push(DeviceAction::Publish(Message::LocalPower(level)))
    } else {
        shown
    };
    told.push(DeviceAction::Show { row: ROW_WIFI, label: spec_wifi_label(wifi_enabled) })
}

impl Controller {
    /// The controller's invariant: the device state is sound, and a handshake
    /// is under way only while the device is on with wireless enabled.
    pub open spec fn wf(self) -> bool {
        &&& self.state.wf()
        &&& self.phase != Handshake::Settled ==> self.state.on && self.state.wifi_enabled
    }

    /// The explicit state that the fields stand for.
    pub open spec fn spec_mode(self) -> Mode {
        if !self.state.on {
            Mode::Off
        } else if !self.state.wifi_enabled {
            Mode::OnNoWifi
        } else if self.phase != Handshake::Settled {
            Mode::OnWifiJoining
        } else {
            Mode::OnWifiActive
        }
    }

    /// The controller with another device state and no handshake under way.
    pub open spec fn settled(state: DeviceState) -> Controller {
        Controller { state, phase: Handshake::Settled }
    }

    /// The answer to a message while no handshake is under way.
    pub open spec fn spec_step_settled(self, message: Message) -> Option<
        (Controller, Seq<DeviceAction>),
    > {
        let state = self.state;
        match message {
            Message::ConnectionBroken => Some(
                (
                    Controller::settled(DeviceState { wifi_enabled: false, ..state }),
                    seq![DeviceAction::Show { row: ROW_WIFI, label: Label::WifiOff }],
                ),
            ),
            Message::WifiToggleRequested => if !state.on {
                Some((self, Seq::empty()))
            } else if state.wifi_enabled {
                Some(
                    (
                        Controller::settled(DeviceState { wifi_enabled: false, ..state }),
                        toggle_actions(false),
                    ),
                )
            } else {
                Some(
                    (
                        Controller {
                            state: DeviceState { wifi_enabled: true, ..state },
                            phase: Handshake::AwaitingJoin,
                        },
                        toggle_actions(true),
                    ),
                )
            },
            Message::SetupSwitch => if state.on {
                Some((Controller::settled(DeviceState::initial()), switch_off_actions()))
            } else {
                Some(
                    (
                        Controller::settled(DeviceState { on: true, ..DeviceState::initial() }),
                        switch_on_actions(),
                    ),
                )
            },
            Message::PowerCommand { command, broadcast } => if !state.on || state.power.spec_apply(
                command,
            ) == state.power {
                Some((self, Seq::empty()))
            } else {
                Some(
                    (
                        Controller::settled(
                            DeviceState { power: state.power.spec_apply(command), ..state },
                        ),
                        power_change_actions(
                            command,
                            state.power.spec_apply(command),
                            broadcast && state.wifi_enabled,
                            state.wifi_enabled,
                        ),
                    ),
                )
            },
            _ => None,
        }
    }

    /// The transition relation: the next controller and the actions owed, or
    /// `None` where the message is not one that the controller takes in its
    /// present phase. While a handshake is under way the controller takes
    /// nothing but its outcome; every other message stays on its channel.
    pub open spec fn spec_step(self, message: Message) -> Option<(Controller, Seq<DeviceAction>)> {
        match self.phase {
            Handshake::Settled => self.spec_step_settled(message),
            Handshake::AwaitingJoin => match message {
                Message::ConnectionReady(true) => Some(
                    (
                        Controller { state: self.state, phase: Handshake::AwaitingAccept },
                        seq![
                            DeviceAction::ClearDisplay,
                            DeviceAction::Show { row: ROW_POWER, label: Label::WifiReady },
                        ],
                    ),
                ),
                Message::ConnectionReady(false) => Some(
                    (
                        Controller::settled(DeviceState { wifi_enabled: false, ..self.state }),
                        revert_actions(self.state.power),
                    ),
                ),
                _ => None,
            },
            Handshake::AwaitingAccept => match message {
                Message::ConnectionReady(true) => Some(
                    (Controller::settled(self.state), linked_actions(self.state.power)),
                ),
                Message::ConnectionReady(false) => Some(
                    (
                        Controller::settled(DeviceState { wifi_enabled: false, ..self.state }),
                        revert_actions(self.state.power),
                    ),
                ),
                _ => None,
            },
        }
    }
}

fn indicator_for(command: PowerCommand) -> (indicator: Indicator)
    ensures
        indicator == spec_indicator_for(command),
{
    match command {
        PowerCommand::Increase => Indicator::Raising,
        PowerCommand::Decrease => Indicator::Lowering,
    }
}

fn wifi_label(enabled: bool) -> (label: Label)
    ensures
        label == spec_wifi_label(enabled),
{
    if enabled {
        Label::WifiOn
    } else {
        Label::WifiOff
    }
}

fn switch_actions(on: bool) -> (actions: Vec<DeviceAction>)
    ensures
        actions@ == if on {
            switch_on_actions()
        } else {
            switch_off_actions()
        },
{
    let mut actions: Vec<DeviceAction> = Vec::new();
    actions.push(DeviceAction::SetDuty(DUTY_OFF));
    actions.push(DeviceAction::ClearDisplay);
    if on {
        actions.push(DeviceAction::SetIndicator(Indicator::Powered, true));
        actions.push(DeviceAction::Show { row: ROW_POWER, label: Label::StateOn });
        actions.push(DeviceAction::Dwell(SPLASH_DWELL_MS));
        actions.push(DeviceAction::ClearDisplay);
        actions.push(DeviceAction::Show { row: ROW_POWER, label: Label::Power(PowerLevel::Off) });
        actions.push(DeviceAction::Show { row: ROW_WIFI, label: Label::WifiOff });
        proof {
            assert(actions@ =~= switch_on_actions());
        }
    } else {
        actions.push(DeviceAction::SetIndicator(Indicator::Powered, false));
        actions.push(DeviceAction::Publish(Message::WifiEnabled(false)));
        actions.push(DeviceAction::Show { row: ROW_POWER, label: Label::StateOff });
        actions.push(DeviceAction::Dwell(SPLASH_DWELL_MS));
        proof {
            assert(actions@ =~= switch_off_actions());
        }
    }
    actions
}

fn revert(power: PowerLevel) -> (actions: Vec<DeviceAction>)
    ensures
        actions@ == revert_actions(power),
{
    let mut actions: Vec<DeviceAction> = Vec::new();
    actions.push(DeviceAction::Publish(Message::WifiEnabled(false)));
    actions.push(DeviceAction::ClearDisplay);
    actions.push(DeviceAction::Show { row: ROW_POWER, label: Label::Power(power) });
    actions.push(DeviceAction::Show { row: ROW_WIFI, label: Label::WifiOff });
    proof {
        assert(actions@ =~= revert_actions(power));
    }
    actions
}

fn linked(power: PowerLevel) -> (actions: Vec<DeviceAction>)
    ensures
        actions@ == linked_actions(power),
{
    let mut actions: Vec<DeviceAction> = Vec::new();
    actions.push(DeviceAction::ClearDisplay);
    actions.push(DeviceAction::Show { row: ROW_POWER, label: Label::Power(power) });
    actions.push(DeviceAction::Show { row: ROW_WIFI, label: Label::WifiOn });
    actions.push(DeviceAction::Dwell(ANNOUNCE_DELAY_MS));
    actions.push(DeviceAction::Publish(Message::LocalPower(power)));
    proof {
        assert(actions@ =~= linked_actions(power));
    }
    actions
}

fn toggle(enable: bool) -> (actions: Vec<DeviceAction>)
    ensures
        actions@ == toggle_actions(enable),
{
    let mut actions: Vec<DeviceAction> = Vec::new();
    actions.push(DeviceAction::ClearDisplay);
    actions.push(DeviceAction::Show { row: ROW_POWER, label: Label::Connecting });
    actions.push(DeviceAction::Publish(Message::WifiEnabled(enable)));
    if !enable {
        actions.push(DeviceAction::Show { row: ROW_WIFI, label: Label::WifiOff });
    }
    proof {
        assert(actions@ =~= toggle_actions(enable));
    }
    actions
}

fn power_change(command: PowerCommand, level: PowerLevel, announce: bool, wifi_enabled: bool) -> (actions:
    Vec<DeviceAction>)
    ensures
        actions@ == power_change_actions(command, level, announce, wifi_enabled),
{
    let mut actions: Vec<DeviceAction> = Vec::new();
    actions.push(DeviceAction::SetDuty(level.duty()));
    actions.push(DeviceAction::SetIndicator(indicator_for(command), true));
    actions.push(DeviceAction::Dwell(SPEED_CHANGE_DELAY_MS));
    actions.push(DeviceAction::SetIndicator(indicator_for(command), false));
    actions.push(DeviceAction::ClearDisplay);
    actions.push(DeviceAction::Show { row: ROW_POWER, label: Label::Power(level) });
    if announce {
        actions.push(DeviceAction::Publish(Message::LocalPower(level)));
    }
    actions.push(DeviceAction::Show { row: ROW_WIFI, label: wifi_label(wifi_enabled) });
    proof {
        assert(actions@ =~= power_change_actions(command, level, announce, wifi_enabled));
    }
    actions
}

impl Controller {
    /// Whether `after` and `actions` are the answer of this controller to
    /// the message: the next controller and the actions that the transition
    /// relation gives, or no change and `None` where the message is not taken.
    pub open spec fn answered(
        self,
        message: Message,
        after: Controller,
        actions: Option<Vec<DeviceAction>>,
    ) -> bool {
        match self.spec_step(message) {
            Some((next, owed)) => {
                &&& after == next
                &&& actions is Some
                &&& actions->0@ == owed
            },
            None => after == self && actions is None,
        }
    }

    /// The controller of a device that was just started: off, no wireless,
    /// no power, no handshake under way.
    pub fn new() -> (controller: Controller)
        ensures
            controller == Controller::settled(DeviceState::initial()),
            controller.wf(),
    {
        Controller {
            state: DeviceState { on: false, wifi_enabled: false, power: PowerLevel::Off },
            phase: Handshake::Settled,
        }
    }

    /// What the display shows before the first message arrives.
    pub fn startup_actions() -> (actions: Vec<DeviceAction>)
        ensures
            actions@ == seq![DeviceAction::Show { row: ROW_POWER, label: Label::Boot }],
    {
        let mut actions: Vec<DeviceAction> = Vec::new();
        actions.push(DeviceAction::Show { row: ROW_POWER, label: Label::Boot });
        proof {
            assert(actions@ =~= seq![DeviceAction::Show { row: ROW_POWER, label: Label::Boot }]);
        }
        actions
    }

    /// The explicit state that the fields stand for.
    pub fn mode(&self) -> (mode: Mode)
        ensures
            mode == self.spec_mode(),
    {
        if !self.state.on {
            Mode::Off
        } else if !self.state.wifi_enabled {
            Mode::OnNoWifi
        } else {
            match self.phase {
                Handshake::Settled => Mode::OnWifiActive,
                _ => Mode::OnWifiJoining,
            }
        }
    }

    /// Whether the controller takes the message in its present phase.
    pub fn accepts(&self, message: Message) -> (taken: bool)
        ensures
            taken == self.spec_step(message).is_some(),
    {
        match self.phase {
            Handshake::Settled => match message {
                Message::ConnectionBroken
                | Message::WifiToggleRequested
                | Message::SetupSwitch
                | Message::PowerCommand { .. } => true,
                _ => false,
            },
            _ => match message {
                Message::ConnectionReady(_) => true,
                _ => false,
            },
        }
    }

    /// Answers one message: moves the controller to its next state and
    /// returns the actions owed, in the order in which they are to be
    /// performed. Returns `None`, and changes nothing, where the message is
    /// not one that the controller takes in its present phase.
    pub fn step(&mut self, message: Message) -> (actions: Option<Vec<DeviceAction>>)
        ensures
            old(self).answered(message, *final(self), actions),
            old(self).wf() ==> final(self).wf(),
    {
        match self.phase {
            Handshake::Settled => match message {
                Message::ConnectionBroken => {
                    self.state.wifi_enabled = false;
                    let mut actions: Vec<DeviceAction> = Vec::new();
                    actions.push(DeviceAction::Show { row: ROW_WIFI, label: Label::WifiOff });
                    proof {
                        assert(actions@ =~= seq![
                            DeviceAction::Show { row: ROW_WIFI, label: Label::WifiOff },
                        ]);
                    }
                    Some(actions)
                },
                Message::WifiToggleRequested => {
                    if !self.state.on {
                        Some(Vec::new())
                    } else if self.state.wifi_enabled {
                        self.state.wifi_enabled = false;
                        Some(toggle(false))
                    } else {
                        self.state.wifi_enabled = true;
                        self.phase = Handshake::AwaitingJoin;
                        Some(toggle(true))
                    }
                },
                Message::SetupSwitch => {
                    let turning_on = !self.state.on;
                    self.state = DeviceState {
                        on: turning_on,
                        wifi_enabled: false,
                        power: PowerLevel::Off,
                    };
                    Some(switch_actions(turning_on))
                },
                Message::PowerCommand { command, broadcast } => {
                    let level = self.state.power.apply(command);
                    if !self.state.on || level == self.state.power {
                        Some(Vec::new())
                    } else {
                        self.state.power = level;
                        Some(
                            power_change(
                                command,
                                level,
                                broadcast && self.state.wifi_enabled,
                                self.state.wifi_enabled,
                            ),
                        )
                    }
                },
                _ => None,
            },
            Handshake::AwaitingJoin => match message {
                Message::ConnectionReady(true) => {
                    self.phase = Handshake::AwaitingAccept;
                    let mut actions: Vec<DeviceAction> = Vec::new();
                    actions.push(DeviceAction::ClearDisplay);
                    actions.push(DeviceAction::Show { row: ROW_POWER, label: Label::WifiReady });
                    proof {
                        assert(actions@ =~= seq![
                            DeviceAction::ClearDisplay,
                            DeviceAction::Show { row: ROW_POWER, label: Label::WifiReady },
                        ]);
                    }
                    Some(actions)
                },
                Message::ConnectionReady(false) => {
                    self.state.wifi_enabled = false;
                    self.phase = Handshake::Settled;
                    Some(revert(self.state.power))
                },
                _ => None,
            },
            Handshake::AwaitingAccept => match message {
                Message::ConnectionReady(true) => {
                    self.phase = Handshake::Settled;
                    Some(linked(self.state.power))
                },
                Message::ConnectionReady(false) => {
                    self.state.wifi_enabled = false;
                    self.phase = Handshake::Settled;
                    Some(revert(self.state.power))
                },
                _ => None,
            },
        }
    }
}

/// Whether an action sends a power level towards the peer.
pub open spec fn announces_power(action: DeviceAction) -> bool {
    action is Publish && action->Publish_0 is LocalPower
}

/// Whether an action writes a given label on a given row of the display.
pub open spec fn shows(action: DeviceAction, row: u8, label: Label) -> bool {
    action == (DeviceAction::Show { row, label })
}

/// Every step keeps the controller's invariant.
pub proof fn lemma_step_keeps_controller_sound(controller: Controller, message: Message)
    requires
        controller.wf(),
    ensures
        controller.spec_step(message) matches Some((next, _)) ==> next.wf(),
{
}

/// While the device is off, a power command and a wireless toggle change
/// nothing and ask for nothing.
pub proof fn lemma_off_gates_power_and_wifi(controller: Controller, message: Message)
    requires
        !controller.state.on,
        message is PowerCommand || message is WifiToggleRequested,
    ensures
        controller.spec_step(message) matches Some((next, owed)) ==> next == controller
            && owed.len() == 0,
        controller.wf() ==> controller.spec_step(message) == Some(
            (controller, Seq::<DeviceAction>::empty()),
        ),
{
}

/// Whenever a step takes the device from on to off, the power is off and
/// the wireless link disabled afterwards, whatever they were before; and the
/// switch always takes a device that is on, with no handshake under way, to
/// that one state.
pub proof fn lemma_switching_off_resets(controller: Controller, message: Message)
    requires
        controller.state.on,
    ensures
        controller.spec_step(message) matches Some((next, _)) ==> (!next.state.on ==> next
            == Controller::settled(DeviceState::initial()) && message == Message::SetupSwitch),
        controller.phase == Handshake::Settled ==> controller.spec_step(Message::SetupSwitch)
            == Some((Controller::settled(DeviceState::initial()), switch_off_actions())),
{
}

/// A command at the end of the ladder that points beyond it is a no-op: the
/// controller stays as it is and owes nothing, not even word to the peer.
pub proof fn lemma_saturated_command_is_noop(controller: Controller, broadcast: bool)
    requires
        controller.phase == Handshake::Settled,
    ensures
        controller.state.power == PowerLevel::Medium ==> controller.spec_step(
            Message::PowerCommand { command: PowerCommand::Increase, broadcast },
        ) == Some((controller, Seq::<DeviceAction>::empty())),
        controller.state.power == PowerLevel::Off ==> controller.spec_step(
            Message::PowerCommand { command: PowerCommand::Decrease, broadcast },
        ) == Some((controller, Seq::<DeviceAction>::empty())),
{
}

/// A power command that is not to be broadcast is applied like any other,
/// to the state, the duty and the display, but sends nothing towards the
/// peer.
pub proof fn lemma_quiet_command_is_not_announced(controller: Controller, command: PowerCommand)
    ensures
        ({
            let quiet = Message::PowerCommand { command, broadcast: false };
            let loud = Message::PowerCommand { command, broadcast: true };
            match controller.spec_step(quiet) {
                Some((next, owed)) => {
                    &&& forall|i: int| 0 <= i < owed.len() ==> !(#[trigger] owed[i] is Publish)
                    &&& controller.spec_step(loud) matches Some((heard, _)) && heard == next
                    &&& next.state.power != controller.state.power ==> {
                        &&& next.state.power == controller.state.power.spec_apply(command)
                        &&& owed[0] == DeviceAction::SetDuty(next.state.power.spec_duty())
                        &&& shows(owed[5], ROW_POWER, Label::Power(next.state.power))
                    }
                },
                None => controller.spec_step(loud) is None,
            }
        }),
{
}

/// A power level goes towards the peer in two cases only: a broadcast
/// command changed the power while wireless was enabled, or the handshake
/// just succeeded.
pub proof fn lemma_announcements_have_a_cause(controller: Controller, message: Message, i: int)
    requires
        controller.wf(),
        controller.spec_step(message) matches Some((_, owed)) && 0 <= i < owed.len()
            && announces_power(owed[i]),
    ensures
        ({
            let (next, owed) = controller.spec_step(message)->0;
            &&& owed[i] == DeviceAction::Publish(Message::LocalPower(next.state.power))
            &&& next.state.wifi_enabled
            &&& (message matches Message::PowerCommand { command, broadcast } && broadcast
                && next.state.power != controller.state.power) || (message
                == Message::ConnectionReady(true) && controller.phase == Handshake::AwaitingAccept)
        }),
{
}

/// A handshake that fails takes the same way back whichever phase failed:
/// wireless is disabled again, the session manager is told, and the display
/// shows the power and "WIFI: Off". One that succeeds twice announces the
/// current power to the peer.
pub proof fn lemma_handshake_outcomes(controller: Controller)
    requires
        controller.phase != Handshake::Settled,
    ensures
        controller.spec_step(Message::ConnectionReady(false)) == Some(
            (
                Controller::settled(DeviceState { wifi_enabled: false, ..controller.state }),
                revert_actions(controller.state.power),
            ),
        ),
        revert_actions(controller.state.power)[0] == DeviceAction::Publish(
            Message::WifiEnabled(false),
        ),
        shows(revert_actions(controller.state.power).last(), ROW_WIFI, Label::WifiOff),
        controller.phase == Handshake::AwaitingJoin ==> (controller.spec_step(
            Message::ConnectionReady(true),
        ) matches Some((next, _)) && next.phase == Handshake::AwaitingAccept && next.state
            == controller.state),
        controller.phase == Handshake::AwaitingAccept ==> controller.spec_step(
            Message::ConnectionReady(true),
        ) == Some((Controller::settled(controller.state), linked_actions(controller.state.power))),
        linked_actions(controller.state.power).last() == DeviceAction::Publish(
            Message::LocalPower(controller.state.power),
        ),
{
}

/// A broken connection disables wireless and touches neither the on/off
/// state nor the power.
pub proof fn lemma_break_spares_power(controller: Controller)
    requires
        controller.phase == Handshake::Settled,
    ensures
        controller.spec_step(Message::ConnectionBroken) == Some(
            (
                Controller::settled(DeviceState { wifi_enabled: false, ..controller.state }),
                seq![DeviceAction::Show { row: ROW_WIFI, label: Label::WifiOff }],
            ),
        ),
{
}

} // verus!
