//! The fixed power vocabulary and the ladder that relative commands walk.

use vstd::prelude::*;

verus! {

/// PWM compare value that drives the fans at the lowest level.
pub const DUTY_OFF: u16 = 0x0000;

/// PWM compare value for the middle level.
pub const DUTY_LOW: u16 = 0x6000;

/// PWM compare value for the highest level; it equals the counter's top.
pub const DUTY_MEDIUM: u16 = 0x8000;

/// A discrete fan power level. The set is closed: no other level exists.
#[derive(Clone, Copy, Debug, PartialEq, Eq, Structural)]
pub enum PowerLevel {
    Off,
    Low,
    Medium,
}

/// A relative intent: one rung up or one rung down the ladder.
#[derive(Clone, Copy, Debug, PartialEq, Eq, Structural)]
pub enum PowerCommand {
    Increase,
    Decrease,
}

impl PowerLevel {
    /// The value that stands for this level on the wire.
    pub open spec fn spec_byte(self) -> u8 {
        match self {
            PowerLevel::Off => 0u8,
            PowerLevel::Low => 80u8,
            PowerLevel::Medium => 100u8,
        }
    }

    /// The level that a wire value stands for, if it stands for one.
    pub open spec fn spec_from_byte(value: u8) -> Option<PowerLevel> {
        if value == 0 {
            Some(PowerLevel::Off)
        } else if value == 80 {
            Some(PowerLevel::Low)
        } else if value == 100 {
            Some(PowerLevel::Medium)
        } else {
            None
        }
    }

    /// Position on the ladder, counted from the bottom.
    pub open spec fn rank(self) -> nat {
        match self {
            PowerLevel::Off => 0,
            PowerLevel::Low => 1,
            PowerLevel::Medium => 2,
        }
    }

    /// The PWM compare value that realises this level.
    pub open spec fn spec_duty(self) -> u16 {
        match self {
            PowerLevel::Off => DUTY_OFF,
            PowerLevel::Low => DUTY_LOW,
            PowerLevel::Medium => DUTY_MEDIUM,
        }
    }

    /// One rung up; the top rung stays where it is.
    pub open spec fn spec_raised(self) -> PowerLevel {
        match self {
            PowerLevel::Off => PowerLevel::Low,
            PowerLevel::Low => PowerLevel::Medium,
            PowerLevel::Medium => PowerLevel::Medium,
        }
    }

    /// One rung down; the bottom rung stays where it is.
    pub open spec fn spec_lowered(self) -> PowerLevel {
        match self {
            PowerLevel::Off => PowerLevel::Off,
            PowerLevel::Low => PowerLevel::Off,
            PowerLevel::Medium => PowerLevel::Low,
        }
    }

    /// The level after one command.
    pub open spec fn spec_apply(self, command: PowerCommand) -> PowerLevel {
        match command {
            PowerCommand::Increase => self.spec_raised(),
            PowerCommand::Decrease => self.spec_lowered(),
        }
    }

    pub fn byte(self) -> (value: u8)
        ensures
            value == self.spec_byte(),
    {
        match self {
            PowerLevel::Off => 0,
            PowerLevel::Low => 80,
            PowerLevel::Medium => 100,
        }
    }

    pub fn from_byte(value: u8) -> (level: Option<PowerLevel>)
        ensures
            level == PowerLevel::spec_from_byte(value),
    {
        if value == 0 {
            Some(PowerLevel::Off)
        } else if value == 80 {
            Some(PowerLevel::Low)
        } else if value == 100 {
            Some(PowerLevel::Medium)
        } else {
            None
        }
    }

    pub fn duty(self) -> (compare: u16)
        ensures
            compare == self.spec_duty(),
    {
        match self {
            PowerLevel::Off => DUTY_OFF,
            PowerLevel::Low => DUTY_LOW,
            PowerLevel::Medium => DUTY_MEDIUM,
        }
    }

    pub fn raised(self) -> (next: PowerLevel)
        ensures
            next == self.spec_raised(),
    {
        match self {
            PowerLevel::Off => PowerLevel::Low,
            PowerLevel::Low => PowerLevel::Medium,
            PowerLevel::Medium => PowerLevel::Medium,
        }
    }

    pub fn lowered(self) -> (next: PowerLevel)
        ensures
            next == self.spec_lowered(),
    {
        match self {
            PowerLevel::Off => PowerLevel::Off,
            PowerLevel::Low => PowerLevel::Off,
            PowerLevel::Medium => PowerLevel::Low,
        }
    }

    pub fn apply(self, command: PowerCommand) -> (next: PowerLevel)
        ensures
            next == self.spec_apply(command),
    {
        match command {
            PowerCommand::Increase => self.raised(),
            PowerCommand::Decrease => self.lowered(),
        }
    }
}

/// The ladder is a total order, and the wire values and the PWM values grow
/// with it: two levels are equal exactly when their ranks are, and a level
/// ranks below another exactly when its wire value, and its duty, is smaller.
pub proof fn lemma_ladder_is_total_order(a: PowerLevel, b: PowerLevel)
    ensures
        a.rank() < b.rank() || a == b || b.rank() < a.rank(),
        a.rank() == b.rank() <==> a == b,
        a.rank() < b.rank() <==> a.spec_byte() < b.spec_byte(),
        a.rank() < b.rank() <==> a.spec_duty() < b.spec_duty(),
{
}

/// A command never leaves the vocabulary: the level after it is written on
/// the wire as 0, 80 or 100, and reading that value back gives the level.
pub proof fn lemma_apply_stays_in_vocabulary(level: PowerLevel, command: PowerCommand)
    ensures
        ({
            let value = level.spec_apply(command).spec_byte();
            value == 0 || value == 80 || value == 100
        }),
        PowerLevel::spec_from_byte(level.spec_apply(command).spec_byte()) == Some(
            level.spec_apply(command),
        ),
{
}

/// A command moves at most one rung, in its own direction, and at the end of
/// the ladder it changes nothing, however often it is repeated.
pub proof fn lemma_saturation_is_noop(level: PowerLevel)
    ensures
        PowerLevel::Medium.spec_raised() == PowerLevel::Medium,
        PowerLevel::Off.spec_lowered() == PowerLevel::Off,
        level != PowerLevel::Medium ==> level.spec_raised().rank() == level.rank() + 1,
        level != PowerLevel::Off ==> level.spec_lowered().rank() + 1 == level.rank(),
        level.spec_raised().spec_raised().spec_raised() == PowerLevel::Medium,
        level.spec_lowered().spec_lowered().spec_lowered() == PowerLevel::Off,
{
}

/// Raising and then lowering returns to the start everywhere but at the top,
/// and lowering then raising everywhere but at the bottom.
pub proof fn lemma_commands_undo_each_other(level: PowerLevel)
    ensures
        level != PowerLevel::Medium ==> level.spec_raised().spec_lowered() == level,
        level != PowerLevel::Off ==> level.spec_lowered().spec_raised() == level,
{
}

} // verus!
