//! The fixed texts that the two-line display shows.
//!
//! A text lives in a `heapless::String` of 32 bytes, which is what the display
//! driver is handed.

use vstd::prelude::*;
use crate::power::PowerLevel;

verus! {

/// `heapless::String<N>`: a string of at most `N` bytes that is held inline.
/// The type is opaque here; what a value holds is named by `label_chars`.
#[verifier::external_type_specification]
#[verifier::external_body]
pub struct ExFixedString<const N: usize>(heapless::String<N>);

/// The characters that a display string holds, in order.
pub uninterp spec fn label_chars(text: heapless::String<32>) -> Seq<char>;

/// `heapless::String::<32>::try_from(&str)`: a new string into which the
/// text is pushed. The push fails, and nothing is returned, when the text's
/// bytes exceed the capacity of 32; for ASCII text the bytes are as many as
/// the characters. A string that comes back holds the text's characters.
#[verifier::external_body]
fn fixed_from_str(text: &str) -> (held: Result<heapless::String<32>, ()>)
    ensures
        text.is_ascii() ==> (held is Ok <==> text@.len() <= 32),
        held matches Ok(stored) ==> label_chars(stored) == text@,
{
    heapless::String::<32>::try_from(text)
}

/// What the display can be asked to show.
#[derive(Clone, Copy, Debug, PartialEq, Eq, Structural)]
pub enum Label {
    /// Shown once at start-up, before any button was pressed.
    Boot,
    StateOn,
    StateOff,
    /// The name of a power level.
    Power(PowerLevel),
    Connecting,
    WifiReady,
    WifiOn,
    WifiOff,
}

/// The text that names the power behind a wire value: 80 and 100 have names
/// of their own, every other value reads as the lowest level.
pub open spec fn spec_match_power(power: u8) -> Seq<char> {
    if power == 80 {
        "Power: Medium"@
    } else if power == 100 {
        "Power: High"@
    } else {
        "Power: Low"@
    }
}

impl Label {
    /// The characters of the label.
    pub open spec fn spec_text(self) -> Seq<char> {
        match self {
            Label::Boot => "State: OFF"@,
            Label::StateOn => "State: On"@,
            Label::StateOff => "State: Off"@,
            Label::Power(level) => spec_match_power(level.spec_byte()),
            Label::Connecting => "Connecting..."@,
            Label::WifiReady => "WIFI: Ready"@,
            Label::WifiOn => "WIFI: On"@,
            Label::WifiOff => "WIFI: Off"@,
        }
    }

    /// The label as a string for the display driver.
    pub fn text(self) -> (text: heapless::String<32>)
        ensures
            label_chars(text) == self.spec_text(),
    {
        match self {
            Label::Boot => {
                proof {
                    reveal_strlit("State: OFF");
                }
                fixed("State: OFF")
            },
            Label::StateOn => {
                proof {
                    reveal_strlit("State: On");
                }
                fixed("State: On")
            },
            Label::StateOff => {
                proof {
                    reveal_strlit("State: Off");
                }
                fixed("State: Off")
            },
            Label::Power(level) => match_power(level.byte()),
            Label::Connecting => {
                proof {
                    reveal_strlit("Connecting...");
                }
                fixed("Connecting...")
            },
            Label::WifiReady => {
                proof {
                    reveal_strlit("WIFI: Ready");
                }
                fixed("WIFI: Ready")
            },
            Label::WifiOn => {
                proof {
                    reveal_strlit("WIFI: On");
                }
                fixed("WIFI: On")
            },
            Label::WifiOff => {
                proof {
                    reveal_strlit("WIFI: Off");
                }
                fixed("WIFI: Off")
            },
        }
    }
}

/// Stores a short ASCII text in a display string.
fn fixed(text: &str) -> (stored: heapless::String<32>)
    requires
        text.is_ascii(),
        text@.len() <= 32,
    ensures
        label_chars(stored) == text@,
{
    match fixed_from_str(text) {
        Ok(stored) => stored,
        Err(_) => vstd::pervasive::unreached(),
    }
}

/// The display text that names the power behind a wire value.
pub fn match_power(power: u8) -> (text: heapless::String<32>)
    ensures
        label_chars(text) == spec_match_power(power),
{
    match power {
        80 => {
            proof {
                reveal_strlit("Power: Medium");
            }
            fixed("Power: Medium")
        },
        100 => {
            proof {
                reveal_strlit("Power: High");
            }
            fixed("Power: High")
        },
        _ => {
            proof {
                reveal_strlit("Power: Low");
            }
            fixed("Power: Low")
        },
    }
}

} // verus!
