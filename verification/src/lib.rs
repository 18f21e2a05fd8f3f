//! Control plane of a fan-speed device: debounced buttons, a discrete power
//! ladder, a one-byte wire protocol, the connection-session state machine and
//! the device controller that arbitrates among all event sources.
//!
//! Every state machine here is a pure step function from a state and an event
//! to the next state and the actions to perform; the surrounding firmware
//! performs the actions and hands back the events.

pub mod bus;
pub mod buttons;
pub mod debounce;
pub mod device;
pub mod label;
pub mod multiplex;
pub mod power;
pub mod session;
pub mod system;
pub mod wire;
