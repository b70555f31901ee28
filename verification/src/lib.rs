//! Verified core of a remote virtual-gamepad host: a signaling state machine
//! that negotiates peer sessions over a relay, a binary frame codec for input
//! events, a pure mapping from events to controller-state updates, and
//! the serialized state store that feeds the virtual device.

pub mod channel;
pub mod codec;
pub mod event;
pub mod joystick;
pub mod public;
pub mod scale;
pub mod signal;
pub mod state;

pub use state::ControllerState;
