//! The input-mapping engine: once per scheduler tick each configured binding
//! is polled and its gesture state machine driven, emitting precisely timed
//! touch events onto the outgoing control channel.
pub mod cast_spell;
pub mod config;
pub mod cursor;
pub mod joystick;
pub mod observation;
pub mod script;
pub mod swipe;
pub mod tap;
pub mod utils;
