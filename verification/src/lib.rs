//! Keyboard-input subsystem for a handheld device with two scanning
//! backends: a GPIO matrix scanner decoded by address/input line, and an
//! I2C keypad controller with an internal event FIFO. A stateful
//! interpreter turns raw key identities into modifier-aware chords.
//!
//! The decoding tables, the conversion rules and both interpreter state
//! machines live here, fully verified; the code that drives pins and the
//! I2C bus hands plain values in and takes plain values back.

pub mod adv;
pub mod keyboard;
