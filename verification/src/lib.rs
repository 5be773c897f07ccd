//! Firmware core for a multi-chip LED-matrix clock.
//!
//! The crate holds the verified logic of the device: the display compositor
//! that maps a logical drawing surface onto a chain of 8x8 driver chips and
//! minimizes hardware writes by frame diffing, the "significant time"
//! detector, the lamp fade engine, the persisted configuration store, and the
//! event types that the peripheral tasks exchange.  Hardware transports,
//! timing and file I/O reach the library only through small port traits, so
//! that every rule and every algorithm here carries a proved contract.

pub mod bus;
mod bytes;
pub mod buttons;
pub mod clock;
pub mod codec;
pub mod config;
pub mod event;
pub mod lamp;
pub mod leds;
pub mod pixel;
pub mod screen;
pub mod significance;
