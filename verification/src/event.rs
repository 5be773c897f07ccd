//! The messages the peripheral tasks exchange over the event bus.

use crate::config::Config;
use vstd::prelude::*;

verus! {

/// Whether the clock flags significant readings.
#[derive(Clone, Copy, Debug)]
pub enum SignificanceMode {
    On,
    Off,
}

/// One message on the event bus.  Immutable once constructed, cheaply
/// copied, and carrying no identity beyond its payload.
#[derive(Clone, Debug)]
pub enum Event {
    /// The access point came up.
    APActivated,
    /// The access point went down.
    APDisactivated,
    /// Network association is in progress.
    NetworkConnecting,
    /// Network association succeeded.
    NetworkConnected,
    /// The wall clock was synchronized.
    ClockSynced,
    /// Set the display intensity.
    ChangeBrightness(u8),
    /// Show a fixed text instead of the time.
    ShowStatic(String),
    /// Blank the display.
    Hide,
    /// Show the display again.
    Show,
    /// Adopt and persist a new configuration snapshot.
    ChangeConfig(Config),
    /// Blink the lamp.
    Flash,
}

} // verus!
