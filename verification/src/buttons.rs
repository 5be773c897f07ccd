//! The two-button input task: a non-blocking debounce state machine.
//!
//! A press is recognized on the release edge: an input that reads high arms
//! the button, and the next low sample fires the action, so each physical
//! press-and-release acts exactly once however long it is held and however
//! noisily it settles.  The left button raises the lamp brightness by a
//! fixed step, the right button lowers it; each accepted change is
//! published as a `ChangeConfig` event twice in immediate succession, a
//! redundancy measure against the bus delivering to a single consumer.

use crate::bus;
use crate::config::Config;
use crate::event::Event;
use crate::pixel::Pixel;
use vstd::prelude::*;

verus! {

/// What one recognized press does.
#[derive(Clone, Copy, Debug, PartialEq, Eq, Structural)]
pub enum ButtonAction {
    Nothing,
    BrightnessUp,
    BrightnessDown,
}

/// The action bound to each gesture.  A long press defaults to the same
/// action as the matching short press.
#[derive(Clone, Copy, Debug, PartialEq, Eq, Structural)]
pub struct Actions {
    pub short_left: ButtonAction,
    pub long_left: ButtonAction,
    pub short_right: ButtonAction,
    pub long_right: ButtonAction,
}

impl Default for Actions {
    fn default() -> (result: Actions)
        ensures
            result.short_left == ButtonAction::Nothing,
            result.short_right == ButtonAction::Nothing,
            result.long_left == result.short_left,
            result.long_right == result.short_right,
    {
        Actions {
            short_left: ButtonAction::Nothing,
            long_left: ButtonAction::Nothing,
            short_right: ButtonAction::Nothing,
            long_right: ButtonAction::Nothing,
        }
    }
}

/// One digital input line, implemented by the hardware layer; `true` when
/// the line reads high.
pub trait ButtonPin {
    fn is_high(&mut self) -> bool;
}

/// Debounce state of one input: waiting for it to go high, or seen high
/// and waiting for the release.
#[derive(Clone, Copy, Debug, PartialEq, Eq, Structural)]
pub enum PressState {
    Idle,
    Pressed,
}

/// The brightness change of one recognized press, per channel.
pub open spec fn spec_step() -> Pixel {
    Pixel { r: 25, g: 25, b: 25 }
}

/// One debounce transition: the new state, and whether the action fires on
/// this sample (exactly on the release edge).
pub open spec fn spec_debounce(state: PressState, high: bool) -> (PressState, bool) {
    match state {
        PressState::Idle => if high {
            (PressState::Pressed, false)
        } else {
            (PressState::Idle, false)
        },
        PressState::Pressed => if high {
            (PressState::Pressed, false)
        } else {
            (PressState::Idle, true)
        },
    }
}

/// The configuration after the actions of one sample: a left release
/// brightens by the fixed step, a right release darkens, both saturating.
pub open spec fn spec_apply_actions(config: Config, up: bool, down: bool) -> Config {
    let brighter = if up {
        Config { lamp_brightness: config.lamp_brightness.spec_safe_add(spec_step()), ..config }
    } else {
        config
    };
    if down {
        Config {
            lamp_brightness: brighter.lamp_brightness.spec_safe_sub(spec_step()),
            ..brighter
        }
    } else {
        brighter
    }
}

/// The two-button poller: the pins it samples, the debounce state of each,
/// and the configuration snapshot it amends and republishes.
pub struct Buttons<T: ButtonPin> {
    left_button: T,
    right_button: T,
    left: PressState,
    right: PressState,
    config: Config,
}

impl<T: ButtonPin> Buttons<T> {
    pub closed spec fn spec_left(self) -> PressState {
        self.left
    }

    pub closed spec fn spec_right(self) -> PressState {
        self.right
    }

    pub closed spec fn spec_config(self) -> Config {
        self.config
    }

    /// The configuration snapshot the poller currently amends.
    pub fn config(&self) -> (config: Config)
        ensures
            config == self.spec_config(),
    {
        self.config
    }

    pub fn new(left_button: T, right_button: T, config: Config) -> (result: Self)
        ensures
            result.spec_left() == PressState::Idle,
            result.spec_right() == PressState::Idle,
            result.spec_config() == config,
    {
        Buttons { left_button, right_button, left: PressState::Idle, right: PressState::Idle, config }
    }

    /// Advance both debounce machines by one sampled level pair.  On a
    /// release edge the configuration is amended and published twice as a
    /// `ChangeConfig` event; a full bus drops nothing here because the
    /// sends block, but a bus with no consumers left drops them silently.
    pub fn poll_levels(
        &mut self,
        left_high: bool,
        right_high: bool,
        tx: &crossbeam_channel::Sender<Event>,
    )
        ensures
            final(self).spec_left() == spec_debounce(old(self).spec_left(), left_high).0,
            final(self).spec_right() == spec_debounce(old(self).spec_right(), right_high).0,
            final(self).spec_config() == spec_apply_actions(
                old(self).spec_config(),
                spec_debounce(old(self).spec_left(), left_high).1,
                spec_debounce(old(self).spec_right(), right_high).1,
            ),
    {
        let step = Pixel { r: 25, g: 25, b: 25 };
        let left_fires = match self.left {
            PressState::Idle => {
                if left_high {
                    self.left = PressState::Pressed;
                }
                false
            },
            PressState::Pressed => {
                if left_high {
                    false
                } else {
                    self.left = PressState::Idle;
                    true
                }
            },
        };
        if left_fires {
            self.config.lamp_brightness = self.config.lamp_brightness.safe_add(step);
            let _ = bus::send_event(tx, Event::ChangeConfig(self.config));
            let _ = bus::send_event(tx, Event::ChangeConfig(self.config));
        }
        let right_fires = match self.right {
            PressState::Idle => {
                if right_high {
                    self.right = PressState::Pressed;
                }
                false
            },
            PressState::Pressed => {
                if right_high {
                    false
                } else {
                    self.right = PressState::Idle;
                    true
                }
            },
        };
        if right_fires {
            self.config.lamp_brightness = self.config.lamp_brightness.safe_sub(step);
            let _ = bus::send_event(tx, Event::ChangeConfig(self.config));
            let _ = bus::send_event(tx, Event::ChangeConfig(self.config));
        }
    }

    /// Sample both pins once and advance the debounce machines.  What the
    /// pins read is up to the hardware, so only the shape of the transition
    /// is promised: there is a sampled level pair that explains the new
    /// state and configuration.
    pub fn poll(&mut self, tx: &crossbeam_channel::Sender<Event>)
        ensures
            exists|left_high: bool, right_high: bool|
                final(self).spec_left() == spec_debounce(old(self).spec_left(), left_high).0
                    && final(self).spec_right() == spec_debounce(
                    old(self).spec_right(),
                    right_high,
                ).0 && final(self).spec_config() == spec_apply_actions(
                    old(self).spec_config(),
                    spec_debounce(old(self).spec_left(), left_high).1,
                    spec_debounce(old(self).spec_right(), right_high).1,
                ),
    {
        let left_high = self.left_button.is_high();
        let right_high = self.right_button.is_high();
        self.poll_levels(left_high, right_high, tx);
        proof {
            assert(self.spec_left() == spec_debounce(old(self).spec_left(), left_high).0);
            assert(self.spec_right() == spec_debounce(old(self).spec_right(), right_high).0);
            assert(self.spec_config() == spec_apply_actions(
                old(self).spec_config(),
                spec_debounce(old(self).spec_left(), left_high).1,
                spec_debounce(old(self).spec_right(), right_high).1,
            ));
        }
    }
}

} // verus!
