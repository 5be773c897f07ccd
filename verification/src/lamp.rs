//! The ambient lamp controller: a fade/flash engine driven by bus events.
//!
//! The lamp rests in `Off` or `On`; `Fading` exists only while a fade is in
//! flight and is never a resting state.  The controller reacts to exactly
//! two events: `Flash` blinks the lamp and restores the previous color, and
//! `ChangeConfig` adopts the new configuration and fades toward what it
//! prescribes.  Every other event is ignored.

use crate::bus;
use crate::config::Config;
use crate::event::Event;
use crate::leds::{on_fade_path, LampError, Leds, Pacer, PwmChannel};
use crate::pixel::Pixel;
use vstd::prelude::*;

verus! {

/// The lamp's logical states.
#[derive(Clone, Copy, Debug, PartialEq, Eq, Structural)]
pub enum LampState {
    Off,
    Fading,
    On,
}

/// The state the configuration prescribes for the lamp at rest.
pub open spec fn spec_synced_state(config: Config) -> LampState {
    if config.lamp_on {
        LampState::On
    } else {
        LampState::Off
    }
}

/// The color the configuration prescribes for the lamp at rest.
pub open spec fn spec_synced_color(config: Config) -> Pixel {
    if config.lamp_on {
        config.lamp_brightness
    } else {
        Pixel::spec_black()
    }
}

/// What handling one event leaves behind: `ChangeConfig` is adopted and
/// the lamp rests in the state it prescribes, `Flash` keeps configuration
/// and resting state, every other event leaves the lamp untouched.
pub open spec fn spec_lamp_reaction<T: PwmChannel, D: Pacer>(
    before: Lamp<T, D>,
    after: Lamp<T, D>,
    event: Event,
) -> bool {
    match event {
        Event::ChangeConfig(config) => after.spec_config() == config && after.spec_state()
            == spec_synced_state(config),
        Event::Flash => after.spec_config() == before.spec_config() && after.spec_state()
            == before.spec_state(),
        _ => after == before,
    }
}

pub struct Lamp<T: PwmChannel, D: Pacer> {
    leds: Leds<T, D>,
    config: Config,
    state: LampState,
}

impl<T: PwmChannel, D: Pacer> Lamp<T, D> {
    pub closed spec fn spec_config(self) -> Config {
        self.config
    }

    pub closed spec fn spec_state(self) -> LampState {
        self.state
    }

    /// The color currently applied to the LED driver.
    pub closed spec fn spec_color(self) -> Pixel {
        self.leds.spec_current()
    }

    /// The configuration the lamp currently follows.
    pub fn config(&self) -> (config: Config)
        ensures
            config == self.spec_config(),
    {
        self.config
    }

    /// The lamp's resting state.
    pub fn state(&self) -> (state: LampState)
        ensures
            state == self.spec_state(),
    {
        self.state
    }

    /// The color currently applied to the LED driver.
    pub fn color(&self) -> (color: Pixel)
        ensures
            color == self.spec_color(),
    {
        self.leds.current()
    }

    pub fn new(leds: Leds<T, D>, config: Config) -> (result: Self)
        ensures
            result.spec_config() == config,
            result.spec_state() == LampState::Off,
    {
        Lamp { leds, config, state: LampState::Off }
    }

    /// Fade toward the configured brightness.
    pub fn on(&mut self) -> (result: Result<(), LampError>)
        ensures
            final(self).spec_config() == old(self).spec_config(),
            final(self).spec_state() == LampState::On,
            result is Ok ==> final(self).spec_color() == old(self).spec_config().lamp_brightness,
            result is Err ==> on_fade_path(
                final(self).spec_color(),
                old(self).spec_color(),
                old(self).spec_config().lamp_brightness,
            ),
    {
        self.state = LampState::Fading;
        let result = self.leds.fade(self.config.lamp_brightness);
        self.state = LampState::On;
        result
    }

    /// Fade toward black.
    pub fn off(&mut self) -> (result: Result<(), LampError>)
        ensures
            final(self).spec_config() == old(self).spec_config(),
            final(self).spec_state() == LampState::Off,
            result is Ok ==> final(self).spec_color() == Pixel::spec_black(),
            result is Err ==> on_fade_path(
                final(self).spec_color(),
                old(self).spec_color(),
                Pixel::spec_black(),
            ),
    {
        self.state = LampState::Fading;
        let result = self.leds.off();
        self.state = LampState::Off;
        result
    }

    /// Fade to whatever the configuration prescribes: the configured
    /// brightness when the lamp is on, black when it is off.
    pub fn sync(&mut self) -> (result: Result<(), LampError>)
        ensures
            final(self).spec_config() == old(self).spec_config(),
            final(self).spec_state() == spec_synced_state(old(self).spec_config()),
            result is Ok ==> final(self).spec_color() == spec_synced_color(
                old(self).spec_config(),
            ),
            result is Err ==> on_fade_path(
                final(self).spec_color(),
                old(self).spec_color(),
                spec_synced_color(old(self).spec_config()),
            ),
    {
        if self.config.lamp_on {
            self.on()
        } else {
            self.off()
        }
    }

    /// Remember the current color, blink off and on twice, then fade back:
    /// the "significant time" alert, also triggered manually.
    pub fn flash(&mut self) -> (result: Result<(), LampError>)
        ensures
            final(self).spec_config() == old(self).spec_config(),
            final(self).spec_state() == old(self).spec_state(),
            result is Ok ==> final(self).spec_color() == old(self).spec_color(),
    {
        let resting = self.state;
        self.state = LampState::Fading;
        let result = self.leds.flash();
        self.state = resting;
        result
    }

    /// React to one event: `Flash` blinks the lamp, `ChangeConfig` adopts
    /// the new configuration and fades toward what it prescribes, every
    /// other event leaves the lamp untouched.  Transport errors are
    /// tolerated: the next event starts over from wherever the color is.
    pub fn handle_event(&mut self, event: Event)
        requires
            old(self).spec_state() != LampState::Fading,
        ensures
            final(self).spec_state() != LampState::Fading,
            spec_lamp_reaction(*old(self), *final(self), event),
    {
        match event {
            Event::Flash => {
                let _ = self.flash();
            },
            Event::ChangeConfig(config) => {
                self.config = config;
                let _ = self.sync();
            },
            _ => {},
        }
    }

    /// Block for one event on this consumer's bus handle and react to it.
    /// A closed bus leaves the lamp untouched; otherwise some received
    /// event explains the new state.
    pub fn service(&mut self, rx: &crossbeam_channel::Receiver<Event>)
        requires
            old(self).spec_state() != LampState::Fading,
        ensures
            final(self).spec_state() != LampState::Fading,
            *final(self) == *old(self) || (exists|event: Event|
                spec_lamp_reaction(*old(self), *final(self), event)),
    {
        match bus::recv_event(rx) {
            Some(event) => {
                let ghost received = event;
                self.handle_event(event);
                proof {
                    assert(spec_lamp_reaction(*old(self), *self, received));
                }
            },
            None => {},
        }
    }
}

} // verus!
