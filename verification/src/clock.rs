//! The render task's decisions: when a clock reading must blink the lamp,
//! and how the screen task reacts to bus events.
//!
//! Reading the wall clock and drawing glyphs are the surrounding task's
//! business; the decisions on the values it reads live here.

use crate::bus;
use crate::config::Config;
use crate::event::Event;
use crate::screen::{DisplayPort, Screen};
use crate::significance::{is_significant, spec_is_significant};
use vstd::prelude::*;

verus! {

/// Publish a `Flash` event without blocking; on a full bus the pulse is
/// dropped, which is tolerable for a blink.
pub fn flash(tx: &crossbeam_channel::Sender<Event>) {
    let _ = bus::try_send_event(tx, Event::Flash);
}

/// One render tick's significance decision: in significant mode, a
/// significant reading publishes one `Flash` pulse.  Returns whether the
/// reading asked for a flash.
pub fn significant_tick(
    tx: &crossbeam_channel::Sender<Event>,
    hour: u8,
    minute: u8,
    second: u8,
    significant_mode: bool,
) -> (flashed: bool)
    requires
        hour < 24,
        minute < 60,
        second < 60,
    ensures
        flashed == (significant_mode && spec_is_significant(hour, minute, second)),
{
    if significant_mode && is_significant(hour, minute, second) {
        flash(tx);
        true
    } else {
        false
    }
}

/// How the screen task's local configuration moves on one event:
/// `ChangeConfig` replaces it, every other event leaves it alone.
pub open spec fn spec_screen_reaction(before: Config, after: Config, event: Event) -> bool {
    match event {
        Event::ChangeConfig(new_config) => after == new_config,
        _ => after == before,
    }
}

/// Apply one bus event to the screen task's state: `ChangeBrightness`
/// rewrites the intensity registers (a transport failure is tolerated),
/// `ChangeConfig` adopts the new configuration, every other event is
/// ignored.  The framebuffer and its snapshot are never touched here.
pub fn apply_screen_event<P: DisplayPort>(
    screen: &mut Screen<P>,
    config: &mut Config,
    event: Event,
)
    requires
        old(screen).wf(),
    ensures
        final(screen).wf(),
        final(screen).spec_config() == old(screen).spec_config(),
        final(screen).frame() == old(screen).frame(),
        final(screen).snapshot() == old(screen).snapshot(),
        spec_screen_reaction(*old(config), *final(config), event),
{
    match event {
        Event::ChangeBrightness(level) => {
            let _ = screen.set_brightness(level);
        },
        Event::ChangeConfig(new_config) => {
            *config = new_config;
        },
        _ => {},
    }
}

/// One non-blocking bus poll of the screen task: react to a waiting event,
/// if any.  Which event was waiting is up to the bus, so only the shape of
/// the reaction is promised: the configuration is untouched or some
/// received event explains it, and the drawing state is never touched.
pub fn screen_service<P: DisplayPort>(
    screen: &mut Screen<P>,
    config: &mut Config,
    rx: &crossbeam_channel::Receiver<Event>,
)
    requires
        old(screen).wf(),
    ensures
        final(screen).wf(),
        final(screen).spec_config() == old(screen).spec_config(),
        final(screen).frame() == old(screen).frame(),
        final(screen).snapshot() == old(screen).snapshot(),
        *final(config) == *old(config) || (exists|event: Event|
            spec_screen_reaction(*old(config), *final(config), event)),
{
    match bus::try_recv_event(rx) {
        Some(event) => {
            let ghost received = event;
            apply_screen_event(screen, config, event);
            proof {
                assert(spec_screen_reaction(*old(config), *config, received));
            }
        },
        None => {},
    }
}

} // verus!
