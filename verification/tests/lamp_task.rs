use std::cell::RefCell;
use std::rc::Rc;

use significant_clock::config::Config;
use significant_clock::event::Event;
use significant_clock::lamp::{Lamp, LampState};
use significant_clock::leds::{LampError, Leds, Pacer, PwmChannel};
use significant_clock::pixel::Pixel;

#[derive(Clone, Default)]
struct DutyCell {
    last: Rc<RefCell<Option<u8>>>,
}

struct CellPwm {
    cell: DutyCell,
}

impl PwmChannel for CellPwm {
    fn set_duty_fraction(&mut self, value: u8) -> Result<(), LampError> {
        *self.cell.last.borrow_mut() = Some(value);
        Ok(())
    }
}

struct InstantPacer;

impl Pacer for InstantPacer {
    fn pause_ms(&mut self, _ms: u32) {}
}

fn make_lamp(config: Config) -> (Lamp<CellPwm, InstantPacer>, DutyCell, DutyCell, DutyCell) {
    let (red, green, blue) = (DutyCell::default(), DutyCell::default(), DutyCell::default());
    let leds = Leds::new(
        CellPwm { cell: red.clone() },
        CellPwm { cell: green.clone() },
        CellPwm { cell: blue.clone() },
        InstantPacer,
    );
    let lamp = Lamp::new(leds, config);
    (lamp, red, green, blue)
}

fn bright(r: u8, g: u8, b: u8) -> Config {
    Config { lamp_on: true, lamp_brightness: Pixel { r, g, b }, significant_mode: false }
}

#[test]
fn change_config_syncs_to_the_new_brightness() {
    let (mut lamp, red, green, blue) = make_lamp(Config::default());
    let new_config = bright(70, 80, 90);
    lamp.handle_event(Event::ChangeConfig(new_config));
    assert_eq!(lamp.config(), new_config);
    assert_eq!(lamp.state(), LampState::On);
    assert_eq!(lamp.color(), Pixel { r: 70, g: 80, b: 90 });
    assert_eq!(*red.last.borrow(), Some(70));
    assert_eq!(*green.last.borrow(), Some(80));
    assert_eq!(*blue.last.borrow(), Some(90));
}

#[test]
fn change_config_with_lamp_off_fades_to_black() {
    let (mut lamp, red, _green, _blue) = make_lamp(Config::default());
    let mut new_config = bright(70, 80, 90);
    new_config.lamp_on = false;
    lamp.handle_event(Event::ChangeConfig(new_config));
    assert_eq!(lamp.state(), LampState::Off);
    assert_eq!(lamp.color(), Pixel { r: 0, g: 0, b: 0 });
    assert_eq!(*red.last.borrow(), Some(0));
}

#[test]
fn flash_restores_state_and_color() {
    let (mut lamp, _red, _green, _blue) = make_lamp(bright(10, 20, 30));
    lamp.handle_event(Event::ChangeConfig(bright(10, 20, 30)));
    let color_before = lamp.color();
    let state_before = lamp.state();
    lamp.handle_event(Event::Flash);
    assert_eq!(lamp.color(), color_before);
    assert_eq!(lamp.state(), state_before);
}

#[test]
fn unrelated_events_are_ignored() {
    let (mut lamp, red, _green, _blue) = make_lamp(bright(10, 20, 30));
    lamp.handle_event(Event::ClockSynced);
    lamp.handle_event(Event::ChangeBrightness(5));
    lamp.handle_event(Event::Hide);
    lamp.handle_event(Event::ShowStatic(String::from("hi")));
    assert_eq!(lamp.state(), LampState::Off);
    assert_eq!(*red.last.borrow(), None);
}

#[test]
fn service_reacts_to_a_waiting_event() {
    let (mut lamp, _red, _green, _blue) = make_lamp(Config::default());
    let (tx, rx) = crossbeam_channel::bounded::<Event>(8);
    tx.send(Event::ChangeConfig(bright(1, 2, 3))).unwrap();
    lamp.service(&rx);
    assert_eq!(lamp.config(), bright(1, 2, 3));
    assert_eq!(lamp.state(), LampState::On);
    assert_eq!(lamp.color(), Pixel { r: 1, g: 2, b: 3 });
}

#[test]
fn lamp_never_rests_fading() {
    let (mut lamp, _red, _green, _blue) = make_lamp(Config::default());
    assert_ne!(lamp.state(), LampState::Fading);
    lamp.handle_event(Event::ChangeConfig(bright(5, 5, 5)));
    assert_ne!(lamp.state(), LampState::Fading);
    lamp.handle_event(Event::Flash);
    assert_ne!(lamp.state(), LampState::Fading);
}
