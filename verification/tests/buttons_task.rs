use std::cell::Cell;
use std::rc::Rc;

use significant_clock::buttons::{Actions, ButtonAction, ButtonPin, Buttons};
use significant_clock::config::Config;
use significant_clock::event::Event;
use significant_clock::pixel::Pixel;

#[derive(Clone, Default)]
struct Line {
    high: Rc<Cell<bool>>,
}

struct FakePin {
    line: Line,
}

impl ButtonPin for FakePin {
    fn is_high(&mut self) -> bool {
        self.line.high.get()
    }
}

fn make_buttons(config: Config) -> (Buttons<FakePin>, Line, Line) {
    let (left, right) = (Line::default(), Line::default());
    let buttons = Buttons::new(
        FakePin { line: left.clone() },
        FakePin { line: right.clone() },
        config,
    );
    (buttons, left, right)
}

fn brightness(buttons: &Buttons<FakePin>) -> Pixel {
    buttons.config().lamp_brightness
}

#[test]
fn left_release_raises_brightness_once() {
    let (mut buttons, left, _right) = make_buttons(Config::default());
    let (tx, rx) = crossbeam_channel::bounded::<Event>(8);
    // Held high for several polls: armed, but nothing fires yet.
    left.high.set(true);
    for _ in 0..5 {
        buttons.poll(&tx);
    }
    assert_eq!(brightness(&buttons), Pixel { r: 25, g: 25, b: 25 });
    assert!(rx.try_recv().is_err());
    // The release fires exactly one action, published twice.
    left.high.set(false);
    buttons.poll(&tx);
    assert_eq!(brightness(&buttons), Pixel { r: 50, g: 50, b: 50 });
    let expected = buttons.config();
    for _ in 0..2 {
        match rx.try_recv().unwrap() {
            Event::ChangeConfig(config) => assert_eq!(config, expected),
            other => panic!("unexpected event {other:?}"),
        }
    }
    assert!(rx.try_recv().is_err());
    // Staying low fires nothing further.
    buttons.poll(&tx);
    assert_eq!(brightness(&buttons), Pixel { r: 50, g: 50, b: 50 });
    assert!(rx.try_recv().is_err());
}

#[test]
fn right_release_lowers_brightness_saturating() {
    let (mut buttons, _left, right) = make_buttons(Config::default());
    let (tx, rx) = crossbeam_channel::bounded::<Event>(16);
    for _ in 0..3 {
        right.high.set(true);
        buttons.poll(&tx);
        right.high.set(false);
        buttons.poll(&tx);
    }
    // 25 - 3 * 25 saturates at zero.
    assert_eq!(brightness(&buttons), Pixel { r: 0, g: 0, b: 0 });
    assert_eq!(rx.try_iter().count(), 6);
}

#[test]
fn both_buttons_act_in_one_poll() {
    let (mut buttons, left, right) = make_buttons(Config::default());
    let (tx, _rx) = crossbeam_channel::bounded::<Event>(8);
    left.high.set(true);
    right.high.set(true);
    buttons.poll(&tx);
    left.high.set(false);
    right.high.set(false);
    buttons.poll(&tx);
    // Up then down: back where it started.
    assert_eq!(brightness(&buttons), Pixel { r: 25, g: 25, b: 25 });
}

#[test]
fn poll_levels_is_the_same_machine() {
    let (mut buttons, _left, _right) = make_buttons(Config::default());
    let (tx, rx) = crossbeam_channel::bounded::<Event>(8);
    buttons.poll_levels(true, false, &tx);
    buttons.poll_levels(false, false, &tx);
    assert_eq!(brightness(&buttons), Pixel { r: 50, g: 50, b: 50 });
    assert_eq!(rx.try_iter().count(), 2);
}

#[test]
fn default_actions_mirror_short_presses() {
    let actions = Actions::default();
    assert_eq!(actions.short_left, ButtonAction::Nothing);
    assert_eq!(actions.long_left, actions.short_left);
    assert_eq!(actions.long_right, actions.short_right);
}
