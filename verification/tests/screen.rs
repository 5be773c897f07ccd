use std::cell::RefCell;
use std::rc::Rc;

use significant_clock::screen::{
    DecodeMode, DisplayPort, Screen, ScreenBuilder, ScreenConfig, ScreenError, Segment,
};

#[derive(Clone, Debug, PartialEq, Eq)]
enum PortCall {
    PowerOn,
    DecodeMode(usize),
    ClearDisplay(usize),
    Intensity(usize, u8),
    RawByte(usize, u8, u8),
}

#[derive(Clone, Default)]
struct PortLog {
    calls: Rc<RefCell<Vec<PortCall>>>,
    fail_raw_writes: Rc<RefCell<bool>>,
    fail_intensity_on_chip: Rc<RefCell<Option<usize>>>,
}

impl PortLog {
    fn raw_writes(&self) -> Vec<(usize, u8, u8)> {
        self.calls
            .borrow()
            .iter()
            .filter_map(|c| match c {
                PortCall::RawByte(chip, row, byte) => Some((*chip, *row, *byte)),
                _ => None,
            })
            .collect()
    }

    fn intensity_writes(&self) -> Vec<(usize, u8)> {
        self.calls
            .borrow()
            .iter()
            .filter_map(|c| match c {
                PortCall::Intensity(chip, level) => Some((*chip, *level)),
                _ => None,
            })
            .collect()
    }
}

struct RecordingPort {
    log: PortLog,
}

impl DisplayPort for RecordingPort {
    fn power_on(&mut self) -> Result<(), ScreenError> {
        self.log.calls.borrow_mut().push(PortCall::PowerOn);
        Ok(())
    }

    fn set_decode_mode(&mut self, chip: usize, _mode: DecodeMode) -> Result<(), ScreenError> {
        self.log.calls.borrow_mut().push(PortCall::DecodeMode(chip));
        Ok(())
    }

    fn clear_display(&mut self, chip: usize) -> Result<(), ScreenError> {
        self.log.calls.borrow_mut().push(PortCall::ClearDisplay(chip));
        Ok(())
    }

    fn set_intensity(&mut self, chip: usize, intensity: u8) -> Result<(), ScreenError> {
        self.log.calls.borrow_mut().push(PortCall::Intensity(chip, intensity));
        if *self.log.fail_intensity_on_chip.borrow() == Some(chip) {
            Err(ScreenError)
        } else {
            Ok(())
        }
    }

    fn write_raw_byte(&mut self, chip: usize, row: u8, byte: u8) -> Result<(), ScreenError> {
        if *self.log.fail_raw_writes.borrow() {
            return Err(ScreenError);
        }
        self.log.calls.borrow_mut().push(PortCall::RawByte(chip, row, byte));
        Ok(())
    }
}

/// The device's topology: eight chips, all mounted rotated, chained in
/// reverse order, four chips per logical row.
fn device_config() -> ScreenConfig {
    ScreenConfig {
        n_displays: 8,
        cols: 32,
        rows: 16,
        segments: vec![
            Segment::inverted(7),
            Segment::inverted(6),
            Segment::inverted(5),
            Segment::inverted(4),
            Segment::inverted(3),
            Segment::inverted(2),
            Segment::inverted(1),
            Segment::inverted(0),
        ],
        row_length: 4,
    }
}

fn build_screen(log: &PortLog) -> Screen<RecordingPort> {
    ScreenBuilder::new(device_config()).build(RecordingPort { log: log.clone() }).unwrap()
}

#[test]
fn config_check_accepts_the_device_topology() {
    assert!(device_config().check());
}

#[test]
fn config_check_rejects_missing_segments() {
    let mut config = device_config();
    config.segments.pop();
    assert!(!config.check());
}

#[test]
fn config_check_rejects_out_of_chain_segment() {
    let mut config = device_config();
    config.segments[0] = Segment::inverted(8);
    assert!(!config.check());
}

#[test]
fn build_initializes_every_chip() {
    let log = PortLog::default();
    let _screen = build_screen(&log);
    let calls = log.calls.borrow();
    assert_eq!(calls[0], PortCall::PowerOn);
    for chip in 0..8usize {
        assert!(calls.contains(&PortCall::DecodeMode(chip)));
        assert!(calls.contains(&PortCall::ClearDisplay(chip)));
        assert!(calls.contains(&PortCall::Intensity(chip, 0)));
    }
}

#[test]
fn blit_reaches_the_mirrored_chip() {
    let log = PortLog::default();
    let mut screen = build_screen(&log);
    // (0,0) falls in segment 0, which is chip 7 mounted rotated: both axes
    // mirror to (7,7), so byte 63 carries the LSB of its row 8.
    screen.blit(0, 0, true);
    assert!(screen.pixel_at(0, 0));
    let written = screen.flush().unwrap();
    assert_eq!(written, 1);
    assert_eq!(log.raw_writes(), vec![(7, 8, 0x01)]);
}

#[test]
fn blit_reads_back_everywhere() {
    let log = PortLog::default();
    let mut screen = build_screen(&log);
    for x in [0u32, 1, 7, 8, 13, 31] {
        for y in [0u32, 1, 7, 8, 15] {
            screen.blit(x, y, true);
            assert!(screen.pixel_at(x, y), "pixel ({x},{y}) did not read back");
            screen.blit(x, y, false);
            assert!(!screen.pixel_at(x, y), "pixel ({x},{y}) did not clear");
        }
    }
}

#[test]
fn out_of_bounds_blit_changes_nothing() {
    let log = PortLog::default();
    let mut screen = build_screen(&log);
    screen.flush().unwrap();
    screen.blit(32, 0, true);
    screen.blit(0, 16, true);
    screen.blit(1000, 1000, true);
    assert_eq!(screen.flush().unwrap(), 0);
    assert_eq!(log.raw_writes(), vec![]);
}

#[test]
fn second_flush_writes_nothing() {
    let log = PortLog::default();
    let mut screen = build_screen(&log);
    screen.blit(3, 4, true);
    screen.blit(20, 11, true);
    let first = screen.flush().unwrap();
    assert_eq!(first, 2);
    let before = log.raw_writes().len();
    let second = screen.flush().unwrap();
    assert_eq!(second, 0);
    assert_eq!(log.raw_writes().len(), before);
}

#[test]
fn flush_sends_only_the_differing_bytes_in_order() {
    let log = PortLog::default();
    let mut screen = build_screen(&log);
    // Light the whole first logical row once.
    for x in 0..32u32 {
        screen.blit(x, 0, true);
    }
    screen.flush().unwrap();
    log.calls.borrow_mut().clear();
    // One more pixel in an untouched region: exactly one byte differs.
    screen.blit(0, 15, true);
    assert_eq!(screen.flush().unwrap(), 1);
    let writes = log.raw_writes();
    assert_eq!(writes.len(), 1);
    // Ascending (chip, row) order over a bigger change.
    screen.clear();
    screen.blit(0, 0, true);
    screen.blit(0, 15, true);
    log.calls.borrow_mut().clear();
    screen.flush().unwrap();
    let writes = log.raw_writes();
    let mut sorted = writes.clone();
    sorted.sort();
    assert_eq!(writes, sorted);
}

#[test]
fn failed_flush_still_advances_the_snapshot() {
    let log = PortLog::default();
    let mut screen = build_screen(&log);
    screen.blit(0, 0, true);
    *log.fail_raw_writes.borrow_mut() = true;
    assert!(screen.flush().is_err());
    // The snapshot advanced despite the failure: nothing is retried.
    *log.fail_raw_writes.borrow_mut() = false;
    assert_eq!(screen.flush().unwrap(), 0);
    assert_eq!(log.raw_writes(), vec![]);
}

#[test]
fn set_brightness_reaches_every_chip() {
    let log = PortLog::default();
    let mut screen = build_screen(&log);
    log.calls.borrow_mut().clear();
    screen.set_brightness(5).unwrap();
    let writes = log.intensity_writes();
    assert_eq!(writes, (0..8usize).map(|chip| (chip, 5u8)).collect::<Vec<_>>());
}

#[test]
fn set_brightness_attempts_remaining_chips_after_a_failure() {
    let log = PortLog::default();
    let mut screen = build_screen(&log);
    log.calls.borrow_mut().clear();
    *log.fail_intensity_on_chip.borrow_mut() = Some(2);
    assert!(screen.set_brightness(9).is_err());
    let writes = log.intensity_writes();
    assert_eq!(writes.len(), 8);
}

#[test]
fn clear_blanks_the_framebuffer() {
    let log = PortLog::default();
    let mut screen = build_screen(&log);
    screen.blit(5, 5, true);
    screen.clear();
    assert!(!screen.pixel_at(5, 5));
}
