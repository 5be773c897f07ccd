//! The "significant time" detector: a pure function of a clock reading.
//!
//! Let `d0..d5` be the six decimal digits of the zero-padded `HHMMSS`
//! rendering of the reading, and `diff_i = d(i+1) - d(i)`.  A reading is
//! significant iff one of three patterns holds:
//!
//! - repdigit: `hour == minute == second`;
//! - mirror: `diff_0 == -diff_4` and `diff_1 == -diff_3`, and in addition
//!   the digit pairs themselves match up (`d0 == d3 && d2 == d5`, or
//!   `d0 == d5 && d2 == d3`) — the extra clause rejects readings that solve
//!   the difference equations by coincidence without looking palindromic;
//! - ascending run: every `diff_i` equals 1.

use vstd::prelude::*;

verus! {

/// The six decimal digits of the zero-padded `HHMMSS` rendering.
pub open spec fn spec_digits(hour: u8, minute: u8, second: u8) -> Seq<int> {
    seq![
        hour as int / 10,
        hour as int % 10,
        minute as int / 10,
        minute as int % 10,
        second as int / 10,
        second as int % 10,
    ]
}

/// All three time fields hold the same number, as in 12:12:12.
pub open spec fn spec_repdigit(hour: u8, minute: u8, second: u8) -> bool {
    hour == minute && minute == second
}

/// The outer and inner digit differences cancel and the matching digits
/// agree, as in 11:22:11.
pub open spec fn spec_mirror(hour: u8, minute: u8, second: u8) -> bool {
    let d = spec_digits(hour, minute, second);
    d[1] - d[0] == -(d[5] - d[4]) && d[2] - d[1] == -(d[4] - d[3]) && ((d[0] == d[3] && d[2]
        == d[5]) || (d[0] == d[5] && d[2] == d[3]))
}

/// Every digit is one more than the digit before it, as in 01:23:45.
pub open spec fn spec_ascending_run(hour: u8, minute: u8, second: u8) -> bool {
    let d = spec_digits(hour, minute, second);
    d[1] - d[0] == 1 && d[2] - d[1] == 1 && d[3] - d[2] == 1 && d[4] - d[3] == 1 && d[5] - d[4]
        == 1
}

/// A reading is significant iff it is a repdigit, a mirror, or an
/// ascending run.
pub open spec fn spec_is_significant(hour: u8, minute: u8, second: u8) -> bool {
    spec_repdigit(hour, minute, second) || spec_mirror(hour, minute, second) || spec_ascending_run(
        hour,
        minute,
        second,
    )
}

/// Decide whether a clock reading is significant.
pub fn is_significant(hour: u8, minute: u8, second: u8) -> (result: bool)
    requires
        hour < 24,
        minute < 60,
        second < 60,
    ensures
        result == spec_is_significant(hour, minute, second),
{
    let d0: i16 = (hour / 10) as i16;
    let d1: i16 = (hour % 10) as i16;
    let d2: i16 = (minute / 10) as i16;
    let d3: i16 = (minute % 10) as i16;
    let d4: i16 = (second / 10) as i16;
    let d5: i16 = (second % 10) as i16;

    let repdigit = hour == minute && minute == second;
    let mirror = d1 - d0 == -(d5 - d4) && d2 - d1 == -(d4 - d3) && ((d0 == d3 && d2 == d5) || (d0
        == d5 && d2 == d3));
    let ascending = d1 - d0 == 1 && d2 - d1 == 1 && d3 - d2 == 1 && d4 - d3 == 1 && d5 - d4 == 1;

    repdigit || mirror || ascending
}

} // verus!
