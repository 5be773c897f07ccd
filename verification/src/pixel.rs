//! The 8-bit-per-channel color value used by the lamp and the configuration.

use vstd::prelude::*;

verus! {

/// One RGB color value with three independent 8-bit channels.
#[derive(Clone, Copy, Debug, PartialEq, Eq, Structural)]
pub struct Pixel {
    pub r: u8,
    pub g: u8,
    pub b: u8,
}

/// Addition of two channel values that stops at 255 instead of wrapping.
pub open spec fn sat_add(a: u8, b: u8) -> u8 {
    if a + b > 255 {
        255u8
    } else {
        (a + b) as u8
    }
}

/// Subtraction of two channel values that stops at 0 instead of wrapping.
pub open spec fn sat_sub(a: u8, b: u8) -> u8 {
    if a >= b {
        (a - b) as u8
    } else {
        0u8
    }
}

impl Pixel {
    /// The color with every channel dark.
    pub open spec fn spec_black() -> Pixel {
        Pixel { r: 0, g: 0, b: 0 }
    }

    pub fn black() -> (result: Pixel)
        ensures
            result == Pixel::spec_black(),
    {
        Pixel { r: 0, g: 0, b: 0 }
    }

    /// Channel-wise saturating addition.
    pub open spec fn spec_safe_add(self, other: Pixel) -> Pixel {
        Pixel { r: sat_add(self.r, other.r), g: sat_add(self.g, other.g), b: sat_add(self.b, other.b) }
    }

    /// Channel-wise saturating subtraction.
    pub open spec fn spec_safe_sub(self, other: Pixel) -> Pixel {
        Pixel { r: sat_sub(self.r, other.r), g: sat_sub(self.g, other.g), b: sat_sub(self.b, other.b) }
    }

    /// Brighten every channel by the matching channel of `other`,
    /// saturating at 255.
    pub fn safe_add(self, other: Pixel) -> (result: Pixel)
        ensures
            result == self.spec_safe_add(other),
    {
        Pixel {
            r: sat_add_exec(self.r, other.r),
            g: sat_add_exec(self.g, other.g),
            b: sat_add_exec(self.b, other.b),
        }
    }

    /// Darken every channel by the matching channel of `other`,
    /// saturating at 0.
    pub fn safe_sub(self, other: Pixel) -> (result: Pixel)
        ensures
            result == self.spec_safe_sub(other),
    {
        Pixel {
            r: sat_sub_exec(self.r, other.r),
            g: sat_sub_exec(self.g, other.g),
            b: sat_sub_exec(self.b, other.b),
        }
    }
}

fn sat_add_exec(a: u8, b: u8) -> (result: u8)
    ensures
        result == sat_add(a, b),
{
    let sum: u16 = a as u16 + b as u16;
    if sum > 255 {
        255
    } else {
        sum as u8
    }
}

fn sat_sub_exec(a: u8, b: u8) -> (result: u8)
    ensures
        result == sat_sub(a, b),
{
    if a >= b {
        a - b
    } else {
        0
    }
}

/// Saturating channel arithmetic never leaves the 0..=255 range, however
/// often it is applied: adding saturates at 255, subtracting at 0, and each
/// channel of a result is again an ordinary 8-bit channel value.
pub proof fn lemma_pixel_arithmetic_bounded(a: Pixel, b: Pixel)
    ensures
        a.spec_safe_add(b).r == if a.r + b.r > 255 { 255int } else { a.r + b.r },
        a.spec_safe_add(b).g == if a.g + b.g > 255 { 255int } else { a.g + b.g },
        a.spec_safe_add(b).b == if a.b + b.b > 255 { 255int } else { a.b + b.b },
        a.spec_safe_sub(b).r == if a.r >= b.r { a.r - b.r } else { 0int },
        a.spec_safe_sub(b).g == if a.g >= b.g { a.g - b.g } else { 0int },
        a.spec_safe_sub(b).b == if a.b >= b.b { a.b - b.b } else { 0int },
        0 <= a.spec_safe_add(b).r <= 255,
        0 <= a.spec_safe_add(b).g <= 255,
        0 <= a.spec_safe_add(b).b <= 255,
        0 <= a.spec_safe_sub(b).r <= 255,
        0 <= a.spec_safe_sub(b).g <= 255,
        0 <= a.spec_safe_sub(b).b <= 255,
{
}

} // verus!
