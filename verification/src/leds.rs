//! The RGB LED driver: three PWM output channels and a fixed-length linear
//! fade between colors.
//!
//! A fade always takes exactly 50 interpolation steps, one per millisecond
//! tick, and then snaps to the exact target color, so its duration is the
//! same whatever the per-channel distance.  Hardware is
//! reached only through the [`PwmChannel`] and [`Pacer`] ports.

use crate::pixel::Pixel;
use vstd::prelude::*;

verus! {

/// The transport error reported when a PWM write fails.
#[derive(Clone, Copy, Debug, PartialEq, Eq, Structural)]
pub struct LampError;

/// One PWM output channel, implemented by the hardware layer.  A write may
/// fail with a transport error; nothing is promised about the hardware's
/// state.
pub trait PwmChannel {
    /// Set the duty cycle to `value` / 255.
    fn set_duty_fraction(&mut self, value: u8) -> Result<(), LampError>;
}

/// A source of fixed-length pauses between fade steps, implemented by the
/// hardware layer.
pub trait Pacer {
    fn pause_ms(&mut self, ms: u32);
}

/// Linear interpolation of one channel: the value after `step` of 50 steps
/// from `from` toward `to`, rounded toward `from`.
pub open spec fn spec_lerp(from: u8, to: u8, step: int) -> int {
    if to >= from {
        from + (to - from) * step / 50
    } else {
        from - (from - to) * step / 50
    }
}

/// Channel-wise linear interpolation of a color.
pub open spec fn spec_lerp_pixel(from: Pixel, to: Pixel, step: int) -> Pixel {
    Pixel {
        r: spec_lerp(from.r, to.r, step) as u8,
        g: spec_lerp(from.g, to.g, step) as u8,
        b: spec_lerp(from.b, to.b, step) as u8,
    }
}

/// The 50 interpolation colors a fade passes through, in order.
pub open spec fn spec_fade_path(from: Pixel, to: Pixel) -> Seq<Pixel> {
    Seq::new(50, |step: int| spec_lerp_pixel(from, to, step))
}

/// Where a fade from `from` toward `target` can leave the color: at the
/// target itself, or at one of the 50 interpolation steps if a transport
/// error cut the fade short.
pub open spec fn on_fade_path(color: Pixel, from: Pixel, target: Pixel) -> bool {
    color == target || (exists|step: int|
        0 <= step < 50 && color == spec_fade_path(from, target)[step])
}

/// An interpolated channel value stays a channel value, and step 0 is the
/// starting value.
pub proof fn lemma_lerp_bounds(from: u8, to: u8, step: int)
    requires
        0 <= step <= 50,
    ensures
        0 <= spec_lerp(from, to, step) <= 255,
        step == 0 ==> spec_lerp(from, to, step) == from,
{
    if to >= from {
        let delta = (to - from) as int;
        assert(0 <= delta * step / 50 <= delta) by (nonlinear_arith)
            requires
                0 <= step <= 50,
                0 <= delta,
        ;
    } else {
        let delta = (from - to) as int;
        assert(0 <= delta * step / 50 <= delta) by (nonlinear_arith)
            requires
                0 <= step <= 50,
                0 <= delta,
        ;
    }
}

/// A fade always performs exactly 50 interpolation steps, starting at the
/// current color, and ends with the duty cycle exactly equal to the target,
/// independent of the starting color: the step path has length 50 and
/// starts at `from`, and [`Leds::fade`] writes the target itself after the
/// path.
pub proof fn lemma_fade_exact(from: Pixel, to: Pixel)
    ensures
        spec_fade_path(from, to).len() == 50,
        spec_fade_path(from, to)[0] == from,
        forall|step: int|
            0 <= step < 50 ==> #[trigger] spec_fade_path(from, to)[step] == spec_lerp_pixel(
                from,
                to,
                step,
            ),
{
    lemma_lerp_bounds(from.r, to.r, 0);
    lemma_lerp_bounds(from.g, to.g, 0);
    lemma_lerp_bounds(from.b, to.b, 0);
}

fn lerp(from: u8, to: u8, step: u8) -> (result: u8)
    requires
        step <= 50,
    ensures
        result as int == spec_lerp(from, to, step as int),
{
    proof {
        lemma_lerp_bounds(from, to, step as int);
    }
    if to >= from {
        let delta: u32 = (to - from) as u32 * step as u32 / 50;
        from + delta as u8
    } else {
        let delta: u32 = (from - to) as u32 * step as u32 / 50;
        from - delta as u8
    }
}

/// The three PWM channels of the lamp and the color currently applied to
/// them.
pub struct Leds<T: PwmChannel, D: Pacer> {
    red: T,
    green: T,
    blue: T,
    pacer: D,
    current: Pixel,
}

impl<T: PwmChannel, D: Pacer> Leds<T, D> {
    /// The color the driver currently holds.
    pub closed spec fn spec_current(self) -> Pixel {
        self.current
    }

    /// The color the driver currently holds.
    pub fn current(&self) -> (color: Pixel)
        ensures
            color == self.spec_current(),
    {
        self.current
    }

    pub fn new(red: T, green: T, blue: T, pacer: D) -> (result: Self)
        ensures
            result.spec_current() == Pixel::spec_black(),
    {
        Leds { red, green, blue, pacer, current: Pixel::black() }
    }

    /// Set the in-memory color; the hardware is not touched.
    pub fn set(&mut self, val: Pixel)
        ensures
            final(self).spec_current() == val,
    {
        self.current = val;
    }

    /// Push the current color to the three PWM channels.  A transport
    /// failure on one channel aborts the writes to the remaining channels.
    pub fn flush(&mut self) -> (result: Result<(), LampError>)
        ensures
            final(self).spec_current() == old(self).spec_current(),
    {
        self.red.set_duty_fraction(self.current.r)?;
        self.green.set_duty_fraction(self.current.g)?;
        self.blue.set_duty_fraction(self.current.b)?;
        Ok(())
    }

    /// Fade from the current color to `target`: exactly 50 linear
    /// interpolation steps, one per millisecond tick, then a snap to the
    /// exact target.  A transport error aborts the remaining steps with no
    /// retry, leaving the color at the step that failed.
    pub fn fade(&mut self, target: Pixel) -> (result: Result<(), LampError>)
        ensures
            result is Ok ==> final(self).spec_current() == target,
            result is Err ==> on_fade_path(
                final(self).spec_current(),
                old(self).spec_current(),
                target,
            ),
    {
        let start = self.current;
        let mut step: u8 = 0;
        while step < 50
            invariant
                0 <= step <= 50,
                start == old(self).spec_current(),
            decreases 50 - step,
        {
            let val = Pixel {
                r: lerp(start.r, target.r, step),
                g: lerp(start.g, target.g, step),
                b: lerp(start.b, target.b, step),
            };
            self.set(val);
            proof {
                lemma_lerp_bounds(start.r, target.r, step as int);
                lemma_lerp_bounds(start.g, target.g, step as int);
                lemma_lerp_bounds(start.b, target.b, step as int);
                assert(val == spec_lerp_pixel(start, target, step as int));
                assert(spec_fade_path(start, target)[step as int] == spec_lerp_pixel(
                    start,
                    target,
                    step as int,
                ));
            }
            self.flush()?;
            self.pacer.pause_ms(1);
            step = step + 1;
        }
        self.set(target);
        self.flush()?;
        Ok(())
    }

    /// Fade to black.
    pub fn off(&mut self) -> (result: Result<(), LampError>)
        ensures
            result is Ok ==> final(self).spec_current() == Pixel::spec_black(),
            result is Err ==> on_fade_path(
                final(self).spec_current(),
                old(self).spec_current(),
                Pixel::spec_black(),
            ),
    {
        self.fade(Pixel::black())
    }

    /// Fade to full white.
    pub fn on(&mut self) -> (result: Result<(), LampError>)
        ensures
            result is Ok ==> final(self).spec_current() == (Pixel { r: 255, g: 255, b: 255 }),
            result is Err ==> on_fade_path(
                final(self).spec_current(),
                old(self).spec_current(),
                Pixel { r: 255, g: 255, b: 255 },
            ),
    {
        self.fade(Pixel { r: 255, g: 255, b: 255 })
    }

    /// Remember the current color, blink off and on twice, then fade back
    /// to the remembered color.
    pub fn flash(&mut self) -> (result: Result<(), LampError>)
        ensures
            result is Ok ==> final(self).spec_current() == old(self).spec_current(),
    {
        let remembered = self.current;
        self.off()?;
        self.on()?;
        self.off()?;
        self.on()?;
        self.fade(remembered)?;
        Ok(())
    }
}

} // verus!
