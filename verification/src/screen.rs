//! The display compositor: a logical framebuffer mapped onto a chain of
//! 8x8 LED driver chips, with a diff-based flush that retransmits only the
//! bytes that changed since the last flush.
//!
//! The logical canvas is `cols` x `rows` monochrome pixels.  Every 8x8 tile
//! of the canvas is backed by one physical chip, described by a [`Segment`]:
//! the chip's position in the daisy chain and whether the tile appears
//! mirrored in x or y.  The framebuffer holds `n_displays * 8` bytes, one
//! byte per physical row of one chip, 8 packed pixels per byte, MSB first.
//! Hardware is reached only through the [`DisplayPort`] trait, so all the
//! address arithmetic and the diffing below is verified.

use crate::bytes::{copy_bytes, zero_bytes};
use vstd::prelude::*;

verus! {

/// How one physical chip is wired into the logical canvas.
#[derive(Clone, Copy, Debug)]
pub struct Segment {
    pub invert_x: bool,
    pub invert_y: bool,
    /// Index of the chip in the physical daisy chain.
    pub physical_posn: u8,
}

impl Segment {
    /// A chip mounted rotated by 180 degrees: both axes mirrored.
    pub fn inverted(physical_posn: u8) -> (result: Segment)
        ensures
            result.invert_x,
            result.invert_y,
            result.physical_posn == physical_posn,
    {
        Segment { invert_x: true, invert_y: true, physical_posn }
    }

    /// A chip mounted upright: no mirroring.
    pub fn normal(physical_posn: u8) -> (result: Segment)
        ensures
            !result.invert_x,
            !result.invert_y,
            result.physical_posn == physical_posn,
    {
        Segment { invert_x: false, invert_y: false, physical_posn }
    }
}

/// The fixed topology of the display: chip count, logical canvas size,
/// chips per logical row, and the wiring of every chip.
#[derive(Debug)]
pub struct ScreenConfig {
    pub n_displays: usize,
    pub cols: u32,
    pub rows: u32,
    pub segments: Vec<Segment>,
    pub row_length: usize,
}

impl ScreenConfig {
    /// The topology is well formed: one segment per chip, every in-bounds
    /// logical coordinate resolves to a segment, every segment points at an
    /// existing chip, and the framebuffer size fits in a `usize`.
    pub open spec fn wf(self) -> bool {
        &&& self.segments@.len() == self.n_displays
        &&& self.n_displays * 8 <= usize::MAX
        &&& self.cols as int <= self.row_length as int * 8
        &&& ((self.rows as int + 7) / 8) * (self.row_length as int) <= self.n_displays as int
        &&& forall|i: int|
            0 <= i < self.segments@.len() ==> ((#[trigger] self.segments@[i]).physical_posn as int)
                < self.n_displays as int
    }

    /// Decide well-formedness at run time, so that a caller can reject a
    /// bad topology before building a screen from it.
    pub fn check(&self) -> (ok: bool)
        ensures
            ok == self.wf(),
    {
        if self.segments.len() != self.n_displays {
            return false;
        }
        if self.n_displays > usize::MAX / 8 {
            return false;
        }
        if self.cols as u128 > self.row_length as u128 * 8 {
            return false;
        }
        let row_count: u128 = (self.rows as u128 + 7) / 8;
        let row_len: u128 = self.row_length as u128;
        proof {
            assert(row_count * row_len <= u128::MAX) by (nonlinear_arith)
                requires
                    0 <= row_count < 0x100000000,
                    0 <= row_len < 0x10000000000000000,
            ;
        }
        if row_count * row_len > self.n_displays as u128 {
            return false;
        }
        let mut i: usize = 0;
        while i < self.segments.len()
            invariant
                0 <= i <= self.segments@.len(),
                forall|j: int|
                    0 <= j < i ==> ((#[trigger] self.segments@[j]).physical_posn as int)
                        < self.n_displays as int,
            decreases self.segments@.len() - i,
        {
            if self.segments[i].physical_posn as usize >= self.n_displays {
                return false;
            }
            i = i + 1;
        }
        true
    }
}

/// The transport error reported when a write to the chip chain fails.
#[derive(Clone, Copy, Debug, PartialEq, Eq, Structural)]
pub struct ScreenError;

/// Decode-mode selection for one driver chip.  The compositor always
/// selects [`DecodeMode::NoDecode`], raw row addressing.
#[derive(Clone, Copy, Debug, PartialEq, Eq, Structural)]
pub enum DecodeMode {
    NoDecode,
    CodeBDigit0,
    CodeBDigits0To3,
    CodeBDigitsAll,
}

/// The hardware capability the compositor consumes, per chained driver
/// chip.  Every operation may fail with a transport error; nothing is
/// promised about the hardware's state, so implementations over any
/// transport are acceptable.
pub trait DisplayPort {
    /// Leave shutdown mode on every chip of the chain.
    fn power_on(&mut self) -> Result<(), ScreenError>;

    /// Select how one chip interprets row data.
    fn set_decode_mode(&mut self, chip: usize, mode: DecodeMode) -> Result<(), ScreenError>;

    /// Blank one chip.
    fn clear_display(&mut self, chip: usize) -> Result<(), ScreenError>;

    /// Write one chip's intensity register; the hardware uses the low
    /// nibble of `intensity`.
    fn set_intensity(&mut self, chip: usize, intensity: u8) -> Result<(), ScreenError>;

    /// Transmit one raw row byte to one chip; `row` is the 1-based row
    /// register of that chip.
    fn write_raw_byte(&mut self, chip: usize, row: u8, byte: u8) -> Result<(), ScreenError>;
}

/// A logical coordinate lies on the canvas.
pub open spec fn in_bounds(c: ScreenConfig, x: u32, y: u32) -> bool {
    x < c.cols && y < c.rows
}

/// Which segment a logical coordinate falls into.
pub open spec fn seg_index(c: ScreenConfig, x: u32, y: u32) -> int {
    x as int / 8 + (y as int / 8) * (c.row_length as int)
}

/// The wiring of the segment a logical coordinate falls into.
pub open spec fn seg_at(c: ScreenConfig, x: u32, y: u32) -> Segment {
    c.segments@[seg_index(c, x, y)]
}

/// The column inside the chip, after the segment's x mirroring.
pub open spec fn phys_col(c: ScreenConfig, x: u32, y: u32) -> int {
    if seg_at(c, x, y).invert_x {
        7 - x as int % 8
    } else {
        x as int % 8
    }
}

/// The row inside the chip, after the segment's y mirroring.
pub open spec fn phys_row(c: ScreenConfig, x: u32, y: u32) -> int {
    if seg_at(c, x, y).invert_y {
        7 - y as int % 8
    } else {
        y as int % 8
    }
}

/// The framebuffer byte index a logical coordinate resolves to.
pub open spec fn phys_index(c: ScreenConfig, x: u32, y: u32) -> int {
    seg_at(c, x, y).physical_posn as int * 8 + phys_row(c, x, y)
}

/// The single-bit mask of a physical column, MSB first.
pub open spec fn spec_mask(px: int) -> u8 {
    0x80u8 >> (px as u8)
}

/// One row byte with the bit of physical column `px` set or cleared.
pub open spec fn spec_set_bit(byte: u8, px: int, on: bool) -> u8 {
    if on {
        byte | spec_mask(px)
    } else {
        byte & !spec_mask(px)
    }
}

/// Whether the bit of physical column `px` is set in a row byte.
pub open spec fn spec_bit_at(byte: u8, px: int) -> bool {
    byte & spec_mask(px) != 0
}

/// The framebuffer after one pixel write: out-of-bounds coordinates leave
/// it unchanged, in-bounds coordinates update exactly the derived byte.
pub open spec fn spec_blit(c: ScreenConfig, frame: Seq<u8>, x: u32, y: u32, on: bool) -> Seq<u8> {
    if in_bounds(c, x, y) {
        frame.update(phys_index(c, x, y), spec_set_bit(frame[phys_index(c, x, y)], phys_col(c, x, y), on))
    } else {
        frame
    }
}

/// Read one logical pixel back out of the framebuffer.
pub open spec fn spec_decode(c: ScreenConfig, frame: Seq<u8>, x: u32, y: u32) -> bool {
    spec_bit_at(frame[phys_index(c, x, y)], phys_col(c, x, y))
}

/// How many of the first `n` framebuffer bytes differ from the snapshot.
pub open spec fn diff_count_upto(frame: Seq<u8>, last: Seq<u8>, n: int) -> int
    decreases n,
{
    if n <= 0 {
        0
    } else {
        diff_count_upto(frame, last, n - 1) + if frame[n - 1] == last[n - 1] {
            0int
        } else {
            1int
        }
    }
}

/// How many framebuffer bytes a flush must transmit.
pub open spec fn spec_diff_count(frame: Seq<u8>, last: Seq<u8>) -> int {
    diff_count_upto(frame, last, frame.len() as int)
}

proof fn lemma_diff_upto_nonneg(frame: Seq<u8>, last: Seq<u8>, n: int)
    ensures
        diff_count_upto(frame, last, n) >= 0,
    decreases n,
{
    if n > 0 {
        lemma_diff_upto_nonneg(frame, last, n - 1);
    }
}

/// One differing byte makes the whole diff nonempty.
proof fn lemma_diff_at_index(frame: Seq<u8>, last: Seq<u8>, i: int, n: int)
    requires
        0 <= i < n,
        frame[i] != last[i],
    ensures
        diff_count_upto(frame, last, n) > 0,
    decreases n,
{
    if i == n - 1 {
        lemma_diff_upto_nonneg(frame, last, n - 1);
    } else {
        lemma_diff_at_index(frame, last, i, n - 1);
    }
}

/// An in-bounds logical coordinate resolves to an existing segment, an
/// existing framebuffer byte, and a column inside the chip.
pub proof fn lemma_phys_address_in_range(c: ScreenConfig, x: u32, y: u32)
    requires
        c.wf(),
        in_bounds(c, x, y),
    ensures
        0 <= seg_index(c, x, y) < c.segments@.len(),
        0 <= phys_index(c, x, y) < c.n_displays * 8,
        0 <= phys_col(c, x, y) < 8,
        0 <= phys_row(c, x, y) < 8,
{
    let xi = x as int;
    let yi = y as int;
    let rl = c.row_length as int;
    let nd = c.n_displays as int;
    let rowsc = (c.rows as int + 7) / 8;
    assert(xi < rl * 8);
    assert(xi / 8 < rl) by (nonlinear_arith)
        requires
            0 <= xi,
            1 <= rl,
            xi < rl * 8,
    ;
    assert(yi / 8 < rowsc) by (nonlinear_arith)
        requires
            0 <= yi,
            yi < c.rows as int,
            rowsc == (c.rows as int + 7) / 8,
    ;
    assert((yi / 8) * rl <= (rowsc - 1) * rl) by (nonlinear_arith)
        requires
            0 <= rl,
            yi / 8 <= rowsc - 1,
    ;
    assert((rowsc - 1) * rl == rowsc * rl - rl) by (nonlinear_arith);
    assert(seg_index(c, x, y) <= rl - 1 + rowsc * rl - rl);
    assert(rowsc * rl <= nd);
    assert(0 <= yi / 8);
    assert(0 <= (yi / 8) * rl) by (nonlinear_arith)
        requires
            0 <= yi / 8,
            0 <= rl,
    ;
    assert(0 <= seg_index(c, x, y) < c.segments@.len());
    let seg = seg_at(c, x, y);
    assert((seg.physical_posn as int) < nd);
    assert(0 <= phys_row(c, x, y) < 8);
    assert(phys_index(c, x, y) <= (nd - 1) * 8 + 7);
}

/// One bit write lands where it was aimed: decoding the blitted framebuffer
/// at the same logical coordinate reads the written value back, every other
/// framebuffer byte is untouched, and an out-of-bounds write changes
/// nothing.
pub proof fn lemma_blit_readback(c: ScreenConfig, frame: Seq<u8>, x: u32, y: u32, on: bool)
    requires
        c.wf(),
        frame.len() == c.n_displays * 8,
    ensures
        in_bounds(c, x, y) ==> spec_decode(c, spec_blit(c, frame, x, y, on), x, y) == on,
        in_bounds(c, x, y) ==> forall|i: int|
            0 <= i < frame.len() && i != phys_index(c, x, y) ==> spec_blit(c, frame, x, y, on)[i]
                == frame[i],
        !in_bounds(c, x, y) ==> spec_blit(c, frame, x, y, on) == frame,
{
    if in_bounds(c, x, y) {
        lemma_phys_address_in_range(c, x, y);
        let px = phys_col(c, x, y);
        let b = frame[phys_index(c, x, y)];
        lemma_set_bit_readback(b, px as u8, on);
    }
}

/// Setting or clearing one bit of a row byte is read back exactly.
proof fn lemma_set_bit_readback(b: u8, px: u8, on: bool)
    requires
        px < 8,
    ensures
        spec_bit_at(spec_set_bit(b, px as int, on), px as int) == on,
{
    assert((b | (0x80u8 >> px)) & (0x80u8 >> px) != 0) by (bit_vector)
        requires
            px < 8,
    ;
    assert((b & !(0x80u8 >> px)) & (0x80u8 >> px) == 0) by (bit_vector);
}

proof fn lemma_diff_upto_self(frame: Seq<u8>, last: Seq<u8>, n: int)
    requires
        forall|i: int| 0 <= i < n ==> frame[i] == last[i],
    ensures
        diff_count_upto(frame, last, n) == 0,
    decreases n,
{
    if n > 0 {
        lemma_diff_upto_self(frame, last, n - 1);
    }
}

proof fn lemma_equal_diff_is_empty(frame: Seq<u8>)
    ensures
        spec_diff_count(frame, frame) == 0,
{
    lemma_diff_upto_self(frame, frame, frame.len() as int);
}

/// Flushing twice in a row with no intervening drawing performs zero
/// hardware writes on the second call: a flush leaves the snapshot equal
/// to the framebuffer, and a screen whose framebuffer matches its snapshot
/// has nothing to transmit — so the second flush makes no port call and
/// [`Screen::flush`] owes it success.
pub proof fn lemma_second_flush_writes_nothing<P: DisplayPort>(screen: Screen<P>)
    requires
        screen.snapshot() == screen.frame(),
    ensures
        spec_diff_count(screen.frame(), screen.snapshot()) == 0,
{
    lemma_equal_diff_is_empty(screen.frame());
}

/// Builds a [`Screen`] from a topology: allocates the zeroed framebuffer,
/// then initializes the hardware through the port.
#[derive(Debug)]
pub struct ScreenBuilder {
    config: ScreenConfig,
    framebuffer: Vec<u8>,
}

impl ScreenBuilder {
    pub closed spec fn spec_config(self) -> ScreenConfig {
        self.config
    }

    pub closed spec fn spec_frame(self) -> Seq<u8> {
        self.framebuffer@
    }

    /// The builder is well formed: the topology is, and the framebuffer
    /// holds one byte per physical chip row.
    pub open spec fn wf(self) -> bool {
        self.spec_config().wf() && self.spec_frame().len() == self.spec_config().n_displays * 8
    }

    pub fn new(config: ScreenConfig) -> (result: ScreenBuilder)
        requires
            config.wf(),
        ensures
            result.wf(),
            result.spec_config() == config,
            result.spec_frame().len() == config.n_displays * 8,
            forall|i: int| 0 <= i < result.spec_frame().len() ==> result.spec_frame()[i] == 0u8,
    {
        let len = config.n_displays * 8;
        ScreenBuilder { config, framebuffer: zero_bytes(len) }
    }

    /// Power the chain on and put every chip into raw addressing, blanked,
    /// at minimum intensity.  A transport failure aborts the remaining
    /// initialization and is reported.
    pub fn build<P: DisplayPort>(self, port: P) -> (result: Result<Screen<P>, ScreenError>)
        requires
            self.wf(),
        ensures
            result matches Ok(screen) ==> screen.wf() && screen.spec_config() == self.spec_config()
                && screen.frame() == self.spec_frame() && screen.snapshot() == self.spec_frame(),
    {
        let last = copy_bytes(&self.framebuffer);
        let mut screen = Screen {
            config: self.config,
            framebuffer: self.framebuffer,
            last_framebuffer: last,
            port,
        };
        screen.port.power_on()?;
        let mut n: usize = 0;
        while n < screen.config.n_displays
            invariant
                screen.config == self.config,
                screen.framebuffer@ == self.framebuffer@,
                screen.last_framebuffer@ == self.framebuffer@,
                self.wf(),
            decreases screen.config.n_displays - n,
        {
            screen.port.set_decode_mode(n, DecodeMode::NoDecode)?;
            screen.port.clear_display(n)?;
            screen.port.set_intensity(n, 0)?;
            n = n + 1;
        }
        Ok(screen)
    }
}

/// The compositor itself: the only owner of the physical chip chain.
pub struct Screen<P: DisplayPort> {
    config: ScreenConfig,
    framebuffer: Vec<u8>,
    last_framebuffer: Vec<u8>,
    port: P,
}

impl<P: DisplayPort> Screen<P> {
    pub closed spec fn spec_config(self) -> ScreenConfig {
        self.config
    }

    /// The in-memory framebuffer that drawing writes into.
    pub closed spec fn frame(self) -> Seq<u8> {
        self.framebuffer@
    }

    /// The framebuffer as last transmitted, used only for diffing.
    pub closed spec fn snapshot(self) -> Seq<u8> {
        self.last_framebuffer@
    }

    /// The screen is well formed: the topology is, and the framebuffer and
    /// its snapshot hold one byte per physical chip row.
    pub open spec fn wf(self) -> bool {
        &&& self.spec_config().wf()
        &&& self.frame().len() == self.spec_config().n_displays * 8
        &&& self.snapshot().len() == self.spec_config().n_displays * 8
    }

    /// Zero the in-memory framebuffer; the hardware is not touched.
    pub fn clear(&mut self)
        requires
            old(self).wf(),
        ensures
            final(self).wf(),
            final(self).spec_config() == old(self).spec_config(),
            final(self).snapshot() == old(self).snapshot(),
            final(self).frame().len() == old(self).frame().len(),
            forall|i: int| 0 <= i < final(self).frame().len() ==> final(self).frame()[i] == 0u8,
    {
        let len = self.framebuffer.len();
        self.framebuffer = zero_bytes(len);
    }

    /// Set or clear one logical pixel.  Coordinates off the canvas are
    /// ignored; otherwise exactly the derived framebuffer byte changes, in
    /// the bit the segment's wiring selects.
    pub fn blit(&mut self, x: u32, y: u32, on: bool)
        requires
            old(self).wf(),
        ensures
            final(self).wf(),
            final(self).spec_config() == old(self).spec_config(),
            final(self).snapshot() == old(self).snapshot(),
            final(self).frame() == spec_blit(old(self).spec_config(), old(self).frame(), x, y, on),
    {
        if x >= self.config.cols || y >= self.config.rows {
            return ;
        }
        proof {
            lemma_phys_address_in_range(self.config, x, y);
        }
        let col: usize = (x / 8) as usize;
        let xr: u32 = x % 8;
        let row: usize = (y / 8) as usize;
        let yr: u32 = y % 8;
        let seg_no: usize = col + row * self.config.row_length;
        let seg = &self.config.segments[seg_no];
        let px: u32 = if seg.invert_x {
            7 - xr
        } else {
            xr
        };
        let py: u32 = if seg.invert_y {
            7 - yr
        } else {
            yr
        };
        let row_index: usize = (seg.physical_posn as usize) * 8 + (py as usize);
        let mask: u8 = 0x80u8 >> px;
        let byte = self.framebuffer[row_index];
        let updated = if on {
            byte | mask
        } else {
            byte & !mask
        };
        self.framebuffer[row_index] = updated;
    }

    /// Read one logical pixel back from the framebuffer.
    pub fn pixel_at(&self, x: u32, y: u32) -> (on: bool)
        requires
            self.wf(),
            in_bounds(self.spec_config(), x, y),
        ensures
            on == spec_decode(self.spec_config(), self.frame(), x, y),
    {
        proof {
            lemma_phys_address_in_range(self.config, x, y);
        }
        let col: usize = (x / 8) as usize;
        let xr: u32 = x % 8;
        let row: usize = (y / 8) as usize;
        let yr: u32 = y % 8;
        let seg_no: usize = col + row * self.config.row_length;
        let seg = &self.config.segments[seg_no];
        let px: u32 = if seg.invert_x {
            7 - xr
        } else {
            xr
        };
        let py: u32 = if seg.invert_y {
            7 - yr
        } else {
            yr
        };
        let row_index: usize = (seg.physical_posn as usize) * 8 + (py as usize);
        let mask: u8 = 0x80u8 >> px;
        self.framebuffer[row_index] & mask != 0
    }

    /// Transmit every framebuffer byte that differs from the snapshot, in
    /// ascending (chip, row) order; unchanged bytes are never retransmitted.
    /// A transport failure aborts the remaining writes of this call and is
    /// reported; a flush with nothing to transmit makes no port call and
    /// cannot fail.  The snapshot is replaced by the current framebuffer
    /// whether or not every write succeeded, so on success the returned
    /// count equals the number of differing bytes.
    pub fn flush(&mut self) -> (result: Result<usize, ScreenError>)
        requires
            old(self).wf(),
        ensures
            final(self).wf(),
            final(self).spec_config() == old(self).spec_config(),
            final(self).frame() == old(self).frame(),
            final(self).snapshot() == old(self).frame(),
            result matches Ok(written) ==> written as int == spec_diff_count(
                old(self).frame(),
                old(self).snapshot(),
            ),
            spec_diff_count(old(self).frame(), old(self).snapshot()) == 0 ==> result is Ok,
    {
        let len = self.framebuffer.len();
        let mut i: usize = 0;
        let mut written: usize = 0;
        let mut failed = false;
        while i < len && !failed
            invariant
                old(self).wf(),
                self.config == old(self).config,
                self.framebuffer@ == old(self).framebuffer@,
                self.last_framebuffer@ == old(self).last_framebuffer@,
                len == self.framebuffer@.len(),
                0 <= i <= len,
                !failed ==> written as int == diff_count_upto(
                    self.framebuffer@,
                    self.last_framebuffer@,
                    i as int,
                ),
                written <= i,
                failed ==> spec_diff_count(old(self).framebuffer@, old(self).last_framebuffer@)
                    > 0,
            decreases len - i + (if failed {
                0int
            } else {
                1int
            }),
        {
            let byte = self.framebuffer[i];
            if byte != self.last_framebuffer[i] {
                let chip = i / 8;
                let row = (i % 8) as u8 + 1;
                match self.port.write_raw_byte(chip, row, byte) {
                    Ok(_) => {
                        written = written + 1;
                    },
                    Err(_) => {
                        failed = true;
                        proof {
                            lemma_diff_at_index(
                                self.framebuffer@,
                                self.last_framebuffer@,
                                i as int,
                                self.framebuffer@.len() as int,
                            );
                        }
                    },
                }
            }
            if !failed {
                i = i + 1;
            }
        }
        self.last_framebuffer = copy_bytes(&self.framebuffer);
        if failed {
            Err(ScreenError)
        } else {
            Ok(written)
        }
    }

    /// Write the intensity register of every chip.  A failure on one chip
    /// is reported but does not prevent the attempt on the remaining chips.
    pub fn set_brightness(&mut self, brightness: u8) -> (result: Result<(), ScreenError>)
        requires
            old(self).wf(),
        ensures
            final(self).wf(),
            final(self).spec_config() == old(self).spec_config(),
            final(self).frame() == old(self).frame(),
            final(self).snapshot() == old(self).snapshot(),
    {
        let mut failed = false;
        let mut n: usize = 0;
        while n < self.config.n_displays
            invariant
                old(self).wf(),
                self.config == old(self).config,
                self.framebuffer@ == old(self).framebuffer@,
                self.last_framebuffer@ == old(self).last_framebuffer@,
            decreases self.config.n_displays - n,
        {
            match self.port.set_intensity(n, brightness) {
                Ok(_) => {},
                Err(_) => {
                    failed = true;
                },
            }
            n = n + 1;
        }
        if failed {
            Err(ScreenError)
        } else {
            Ok(())
        }
    }
}

} // verus!
