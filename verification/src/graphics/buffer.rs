//! Sub-region page buffers for low-RAM paged rendering.
//!
//! A [`PageBuffer`] is one horizontal band of a 1-bit-per-pixel frame: rows of `stride` bytes
//! (the width rounded up to whole bytes), most significant bit first, a cleared bit meaning
//! "black". Coordinates are in panel space; the band starts at row `y_offset`.

use vstd::prelude::*;

verus! {

/// Display rotation options.
#[derive(Debug, Clone, Copy, PartialEq, Eq, Structural)]
pub enum DisplayRotation {
    /// 0 degrees (default)
    Rotate0,
    /// 90 degrees clockwise
    Rotate90,
    /// 180 degrees clockwise
    Rotate180,
    /// 270 degrees clockwise
    Rotate270,
}

impl Default for DisplayRotation {
    fn default() -> (r: Self)
        ensures
            r == DisplayRotation::Rotate0,
    {
        DisplayRotation::Rotate0
    }
}

/// `a - b`, or zero when `b` is larger.
pub open spec fn sat_sub(a: u32, b: u32) -> u32 {
    if a >= b {
        (a - b) as u32
    } else {
        0
    }
}

/// Where a panel-space coordinate lands in the buffer's unrotated raster.
pub open spec fn rotate(rotation: DisplayRotation, width: u32, height: u32, x: u32, y: u32) -> (
    u32,
    u32,
) {
    match rotation {
        DisplayRotation::Rotate0 => (x, y),
        DisplayRotation::Rotate90 => (sat_sub(sat_sub(width, 1), y), x),
        DisplayRotation::Rotate180 => (sat_sub(sat_sub(width, 1), x), sat_sub(sat_sub(height, 1), y)),
        DisplayRotation::Rotate270 => (y, sat_sub(sat_sub(height, 1), x)),
    }
}

/// The state of a page buffer.
pub struct PageView {
    /// The buffer's bytes.
    pub bytes: Seq<u8>,
    /// Visible width in pixels.
    pub width: u32,
    /// Band height in rows.
    pub height: u32,
    /// Bytes per row.
    pub stride: usize,
    /// Panel row of the band's first row.
    pub y_offset: u32,
    /// Rotation applied to incoming coordinates.
    pub rotation: DisplayRotation,
}

/// Bytes per row of a `width`-pixel raster: whole bytes.
pub open spec fn stride_of(width: u32) -> int {
    (width + 7) / 8
}

/// Whether the mapped coordinate lies inside the band.
pub open spec fn in_band(v: PageView, mx: u32, my: u32) -> bool {
    mx < v.width && v.y_offset <= my && my < v.y_offset + v.height
}

/// The byte index and the bit (7 = leftmost) a panel coordinate addresses, or `None` when it
/// falls outside the band.
pub open spec fn pixel_target(v: PageView, x: u32, y: u32) -> Option<(int, u8)> {
    let (mx, my) = rotate(v.rotation, v.width, v.height, x, y);
    if in_band(v, mx, my) {
        Some((((my - v.y_offset) * v.stride + mx / 8) as int, (7 - mx % 8) as u8))
    } else {
        None
    }
}

/// Whether a pixel write's arithmetic stays in range: the band end, when it is consulted, and
/// the byte index, when it is computed.
pub open spec fn pixel_fits(v: PageView, x: u32, y: u32) -> bool {
    let (mx, my) = rotate(v.rotation, v.width, v.height, x, y);
    &&& (mx < v.width && v.y_offset <= my ==> v.y_offset + v.height <= u32::MAX)
    &&& (pixel_target(v, x, y) matches Some((i, _)) ==> i <= usize::MAX)
}

/// A byte with one bit written: cleared for black, set for white.
pub open spec fn with_bit(b: u8, bit: u8, black: bool) -> u8 {
    if black {
        b & !(1u8 << bit)
    } else {
        b | (1u8 << bit)
    }
}

/// The bytes after writing one pixel: the addressed bit, when the pixel is in the band and the
/// buffer reaches that far; otherwise unchanged.
pub open spec fn after_pixel(v: PageView, x: u32, y: u32, black: bool) -> Seq<u8> {
    match pixel_target(v, x, y) {
        Some((i, bit)) => if i < v.bytes.len() {
            v.bytes.update(i, with_bit(v.bytes[i], bit, black))
        } else {
            v.bytes
        },
        None => v.bytes,
    }
}

/// A memory-constrained sub-region buffer for paged rendering.
pub struct PageBuffer<'a> {
    buffer: &'a mut [u8],
    width: u32,
    height: u32,
    stride: usize,
    y_offset: u32,
    rotation: DisplayRotation,
}

impl<'a> View for PageBuffer<'a> {
    type V = PageView;

    closed spec fn view(&self) -> PageView {
        PageView {
            bytes: self.buffer@,
            width: self.width,
            height: self.height,
            stride: self.stride,
            y_offset: self.y_offset,
            rotation: self.rotation,
        }
    }
}

impl<'a> PageBuffer<'a> {
    /// Creates a new `PageBuffer` over a mutable slice, for a band of `height` rows of `width`
    /// pixels starting at panel row `y_offset`. The slice should hold `stride * height` bytes;
    /// writes past its end are dropped.
    pub fn new(buffer: &'a mut [u8], width: u32, height: u32, y_offset: u32) -> (r: Self)
        ensures
            r@ == (PageView {
                bytes: old(buffer)@,
                width,
                height,
                stride: stride_of(width) as usize,
                y_offset,
                rotation: DisplayRotation::Rotate0,
            }),
    {
        let stride = (width / 8) as usize + if width % 8 != 0 {
            1
        } else {
            0
        };
        Self { buffer, width, height, stride, y_offset, rotation: DisplayRotation::Rotate0 }
    }

    /// Returns the row stride in bytes (`width` rounded up to a whole byte).
    pub fn stride(&self) -> (r: usize)
        ensures
            r == self@.stride,
    {
        self.stride
    }

    /// Sets the rotation of the display buffer.
    pub fn set_rotation(&mut self, rotation: DisplayRotation)
        ensures
            final(self)@ == (PageView { rotation, ..old(self)@ }),
    {
        self.rotation = rotation;
    }

    /// Returns current display rotation.
    pub fn rotation(&self) -> (r: DisplayRotation)
        ensures
            r == self@.rotation,
    {
        self.rotation
    }

    /// Fills the whole buffer with one byte (0xFF for white, 0x00 for black).
    pub fn clear_byte(&mut self, val: u8)
        ensures
            final(self)@ == (PageView {
                bytes: Seq::new(old(self)@.bytes.len(), |i: int| val),
                ..old(self)@
            }),
    {
        let len = self.buffer.len();
        let mut i: usize = 0;
        assert(self.buffer@ =~= Seq::new(0, |k: int| val) + old(self)@.bytes.skip(0));
        while i < len
            invariant
                i <= len,
                len == old(self)@.bytes.len(),
                self@ == (PageView {
                    bytes: Seq::new(i as nat, |k: int| val) + old(self)@.bytes.skip(i as int),
                    ..old(self)@
                }),
            decreases len - i,
        {
            self.buffer[i] = val;
            i = i + 1;
            assert(self.buffer@ =~= Seq::new(i as nat, |k: int| val) + old(self)@.bytes.skip(
                i as int,
            ));
        }
        assert(self.buffer@ =~= Seq::new(len as nat, |k: int| val));
    }

    /// Access inner slice raw byte data.
    pub fn as_slice(&self) -> (r: &[u8])
        ensures
            r@ == self@.bytes,
    {
        self.buffer
    }

    /// Access inner slice mutable raw byte data.
    pub fn as_mut_slice(&mut self) -> (r: &mut [u8])
        ensures
            r@ == old(self)@.bytes,
            final(self)@ == (PageView { bytes: final(r)@, ..old(self)@ }),
    {
        self.buffer
    }

    /// Returns target display width in pixels.
    pub fn width(&self) -> (r: u32)
        ensures
            r == self@.width,
    {
        self.width
    }

    /// Returns current page slice height in pixels.
    pub fn height(&self) -> (r: u32)
        ensures
            r == self@.height,
    {
        self.height
    }

    /// Returns global Y pixel offset for current page.
    pub fn y_offset(&self) -> (r: u32)
        ensures
            r == self@.y_offset,
    {
        self.y_offset
    }

    /// Sets one pixel, `(x, y)` in panel space: the coordinate is rotated, pixels outside the
    /// visible width or the band are dropped, and the addressed bit is cleared for black or
    /// set for white.
    pub fn set_pixel(&mut self, x: u32, y: u32, black: bool)
        requires
            pixel_fits(old(self)@, x, y),
        ensures
            final(self)@ == (PageView { bytes: after_pixel(old(self)@, x, y, black), ..old(self)@ }),
    {
        let (mapped_x, mapped_y) = match self.rotation {
            DisplayRotation::Rotate0 => (x, y),
            DisplayRotation::Rotate90 => (self.width.saturating_sub(1).saturating_sub(y), x),
            DisplayRotation::Rotate180 => (
                self.width.saturating_sub(1).saturating_sub(x),
                self.height.saturating_sub(1).saturating_sub(y),
            ),
            DisplayRotation::Rotate270 => (y, self.height.saturating_sub(1).saturating_sub(x)),
        };
        if mapped_x >= self.width || mapped_y < self.y_offset || mapped_y >= self.y_offset
            + self.height {
            return ;
        }
        let local_y = mapped_y - self.y_offset;
        proof {
            assert((local_y as int) * (self.stride as int) >= 0) by (nonlinear_arith);
        }
        let index = local_y as usize * self.stride + (mapped_x / 8) as usize;
        let bit = (7 - (mapped_x % 8)) as u8;
        if index < self.buffer.len() {
            let b = self.buffer[index];
            if black {
                self.buffer[index] = b & !(1u8 << bit);
            } else {
                self.buffer[index] = b | (1u8 << bit);
            }
        }
    }

    /// Draws one pixel of a drawing: a pixel left of or above the panel's origin is dropped,
    /// any other is set as [`PageBuffer::set_pixel`] sets it.
    pub fn draw_pixel(&mut self, x: i32, y: i32, black: bool)
        requires
            x >= 0 && y >= 0 ==> pixel_fits(old(self)@, x as u32, y as u32),
        ensures
            x >= 0 && y >= 0 ==> final(self)@ == (PageView {
                bytes: after_pixel(old(self)@, x as u32, y as u32, black),
                ..old(self)@
            }),
            x < 0 || y < 0 ==> final(self)@ == old(self)@,
    {
        if x >= 0 && y >= 0 {
            self.set_pixel(x as u32, y as u32, black);
        }
    }
}

/// Writing a pixel touches exactly one bit of its byte: that bit reads back as white for a
/// white write and black for a black one, and every other bit keeps its value.
pub proof fn lemma_with_bit_touches_one_bit(b: u8, bit: u8, black: bool, k: u8)
    requires
        bit < 8,
        k < 8,
    ensures
        (with_bit(b, bit, black) >> bit) & 1 == (if black { 0u8 } else { 1u8 }),
        k != bit ==> (with_bit(b, bit, black) >> k) & 1 == (b >> k) & 1,
{
    if black {
        assert((b & !(1u8 << bit)) >> bit & 1 == 0u8) by (bit_vector)
            requires
                bit < 8,
        ;
        assert(k != bit ==> ((b & !(1u8 << bit)) >> k) & 1 == (b >> k) & 1) by (bit_vector)
            requires
                bit < 8,
                k < 8,
        ;
    } else {
        assert((b | (1u8 << bit)) >> bit & 1 == 1u8) by (bit_vector)
            requires
                bit < 8,
        ;
        assert(k != bit ==> ((b | (1u8 << bit)) >> k) & 1 == (b >> k) & 1) by (bit_vector)
            requires
                bit < 8,
                k < 8,
        ;
    }
}

/// A visible pixel lands inside its own row: rows start on byte boundaries `stride` bytes
/// apart, so no pixel spills into the next row, and the leftmost pixel of a byte is its top bit.
pub proof fn lemma_pixel_stays_in_its_row(v: PageView, x: u32, y: u32)
    requires
        v.stride == stride_of(v.width),
        pixel_target(v, x, y) is Some,
    ensures
        ({
            let (mx, my) = rotate(v.rotation, v.width, v.height, x, y);
            let (i, bit) = pixel_target(v, x, y)->0;
            &&& (my - v.y_offset) * v.stride <= i < (my - v.y_offset + 1) * v.stride
            &&& bit == 7 - mx % 8
            &&& bit < 8
        }),
{
    let (mx, my) = rotate(v.rotation, v.width, v.height, x, y);
    let ly = my - v.y_offset;
    let s = v.stride as int;
    assert(mx / 8 < s);
    assert(ly * s + mx / 8 < (ly + 1) * s) by (nonlinear_arith)
        requires
            mx / 8 < s,
    ;
}

/// The byte and bit holding raster column `col` of panel row `row` in a band, or `None` when
/// that raster position is outside the band: rows are `stride` bytes apart from the band's
/// first row, eight columns a byte, the leftmost in the top bit.
pub open spec fn raster_target(v: PageView, col: int, row: int) -> Option<(int, u8)> {
    if 0 <= col < v.width && v.y_offset <= row < v.y_offset + v.height {
        Some(((row - v.y_offset) * v.stride + col / 8, (7 - col % 8) as u8))
    } else {
        None
    }
}

/// Where a drawn pixel lands under each rotation, for a coordinate inside the rotated panel:
/// unrotated `(x, y)` is raster column `x` of row `y`; a quarter turn puts it at column
/// `width - 1 - y` of row `x`; a half turn at column `width - 1 - x` of row `height - 1 - y`;
/// three quarter turns at column `y` of row `height - 1 - x`.
pub proof fn lemma_rotated_pixel_lands(v: PageView, x: u32, y: u32)
    ensures
        v.rotation == DisplayRotation::Rotate0 ==> pixel_target(v, x, y) == raster_target(
            v,
            x as int,
            y as int,
        ),
        v.rotation == DisplayRotation::Rotate90 && y < v.width ==> pixel_target(v, x, y)
            == raster_target(v, v.width - 1 - y, x as int),
        v.rotation == DisplayRotation::Rotate180 && x < v.width && y < v.height ==> pixel_target(
            v,
            x,
            y,
        ) == raster_target(v, v.width - 1 - x, v.height - 1 - y),
        v.rotation == DisplayRotation::Rotate270 && x < v.height ==> pixel_target(v, x, y)
            == raster_target(v, y as int, v.height - 1 - x),
{
}

/// Rotating by 180 degrees reflects a visible pixel through the centre: `(x, y)` lands at
/// `(width - 1 - x, height - 1 - y)`, and rotating that back gives `(x, y)` again.
pub proof fn lemma_rotate180_reflects(width: u32, height: u32, x: u32, y: u32)
    requires
        x < width,
        y < height,
    ensures
        rotate(DisplayRotation::Rotate180, width, height, x, y) == ((width - 1 - x) as u32, (
        height - 1 - y) as u32),
        ({
            let (rx, ry) = rotate(DisplayRotation::Rotate180, width, height, x, y);
            rotate(DisplayRotation::Rotate180, width, height, rx, ry) == (x, y)
        }),
{
}

/// With rotation by 180 degrees, the panel origin is the last visible pixel of a full-panel
/// buffer: in the last row's byte holding column `width - 1`, at that column's bit.
pub proof fn lemma_rotate180_origin_is_last_pixel(v: PageView)
    requires
        v.rotation == DisplayRotation::Rotate180,
        v.width >= 1,
        v.height >= 1,
        v.y_offset == 0,
    ensures
        pixel_target(v, 0, 0) == Some(
            (((v.height - 1) * v.stride + (v.width - 1) / 8) as int, (7 - (v.width - 1) % 8) as u8),
        ),
{
}

/// The three-state palette a Tri-Color panel's two RAM planes render together: Black/White plus
/// one accent ink (red or yellow, depending on the panel).
#[derive(Debug, Clone, Copy, PartialEq, Eq, Structural)]
pub enum TriColor {
    /// White — no ink in either plane.
    White,
    /// Black ink, written to the Black/White plane.
    Black,
    /// Accent ink (red or yellow, depending on the panel), written to the second plane.
    Accent,
}

impl Default for TriColor {
    fn default() -> (r: Self)
        ensures
            r == TriColor::White,
    {
        TriColor::White
    }
}

/// Which raw RAM bit means "ink" on each of a Tri-Color panel's two planes.
///
/// Panels disagree here: the SSD1680/SSD1681 black/white plane is normal (a cleared bit is
/// black) but its accent plane is inverted; the UC8253 inverts both. Getting it backwards does
/// not error — it paints the background in ink.
#[derive(Debug, Clone, Copy, PartialEq, Eq, Structural)]
pub struct PlanePolarity {
    /// `true` if a *set* bit (rather than a cleared one) means black ink on the Black/White plane.
    pub bw_ink_is_set_bit: bool,
    /// `true` if a *set* bit (rather than a cleared one) means accent ink on the second plane.
    pub accent_ink_is_set_bit: bool,
}

impl PlanePolarity {
    /// The SSD1680/SSD1681 Tri-Color convention: Black/White plane normal, accent plane inverted.
    pub fn ssd168x() -> (r: Self)
        ensures
            r == (PlanePolarity { bw_ink_is_set_bit: false, accent_ink_is_set_bit: true }),
    {
        PlanePolarity { bw_ink_is_set_bit: false, accent_ink_is_set_bit: true }
    }

    /// The UC8253 convention: both planes inverted.
    pub fn uc8253() -> (r: Self)
        ensures
            r == (PlanePolarity { bw_ink_is_set_bit: true, accent_ink_is_set_bit: true }),
    {
        PlanePolarity { bw_ink_is_set_bit: true, accent_ink_is_set_bit: true }
    }

    /// The background (non-ink) fill byte for the Black/White plane: `0xFF` if ink is the
    /// cleared bit, `0x00` if ink is the set bit.
    pub fn bw_background_byte(&self) -> (r: u8)
        ensures
            r == (if self.bw_ink_is_set_bit { 0x00u8 } else { 0xFFu8 }),
    {
        if self.bw_ink_is_set_bit {
            0x00
        } else {
            0xFF
        }
    }

    /// The background (non-ink) fill byte for the accent plane under this polarity.
    pub fn accent_background_byte(&self) -> (r: u8)
        ensures
            r == (if self.accent_ink_is_set_bit { 0x00u8 } else { 0xFFu8 }),
    {
        if self.accent_ink_is_set_bit {
            0x00
        } else {
            0xFF
        }
    }
}

/// Whether a colour puts ink on the Black/White plane.
pub open spec fn bw_ink(color: TriColor) -> bool {
    color == TriColor::Black
}

/// Whether a colour puts ink on the accent plane.
pub open spec fn accent_ink(color: TriColor) -> bool {
    color == TriColor::Accent
}

/// A pair of [`PageBuffer`]s addressing a Tri-Color panel's Black/White and accent planes
/// together, so one draw routes each pixel to the right plane.
pub struct PageBufferPair<'a> {
    bw: PageBuffer<'a>,
    accent: PageBuffer<'a>,
    polarity: PlanePolarity,
}

impl<'a> PageBufferPair<'a> {
    /// The Black/White plane's state.
    pub closed spec fn bw_view(&self) -> PageView {
        self.bw@
    }

    /// The accent plane's state.
    pub closed spec fn accent_view(&self) -> PageView {
        self.accent@
    }

    /// The polarity the pair writes with.
    pub closed spec fn polarity(&self) -> PlanePolarity {
        self.polarity
    }

    /// Creates a new pair over the two planes' buffers for one band; both should hold
    /// `stride * height` bytes. `polarity` must match the panel's RAM plane behaviour.
    pub fn new(
        bw_buffer: &'a mut [u8],
        accent_buffer: &'a mut [u8],
        width: u32,
        height: u32,
        y_offset: u32,
        polarity: PlanePolarity,
    ) -> (r: Self)
        ensures
            r.bw_view() == (PageView {
                bytes: old(bw_buffer)@,
                width,
                height,
                stride: stride_of(width) as usize,
                y_offset,
                rotation: DisplayRotation::Rotate0,
            }),
            r.accent_view() == (PageView {
                bytes: old(accent_buffer)@,
                width,
                height,
                stride: stride_of(width) as usize,
                y_offset,
                rotation: DisplayRotation::Rotate0,
            }),
            r.polarity() == polarity,
    {
        Self {
            bw: PageBuffer::new(bw_buffer, width, height, y_offset),
            accent: PageBuffer::new(accent_buffer, width, height, y_offset),
            polarity,
        }
    }

    /// Sets the rotation on both planes together.
    pub fn set_rotation(&mut self, rotation: DisplayRotation)
        ensures
            final(self).bw_view() == (PageView { rotation, ..old(self).bw_view() }),
            final(self).accent_view() == (PageView { rotation, ..old(self).accent_view() }),
            final(self).polarity() == old(self).polarity(),
    {
        self.bw.set_rotation(rotation);
        self.accent.set_rotation(rotation);
    }

    /// Returns the current rotation.
    pub fn rotation(&self) -> (r: DisplayRotation)
        ensures
            r == self.bw_view().rotation,
    {
        self.bw.rotation()
    }

    /// Access the Black/White plane buffer.
    pub fn bw(&self) -> (r: &PageBuffer<'a>)
        ensures
            r@ == self.bw_view(),
    {
        &self.bw
    }

    /// Access the accent (red/yellow) plane buffer.
    pub fn accent(&self) -> (r: &PageBuffer<'a>)
        ensures
            r@ == self.accent_view(),
    {
        &self.accent
    }

    /// Resets both planes to their own background fill under the pair's polarity: no ink on
    /// either plane anywhere.
    pub fn clear(&mut self)
        ensures
            final(self).bw_view() == (PageView {
                bytes: Seq::new(
                    old(self).bw_view().bytes.len(),
                    |i: int|
                        if old(self).polarity().bw_ink_is_set_bit {
                            0x00u8
                        } else {
                            0xFFu8
                        },
                ),
                ..old(self).bw_view()
            }),
            final(self).accent_view() == (PageView {
                bytes: Seq::new(
                    old(self).accent_view().bytes.len(),
                    |i: int|
                        if old(self).polarity().accent_ink_is_set_bit {
                            0x00u8
                        } else {
                            0xFFu8
                        },
                ),
                ..old(self).accent_view()
            }),
            final(self).polarity() == old(self).polarity(),
    {
        let bw_fill = self.polarity.bw_background_byte();
        let accent_fill = self.polarity.accent_background_byte();
        self.bw.clear_byte(bw_fill);
        self.accent.clear_byte(accent_fill);
    }

    /// Sets one pixel to `color` on both planes: ink on the plane the colour uses, background
    /// on the other, so a pixel redrawn in another colour leaves no stale bit behind. A plane's
    /// raw bit is "cleared" exactly when its ink state differs from its polarity.
    pub fn set_pixel(&mut self, x: u32, y: u32, color: TriColor)
        requires
            pixel_fits(old(self).bw_view(), x, y),
            pixel_fits(old(self).accent_view(), x, y),
        ensures
            final(self).bw_view() == (PageView {
                bytes: after_pixel(
                    old(self).bw_view(),
                    x,
                    y,
                    bw_ink(color) != old(self).polarity().bw_ink_is_set_bit,
                ),
                ..old(self).bw_view()
            }),
            final(self).accent_view() == (PageView {
                bytes: after_pixel(
                    old(self).accent_view(),
                    x,
                    y,
                    accent_ink(color) != old(self).polarity().accent_ink_is_set_bit,
                ),
                ..old(self).accent_view()
            }),
            final(self).polarity() == old(self).polarity(),
    {
        let (bw_ink, accent_ink) = match color {
            TriColor::White => (false, false),
            TriColor::Black => (true, false),
            TriColor::Accent => (false, true),
        };
        self.bw.set_pixel(x, y, bw_ink != self.polarity.bw_ink_is_set_bit);
        self.accent.set_pixel(x, y, accent_ink != self.polarity.accent_ink_is_set_bit);
    }

    /// Draws one pixel of a drawing on both planes: a pixel left of or above the panel's origin
    /// is dropped, any other is set as [`PageBufferPair::set_pixel`] sets it.
    pub fn draw_pixel(&mut self, x: i32, y: i32, color: TriColor)
        requires
            x >= 0 && y >= 0 ==> pixel_fits(old(self).bw_view(), x as u32, y as u32),
            x >= 0 && y >= 0 ==> pixel_fits(old(self).accent_view(), x as u32, y as u32),
        ensures
            x >= 0 && y >= 0 ==> final(self).bw_view() == (PageView {
                bytes: after_pixel(
                    old(self).bw_view(),
                    x as u32,
                    y as u32,
                    bw_ink(color) != old(self).polarity().bw_ink_is_set_bit,
                ),
                ..old(self).bw_view()
            }),
            x >= 0 && y >= 0 ==> final(self).accent_view() == (PageView {
                bytes: after_pixel(
                    old(self).accent_view(),
                    x as u32,
                    y as u32,
                    accent_ink(color) != old(self).polarity().accent_ink_is_set_bit,
                ),
                ..old(self).accent_view()
            }),
            x < 0 || y < 0 ==> final(self).bw_view() == old(self).bw_view(),
            x < 0 || y < 0 ==> final(self).accent_view() == old(self).accent_view(),
            final(self).polarity() == old(self).polarity(),
    {
        if x >= 0 && y >= 0 {
            self.set_pixel(x as u32, y as u32, color);
        }
    }
}

/// Whether a plane's bit, read under a polarity, shows ink: a set bit when ink is the set bit,
/// a cleared one otherwise.
pub open spec fn shows_ink(b: u8, bit: u8, ink_is_set_bit: bool) -> bool {
    ((b >> bit) & 1 == 1) == ink_is_set_bit
}

/// After a Tri-Color pixel write, each plane shows ink at that pixel exactly when the colour
/// uses that plane, whatever was drawn there before.
pub proof fn lemma_tri_color_pixel_reads_back(b_bw: u8, b_accent: u8, bit: u8, color: TriColor, polarity: PlanePolarity)
    requires
        bit < 8,
    ensures
        shows_ink(
            with_bit(b_bw, bit, bw_ink(color) != polarity.bw_ink_is_set_bit),
            bit,
            polarity.bw_ink_is_set_bit,
        ) == bw_ink(color),
        shows_ink(
            with_bit(b_accent, bit, accent_ink(color) != polarity.accent_ink_is_set_bit),
            bit,
            polarity.accent_ink_is_set_bit,
        ) == accent_ink(color),
{
    lemma_with_bit_touches_one_bit(b_bw, bit, bw_ink(color) != polarity.bw_ink_is_set_bit, bit);
    lemma_with_bit_touches_one_bit(
        b_accent,
        bit,
        accent_ink(color) != polarity.accent_ink_is_set_bit,
        bit,
    );
}

/// A plane filled with its background byte shows no ink at any bit, whichever bit is ink.
pub proof fn lemma_background_shows_no_ink(ink_is_set_bit: bool, bit: u8)
    requires
        bit < 8,
    ensures
        !shows_ink(if ink_is_set_bit { 0x00u8 } else { 0xFFu8 }, bit, ink_is_set_bit),
{
    assert(bit < 8 ==> (0x00u8 >> bit) & 1 == 0) by (bit_vector);
    assert(bit < 8 ==> (0xFFu8 >> bit) & 1 == 1) by (bit_vector);
}

} // verus!
