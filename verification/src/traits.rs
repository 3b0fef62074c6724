//! Core types shared by every panel and controller: the colour model, the panel description
//! and the controller interface.

use vstd::prelude::*;
use crate::bus::{BusOp, Op, ops_of};

verus! {

/// Color operation modes supported by E-Paper displays.
#[derive(Debug, Clone, Copy, PartialEq, Eq, Structural)]
pub enum ColorMode {
    /// Monochrome (1-bit Black and White)
    BlackWhite,
    /// Tri-Color (Black, White, and Red or Yellow)
    TriColor,
    /// Quad-Color (Black, White, Red, and Yellow), 2 bits per pixel
    QuadColor,
    /// 7-Color Advanced Color ePaper (ACeP) / Spectra 6, 4 bits per pixel
    SevenColor,
}

/// 7-Color ACeP / Spectra 6 palette for 4-bit-per-pixel displays (such as ED2208).
///
/// The panel-native code of each colour is given by [`SevenColor::code`].
#[derive(Debug, Clone, Copy, PartialEq, Eq, Structural)]
pub enum SevenColor {
    /// Black color (0x0)
    Black,
    /// White color (0x1)
    White,
    /// Yellow color (0x2)
    Yellow,
    /// Red color (0x3)
    Red,
    /// Orange color (0x4) — ACeP 7-colour only, not renderable on Spectra 6 panels.
    Orange,
    /// Blue color (0x5)
    Blue,
    /// Green color (0x6)
    Green,
    /// Clean / Clear color (0x7), renders white
    Clean,
}

/// The panel-native 4-bit code of a palette colour.
pub open spec fn color_code(c: SevenColor) -> u8 {
    match c {
        SevenColor::Black => 0x0,
        SevenColor::White => 0x1,
        SevenColor::Yellow => 0x2,
        SevenColor::Red => 0x3,
        SevenColor::Orange => 0x4,
        SevenColor::Blue => 0x5,
        SevenColor::Green => 0x6,
        SevenColor::Clean => 0x7,
    }
}

impl SevenColor {
    /// The panel-native 4-bit code of this colour.
    pub fn code(self) -> (r: u8)
        ensures
            r == color_code(self),
            r < 8,
    {
        match self {
            SevenColor::Black => 0x0,
            SevenColor::White => 0x1,
            SevenColor::Yellow => 0x2,
            SevenColor::Red => 0x3,
            SevenColor::Orange => 0x4,
            SevenColor::Blue => 0x5,
            SevenColor::Green => 0x6,
            SevenColor::Clean => 0x7,
        }
    }

    /// Packs two 4-bit `SevenColor` pixels into a single 8-bit byte (`[high_pixel, low_pixel]`).
    pub fn pack(pixel_high: Self, pixel_low: Self) -> (r: u8)
        ensures
            r == color_code(pixel_high) * 16 + color_code(pixel_low),
    {
        let hi = pixel_high.code();
        let lo = pixel_low.code();
        assert(((hi << 4u8) | lo) == hi * 16 + lo) by (bit_vector)
            requires hi < 8, lo < 8;
        (hi << 4) | lo
    }
}

/// Packing two pixels is undone by splitting the byte into its nibbles: the high pixel is the
/// upper four bits and the low pixel the lower four.
pub proof fn lemma_pack_nibbles(pixel_high: SevenColor, pixel_low: SevenColor)
    ensures
        ({
            let b = (color_code(pixel_high) * 16 + color_code(pixel_low)) as u8;
            &&& b >> 4u8 == color_code(pixel_high)
            &&& b & 0x0Fu8 == color_code(pixel_low)
        }),
{
    let hi = color_code(pixel_high);
    let lo = color_code(pixel_low);
    assert(hi < 8 && lo < 8);
    assert(((hi * 16 + lo) as u8) >> 4u8 == hi && ((hi * 16 + lo) as u8) & 0x0Fu8 == lo)
        by (bit_vector)
        requires hi < 8, lo < 8;
}

/// Every palette colour carries the panel's own 4-bit code: Black 0, White 1, Yellow 2, Red 3,
/// Orange 4, Blue 5, Green 6, Clean 7; so no two colours share a code, and a packed byte holds
/// the high pixel's code in its upper nibble and the low pixel's in its lower one (Blue over
/// White is `0x51`).
pub proof fn lemma_palette_codes(a: SevenColor, b: SevenColor)
    ensures
        color_code(SevenColor::Black) == 0,
        color_code(SevenColor::White) == 1,
        color_code(SevenColor::Yellow) == 2,
        color_code(SevenColor::Red) == 3,
        color_code(SevenColor::Orange) == 4,
        color_code(SevenColor::Blue) == 5,
        color_code(SevenColor::Green) == 6,
        color_code(SevenColor::Clean) == 7,
        color_code(a) == color_code(b) ==> a == b,
        color_code(SevenColor::Blue) * 16 + color_code(SevenColor::White) == 0x51,
{
}

/// Identifies the frame buffer/RAM color channel being targeted.
#[derive(Debug, Clone, Copy, PartialEq, Eq, Structural)]
pub enum ColorChannel {
    /// Primary Black/White image channel
    BlackWhite,
    /// Secondary Red/Yellow image channel (for Tri-Color panels)
    RedYellow,
    /// Secondary Red image channel (for Quad-Color panels)
    Red,
    /// Secondary Yellow image channel (for Quad-Color panels)
    Yellow,
    /// Multi-color channel indexing for 7-color displays
    Color7(u8),
}

/// Physical display panel parameters and register configuration overrides.
///
/// Panels are zero-sized types: everything they declare is an associated constant, so a
/// controller can read a panel's configuration without an instance (see the controllers'
/// `for_panel` constructors).
pub trait EpdPanel {
    /// Physical width of the panel in pixels.
    const WIDTH: u32;

    /// Physical height of the panel in pixels.
    const HEIGHT: u32;

    /// Color capability mode of the panel.
    const COLOR_MODE: ColorMode = ColorMode::BlackWhite;

    /// Width of one RAM row in pixels, where the controller pads rows beyond the visible width.
    const RAM_WIDTH: u32 = Self::WIDTH;

    /// Optional VCOM register override, written during init by controllers that have one.
    const VCOM: Option<u8> = None;

    /// Optional gate driving voltage override.
    const GATE_VOLTAGE: Option<u8> = None;

    /// Optional custom waveform Look-Up Table.
    const CUSTOM_LUT: Option<&'static [u8]> = None;

    /// The panel's dimensions are usable: at least one pixel each way, and a frame of them,
    /// visible or as padded in RAM, counts its pixels in 32 bits.
    proof fn lemma_dimensions_fit()
        ensures
            Self::WIDTH >= 1,
            Self::HEIGHT >= 1,
            Self::WIDTH * Self::HEIGHT <= u32::MAX,
            Self::RAM_WIDTH * Self::HEIGHT <= u32::MAX,
    ;
}

/// A driver IC's command set: every operation is planned as the exact sequence of bus
/// operations (commands, data, resets, delays and busy waits) the IC needs, which a transport
/// then carries out.
///
/// Each operation is described by a spec function giving the planned operations, so code
/// generic over the controller (the driver) can state precisely what it forwards.
pub trait EpdController: Sized {
    /// Whether the initialisation sequence can be planned for this configuration.
    spec fn init_ok(&self) -> bool;

    /// The bus operations of the initialisation sequence.
    spec fn init_ops(&self) -> Seq<Op>;

    /// The controller state after planning the initialisation sequence.
    spec fn after_init(&self) -> Self;

    /// Whether a RAM window with these inclusive bounds can be planned.
    spec fn window_ok(&self, x_start: u32, y_start: u32, x_end: u32, y_end: u32) -> bool;

    /// The bus operations that select a RAM window.
    spec fn window_ops(&self, x_start: u32, y_start: u32, x_end: u32, y_end: u32) -> Seq<Op>;

    /// The controller state after selecting a RAM window.
    spec fn with_window(&self, x_start: u32, y_start: u32, x_end: u32, y_end: u32) -> Self;

    /// Whether the RAM cursor can be placed at `(x, y)`.
    spec fn cursor_ok(&self, x: u32, y: u32) -> bool;

    /// The bus operations that place the RAM cursor.
    spec fn cursor_ops(&self, x: u32, y: u32) -> Seq<Op>;

    /// The bus operations that write `data` to the RAM plane of `channel`.
    spec fn frame_ops(&self, channel: ColorChannel, data: Seq<u8>) -> Seq<Op>;

    /// Whether a repeated fill of `count` copies of `byte` can be planned.
    spec fn pattern_ok(&self, byte: u8, count: usize) -> bool;

    /// The bus operations that fill the RAM plane of `channel` with `count` copies of `byte`.
    spec fn pattern_ops(&self, channel: ColorChannel, byte: u8, count: usize) -> Seq<Op>;

    /// Whether a display refresh can be planned.
    spec fn refresh_ok(&self) -> bool;

    /// The bus operations of a display refresh.
    spec fn refresh_ops(&self) -> Seq<Op>;

    /// The bus operations that put the IC into deep sleep.
    spec fn sleep_ops(&self) -> Seq<Op>;

    /// Plans the hardware/software initialization sequence for the driver IC.
    fn init_sequence(&mut self) -> (ops: Vec<BusOp>)
        requires
            old(self).init_ok(),
        ensures
            ops_of(ops@) == old(self).init_ops(),
            *final(self) == old(self).after_init(),
    ;

    /// Plans the selection of the active display RAM window.
    fn set_window(&mut self, x_start: u32, y_start: u32, x_end: u32, y_end: u32) -> (ops: Vec<
        BusOp,
    >)
        requires
            old(self).window_ok(x_start, y_start, x_end, y_end),
        ensures
            ops_of(ops@) == old(self).window_ops(x_start, y_start, x_end, y_end),
            *final(self) == old(self).with_window(x_start, y_start, x_end, y_end),
    ;

    /// Plans setting the RAM address cursor position.
    fn set_cursor(&mut self, x: u32, y: u32) -> (ops: Vec<BusOp>)
        requires
            old(self).cursor_ok(x, y),
        ensures
            ops_of(ops@) == old(self).cursor_ops(x, y),
            *final(self) == *old(self),
    ;

    /// Plans writing raw slice data to the targeted color channel RAM.
    fn write_frame(&mut self, channel: ColorChannel, data: &[u8]) -> (ops: Vec<BusOp>)
        ensures
            ops_of(ops@) == old(self).frame_ops(channel, data@),
            *final(self) == *old(self),
    ;

    /// Plans writing a repeating byte pattern to display RAM (useful for clearing frames).
    fn write_frame_pattern(&mut self, channel: ColorChannel, byte: u8, count: usize) -> (ops: Vec<
        BusOp,
    >)
        requires
            old(self).pattern_ok(byte, count),
        ensures
            ops_of(ops@) == old(self).pattern_ops(channel, byte, count),
            *final(self) == *old(self),
    ;

    /// Plans a display update refresh, including waiting for the busy signal to clear.
    fn trigger_refresh(&mut self) -> (ops: Vec<BusOp>)
        requires
            old(self).refresh_ok(),
        ensures
            ops_of(ops@) == old(self).refresh_ops(),
            *final(self) == *old(self),
    ;

    /// Plans putting the controller IC into deep sleep power saving mode.
    fn sleep(&mut self) -> (ops: Vec<BusOp>)
        ensures
            ops_of(ops@) == old(self).sleep_ops(),
            *final(self) == *old(self),
    ;

    /// Whether [`EpdController::init_sequence`] can plan for this configuration.
    fn can_init(&self) -> (r: bool)
        ensures
            r == self.init_ok(),
    ;

    /// Whether [`EpdController::set_window`] can plan this window.
    fn can_set_window(&self, x_start: u32, y_start: u32, x_end: u32, y_end: u32) -> (r: bool)
        ensures
            r == self.window_ok(x_start, y_start, x_end, y_end),
    ;

    /// Whether [`EpdController::set_cursor`] can plan this cursor position.
    fn can_set_cursor(&self, x: u32, y: u32) -> (r: bool)
        ensures
            r == self.cursor_ok(x, y),
    ;

    /// Whether [`EpdController::write_frame_pattern`] can plan this fill.
    fn can_fill(&self, byte: u8, count: usize) -> (r: bool)
        ensures
            r == self.pattern_ok(byte, count),
    ;

    /// Whether [`EpdController::trigger_refresh`] can plan for this configuration.
    fn can_refresh(&self) -> (r: bool)
        ensures
            r == self.refresh_ok(),
    ;
}

} // verus!
