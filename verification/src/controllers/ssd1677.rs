//! SSD1677 E-Paper Display Controller.
//!
//! The register set extends the SSD1681's with a wider booster soft-start command and an explicit
//! Display Update Control 1 register. It widens the RAM X address: `SET_RAMXPOS` takes start and
//! end as little-endian 16-bit *pixel* values and `SET_RAMXCNT` one. The target panel's gates are
//! wired in reverse, so the Y axis is flipped in software (Y-decrement data entry mode).

use vstd::prelude::*;
use crate::bus::{BusOp, Op, cmd_data, ops_of, push_op, send_command, send_command_with_data};
use crate::controllers::common::{
    fill_ops, high_byte, hi8, le16, lemma_16_bit_encodings_read_back, lo8, low_byte, reads_le16, optional_block, optional_register, plan_fill,
    plan_optional_block, plan_optional_register,
};
use crate::traits::{ColorChannel, EpdController, EpdPanel};

verus! {

/// Driver output control
pub const DRIVER_CONTROL: u8 = 0x01;
/// Gate driving voltage control
pub const GATE_VOLTAGE: u8 = 0x03;
/// Booster soft-start control
pub const BOOSTER_SOFT_START: u8 = 0x0C;
/// Deep sleep mode entry
pub const DEEP_SLEEP_MODE: u8 = 0x10;
/// Data entry mode setting
pub const DATA_ENTRY_MODE: u8 = 0x11;
/// Software reset command
pub const SW_RESET: u8 = 0x12;
/// Temperature sensor control
pub const TEMP_CONTROL: u8 = 0x18;
/// Write to temperature register (direct override, used for fast-update waveform selection)
pub const WRITE_TEMP_REG: u8 = 0x1A;
/// Master activation command
pub const MASTER_ACTIVATE: u8 = 0x20;
/// Display update control 1 (RED bypass / single-chip selection)
pub const DISPLAY_UPDATE_CTRL1: u8 = 0x21;
/// Display update control 2
pub const UPDATE_DISPLAY_CTRL2: u8 = 0x22;
/// Write Black/White RAM data
pub const WRITE_BW_DATA: u8 = 0x24;
/// Write Red/Yellow RAM data
pub const WRITE_RED_DATA: u8 = 0x26;
/// Write VCOM register
pub const WRITE_VCOM_REGISTER: u8 = 0x2C;
/// Write LUT register (custom waveform upload)
pub const WRITE_LUT_REGISTER: u8 = 0x32;
/// Border waveform control
pub const BORDER_WAVEFORM_CONTROL: u8 = 0x3C;
/// Auto write RED RAM for a regular pattern
pub const AUTO_WRITE_RED_RAM: u8 = 0x46;
/// Auto write Black/White RAM for a regular pattern
pub const AUTO_WRITE_BW_RAM: u8 = 0x47;
/// Set RAM X address start/end position
pub const SET_RAMXPOS: u8 = 0x44;
/// Set RAM Y address start/end position
pub const SET_RAMYPOS: u8 = 0x45;
/// Set RAM X address counter
pub const SET_RAMXCNT: u8 = 0x4E;
/// Set RAM Y address counter
pub const SET_RAMYCNT: u8 = 0x4F;

/// Largest step height the pattern generator encodes (`A[6:4] = 111`), in gates.
pub const MAX_STEP_HEIGHT: u32 = 680;

/// Largest step width the pattern generator encodes (`A[2:0] = 111`), in sources.
pub const MAX_STEP_WIDTH: u32 = 960;

/// Display refresh operating mode for the SSD1677 controller.
#[derive(Debug, Clone, Copy, PartialEq, Eq, Structural)]
pub enum Ssd1677RefreshMode {
    /// Full display update using the panel's OTP/full waveform LUT (`UPDATE_DISPLAY_CTRL2 = 0xF7`).
    Full,
    /// Full display update forced to a faster waveform via a direct temperature-register override
    /// (`WRITE_TEMP_REG = 0x5A`, `UPDATE_DISPLAY_CTRL2 = 0xD7`).
    FastFull,
    /// Partial display update using the controller's built-in fast LUT (`0xFC`).
    Partial,
}

/// The configuration an SSD1677 controller drives its panel with.
#[derive(Debug, Clone, Copy)]
pub struct Ssd1677Config {
    /// Panel width in pixels.
    pub width: u32,
    /// Panel height in pixels.
    pub height: u32,
    /// Refresh mode.
    pub refresh_mode: Ssd1677RefreshMode,
    /// VCOM register override written during init.
    pub vcom: Option<u8>,
    /// Gate driving voltage override written during init.
    pub gate_voltage: Option<u8>,
    /// Custom waveform LUT uploaded at the end of init.
    pub custom_lut: Option<&'static [u8]>,
    /// Whether uniform full-plane fills use the RAM pattern generator.
    pub ram_auto_fill: bool,
    /// Visible-space origin of the last window set.
    pub window_origin: (u32, u32),
}

/// The configuration of a freshly constructed controller.
pub open spec fn default_config(width: u32, height: u32) -> Ssd1677Config {
    Ssd1677Config {
        width,
        height,
        refresh_mode: Ssd1677RefreshMode::Full,
        vcom: None,
        gate_voltage: None,
        custom_lut: None,
        ram_auto_fill: true,
        window_origin: (0, 0),
    }
}

/// Number of RAM bytes one full colour plane occupies: whole bytes per row, times the rows.
pub open spec fn plane_bytes(c: Ssd1677Config) -> int {
    ((c.width as int + 7) / 8) * c.height
}

/// The `0x46`/`0x47` parameter byte for a uniform fill, or `None` when the pattern generator
/// cannot express the fill: it is disabled, the byte is neither `0x00` nor `0xFF`, the count is
/// not exactly one plane, or the panel exceeds the largest step (960 sources by 680 gates).
pub open spec fn auto_fill_pattern(c: Ssd1677Config, byte: u8, count: usize) -> Option<u8> {
    if !c.ram_auto_fill {
        None
    } else if byte != 0x00 && byte != 0xFF {
        None
    } else if count != plane_bytes(c) {
        None
    } else if c.height > MAX_STEP_HEIGHT || c.width > MAX_STEP_WIDTH {
        None
    } else if byte == 0xFF {
        Some(0xF7u8)
    } else {
        Some(0x77u8)
    }
}

/// The pattern generator is used exactly for a uniform fill it can express: auto-fill enabled,
/// a `0x00` or `0xFF` byte, exactly one plane's worth of bytes, on a panel of at most 960
/// sources by 680 gates; it is then asked for `0xF7` (white) or `0x77` (black), and for
/// nothing else.
pub proof fn lemma_auto_fill_only_for_uniform_planes(c: Ssd1677Config, byte: u8, count: usize)
    ensures
        (auto_fill_pattern(c, byte, count) is Some) == (c.ram_auto_fill && (byte == 0x00 || byte
            == 0xFF) && count == (c.width as int + 7) / 8 * c.height && c.width <= 960 && c.height
            <= 680),
        auto_fill_pattern(c, byte, count) is Some ==> auto_fill_pattern(c, byte, count)
            == Some(if byte == 0xFF { 0xF7u8 } else { 0x77u8 }),
{
}

/// The RAM plane command for a colour channel: Black/White on `0x24`, every colour on `0x26`.
pub open spec fn plane_command(channel: ColorChannel) -> u8 {
    if channel == ColorChannel::BlackWhite {
        WRITE_BW_DATA
    } else {
        WRITE_RED_DATA
    }
}

/// The pattern-generator command for a colour channel.
pub open spec fn auto_command(channel: ColorChannel) -> u8 {
    if channel == ColorChannel::BlackWhite {
        AUTO_WRITE_BW_RAM
    } else {
        AUTO_WRITE_RED_RAM
    }
}

/// The operations that select a RAM window: X rounded out to whole bytes as 16-bit pixel
/// values, Y mapped onto the reversed gates (the window's last visible row is RAM row
/// `height - y_end - 1`).
pub open spec fn window_plan(c: Ssd1677Config, x_start: u32, y_start: u32, x_end: u32, y_end: u32) -> Seq<Op> {
    cmd_data(DATA_ENTRY_MODE, seq![0x01]) + cmd_data(
        SET_RAMXPOS,
        le16(x_start & 0xFFFF_FFF8) + le16(x_end | 7),
    ) + cmd_data(
        SET_RAMYPOS,
        le16((c.height - y_start - 1) as u32) + le16((c.height - y_end - 1) as u32),
    )
}

/// The operations that place the RAM address counters, Y reversed.
pub open spec fn cursor_plan(c: Ssd1677Config, x: u32, y: u32) -> Seq<Op> {
    cmd_data(SET_RAMXCNT, le16(x & 0xFFFF_FFF8)) + cmd_data(
        SET_RAMYCNT,
        le16((c.height - 1 - y) as u32),
    )
}

/// The initialisation sequence.
pub open spec fn init_plan(c: Ssd1677Config) -> Seq<Op> {
    let h = (c.height - 1) as u32;
    seq![Op::HardReset(10), Op::Command(SW_RESET), Op::DelayMs(10)] + cmd_data(
        TEMP_CONTROL,
        seq![0x80],
    ) + cmd_data(BOOSTER_SOFT_START, seq![0xAE, 0xC7, 0xC3, 0xC0, 0x80]) + cmd_data(
        DRIVER_CONTROL,
        seq![lo8(h), hi8(h), 0x02],
    ) + cmd_data(BORDER_WAVEFORM_CONTROL, seq![0x01]) + optional_register(
        WRITE_VCOM_REGISTER,
        c.vcom,
    ) + optional_register(GATE_VOLTAGE, c.gate_voltage) + window_plan(
        c,
        0,
        0,
        (c.width - 1) as u32,
        h,
    ) + cursor_plan(c, 0, 0) + optional_block(WRITE_LUT_REGISTER, c.custom_lut)
}

/// A uniform fill: the pattern generator (waited out on BUSY, then the cursor re-seated at the
/// window origin) when it can express the fill, the byte stream otherwise.
pub open spec fn pattern_plan(c: Ssd1677Config, channel: ColorChannel, byte: u8, count: usize) -> Seq<Op> {
    match auto_fill_pattern(c, byte, count) {
        Some(p) => cmd_data(auto_command(channel), seq![p]) + seq![Op::WaitBusy(true)]
            + cursor_plan(c, c.window_origin.0, c.window_origin.1),
        None => fill_ops(plane_command(channel), byte, count),
    }
}

/// The display update sequence for the configured refresh mode.
pub open spec fn refresh_plan(c: Ssd1677Config) -> Seq<Op> {
    let bypass: Seq<u8> = if c.refresh_mode == Ssd1677RefreshMode::Partial {
        seq![0x00, 0x00]
    } else {
        seq![0x40, 0x00]
    };
    let mode_byte: u8 = match c.refresh_mode {
        Ssd1677RefreshMode::Full => 0xF7,
        Ssd1677RefreshMode::FastFull => 0xD7,
        Ssd1677RefreshMode::Partial => 0xFC,
    };
    cmd_data(DISPLAY_UPDATE_CTRL1, bypass) + (if c.refresh_mode == Ssd1677RefreshMode::FastFull {
        cmd_data(WRITE_TEMP_REG, seq![0x5A])
    } else {
        Seq::empty()
    }) + cmd_data(UPDATE_DISPLAY_CTRL2, seq![mode_byte]) + seq![
        Op::Command(MASTER_ACTIVATE),
        Op::WaitBusy(true),
    ]
}

/// SSD1677 Controller IC driver configuration.
#[derive(Debug, Clone, Copy)]
pub struct Ssd1677Controller {
    width: u32,
    height: u32,
    refresh_mode: Ssd1677RefreshMode,
    vcom: Option<u8>,
    gate_voltage: Option<u8>,
    custom_lut: Option<&'static [u8]>,
    ram_auto_fill: bool,
    /// Visible-space origin of the last window set, so the RAM address counter can be restored
    /// after a hardware fill sweep leaves it wherever it finished.
    window_origin: (u32, u32),
}

impl View for Ssd1677Controller {
    type V = Ssd1677Config;

    closed spec fn view(&self) -> Ssd1677Config {
        Ssd1677Config {
            width: self.width,
            height: self.height,
            refresh_mode: self.refresh_mode,
            vcom: self.vcom,
            gate_voltage: self.gate_voltage,
            custom_lut: self.custom_lut,
            ram_auto_fill: self.ram_auto_fill,
            window_origin: self.window_origin,
        }
    }
}

impl Ssd1677Controller {
    /// Creates a new SSD1677 controller configured for target dimensions.
    pub fn new(width: u32, height: u32) -> (r: Self)
        ensures
            r@ == default_config(width, height),
    {
        Self {
            width,
            height,
            refresh_mode: Ssd1677RefreshMode::Full,
            vcom: None,
            gate_voltage: None,
            custom_lut: None,
            ram_auto_fill: true,
            window_origin: (0, 0),
        }
    }

    /// Sets display refresh operating mode (builder method).
    pub fn with_refresh_mode(self, mode: Ssd1677RefreshMode) -> (r: Self)
        ensures
            r@ == (Ssd1677Config { refresh_mode: mode, ..self@ }),
    {
        let mut s = self;
        s.refresh_mode = mode;
        s
    }

    /// Sets display refresh operating mode.
    pub fn set_refresh_mode(&mut self, mode: Ssd1677RefreshMode)
        ensures
            final(self)@ == (Ssd1677Config { refresh_mode: mode, ..old(self)@ }),
    {
        self.refresh_mode = mode;
    }

    /// Returns current display refresh mode.
    pub fn refresh_mode(&self) -> (r: Ssd1677RefreshMode)
        ensures
            r == self@.refresh_mode,
    {
        self.refresh_mode
    }

    /// Builds a controller from a panel type, reading its dimensions and register configuration
    /// off [`EpdPanel`]. A panel declaring no overrides produces the same controller as `new`.
    pub fn for_panel<P: EpdPanel>() -> (r: Self)
        ensures
            r@ == (Ssd1677Config {
                vcom: P::VCOM,
                gate_voltage: P::GATE_VOLTAGE,
                custom_lut: P::CUSTOM_LUT,
                ..default_config(P::WIDTH, P::HEIGHT)
            }),
    {
        Self::new(P::WIDTH, P::HEIGHT).with_vcom(P::VCOM).with_gate_voltage(P::GATE_VOLTAGE).with_lut(
            P::CUSTOM_LUT,
        )
    }

    /// Sets the VCOM register (`0x2C`) written during init (builder method); `None` omits it.
    pub fn with_vcom(self, vcom: Option<u8>) -> (r: Self)
        ensures
            r@ == (Ssd1677Config { vcom, ..self@ }),
    {
        let mut s = self;
        s.vcom = vcom;
        s
    }

    /// Returns the configured VCOM override, if any.
    pub fn vcom(&self) -> (r: Option<u8>)
        ensures
            r == self@.vcom,
    {
        self.vcom
    }

    /// Sets the value written to register `0x03` (gate voltage) during init (builder method).
    pub fn with_gate_voltage(self, gate_voltage: Option<u8>) -> (r: Self)
        ensures
            r@ == (Ssd1677Config { gate_voltage, ..self@ }),
    {
        let mut s = self;
        s.gate_voltage = gate_voltage;
        s
    }

    /// Returns the configured gate voltage override, if any.
    pub fn gate_voltage(&self) -> (r: Option<u8>)
        ensures
            r == self@.gate_voltage,
    {
        self.gate_voltage
    }

    /// Sets the custom waveform LUT uploaded to `0x32` at the end of init (builder method).
    pub fn with_lut(self, lut: Option<&'static [u8]>) -> (r: Self)
        ensures
            r@ == (Ssd1677Config { custom_lut: lut, ..self@ }),
    {
        let mut s = self;
        s.custom_lut = lut;
        s
    }

    /// Returns the configured custom LUT, if any.
    pub fn custom_lut(&self) -> (r: Option<&'static [u8]>)
        ensures
            r == self@.custom_lut,
    {
        self.custom_lut
    }

    /// Enables or disables the RAM auto-fill fast path for uniform frame fills (builder method).
    ///
    /// Enabled by default. The `0x46`/`0x47` registers drive a regular-pattern generator, not a
    /// memset, so the fast path is taken only where the fill is provably uniform; see
    /// [`auto_fill_pattern`].
    pub fn with_ram_auto_fill(self, enabled: bool) -> (r: Self)
        ensures
            r@ == (Ssd1677Config { ram_auto_fill: enabled, ..self@ }),
    {
        let mut s = self;
        s.ram_auto_fill = enabled;
        s
    }

    /// Returns whether the RAM auto-fill fast path is enabled.
    pub fn ram_auto_fill(&self) -> (r: bool)
        ensures
            r == self@.ram_auto_fill,
    {
        self.ram_auto_fill
    }

    /// Number of RAM bytes one full colour plane occupies.
    fn plane_bytes(&self) -> (r: u64)
        ensures
            r == plane_bytes(self@),
    {
        let row = (self.width as u64 + 7) / 8;
        let rows = self.height as u64;
        assert(row * rows <= 0x2000_0000u64 * 0xFFFF_FFFFu64) by (nonlinear_arith)
            requires
                row <= 0x2000_0000u64,
                rows <= 0xFFFF_FFFFu64,
        ;
        row * rows
    }

    /// Encodes the `0x46` / `0x47` parameter byte for a uniform fill, or `None` when the hardware
    /// pattern generator cannot express this fill and the caller must stream instead.
    fn auto_fill_pattern(&self, byte: u8, count: usize) -> (r: Option<u8>)
        ensures
            r == auto_fill_pattern(self@, byte, count),
    {
        if !self.ram_auto_fill {
            return None;
        }
        // A[7]: the first step value. Only a solid 0x00 or 0xFF frame has no alternation.
        let first_step: u8 = if byte == 0x00 {
            0x00
        } else if byte == 0xFF {
            0x80
        } else {
            return None;
        };
        // The generator fills the whole RAM area, ignoring any byte count.
        if count as u64 != self.plane_bytes() {
            return None;
        }
        if self.height > MAX_STEP_HEIGHT || self.width > MAX_STEP_WIDTH {
            return None;
        }
        let pattern = first_step | (0b111 << 4) | 0b111;
        assert(pattern == if byte == 0xFF { 0xF7u8 } else { 0x77u8 }) by (bit_vector)
            requires
                pattern == first_step | (0b111u8 << 4u8) | 0b111u8,
                first_step == if byte == 0xFF { 0x80u8 } else { 0x00u8 },
        ;
        Some(pattern)
    }
}

fn plane_for(channel: ColorChannel) -> (r: u8)
    ensures
        r == plane_command(channel),
{
    match channel {
        ColorChannel::BlackWhite => WRITE_BW_DATA,
        _ => WRITE_RED_DATA,
    }
}

fn plan_window(ops: &mut Vec<BusOp>, height: u32, x_start: u32, y_start: u32, x_end: u32, y_end: u32)
    requires
        y_start <= y_end < height,
    ensures
        forall|c: Ssd1677Config|
            c.height == height ==> ops_of(final(ops)@) == ops_of(old(ops)@) + #[trigger] window_plan(
                c,
                x_start,
                y_start,
                x_end,
                y_end,
            ),
{
    let xs = x_start & !7u32;
    let xe = x_end | 7;
    assert(!7u32 == 0xFFFF_FFF8u32) by (bit_vector);
    // Y is reversed in RAM: the visible window maps to a decrementing RAM range.
    let h = y_end - y_start + 1;
    let yy = height - y_start - h;
    let yy_end = height - y_start - 1;

    let entry = [0x01u8];
    assert(entry@ =~= seq![0x01u8]);
    send_command_with_data(ops, DATA_ENTRY_MODE, &entry);
    let x = [low_byte(xs), high_byte(xs), low_byte(xe), high_byte(xe)];
    assert(x@ =~= le16(x_start & 0xFFFF_FFF8) + le16(x_end | 7));
    send_command_with_data(ops, SET_RAMXPOS, &x);
    let y = [low_byte(yy_end), high_byte(yy_end), low_byte(yy), high_byte(yy)];
    assert(y@ =~= le16((height - y_start - 1) as u32) + le16((height - y_end - 1) as u32));
    send_command_with_data(ops, SET_RAMYPOS, &y);
    assert forall|c: Ssd1677Config| c.height == height implies ops_of(final(ops)@) == ops_of(old(ops)@)
        + #[trigger] window_plan(c, x_start, y_start, x_end, y_end) by {
        assert(ops_of(final(ops)@) =~= ops_of(old(ops)@) + window_plan(c, x_start, y_start, x_end, y_end));
    }
}

fn plan_cursor(ops: &mut Vec<BusOp>, height: u32, x: u32, y: u32)
    requires
        y < height,
    ensures
        forall|c: Ssd1677Config|
            c.height == height ==> ops_of(final(ops)@) == ops_of(old(ops)@) + #[trigger] cursor_plan(
                c,
                x,
                y,
            ),
{
    let xx = x & !7u32;
    assert(!7u32 == 0xFFFF_FFF8u32) by (bit_vector);
    let yy_cursor = height - 1 - y;
    let xb = [low_byte(xx), high_byte(xx)];
    assert(xb@ =~= le16(x & 0xFFFF_FFF8));
    send_command_with_data(ops, SET_RAMXCNT, &xb);
    let yb = [low_byte(yy_cursor), high_byte(yy_cursor)];
    assert(yb@ =~= le16((height - 1 - y) as u32));
    send_command_with_data(ops, SET_RAMYCNT, &yb);
    assert forall|c: Ssd1677Config| c.height == height implies ops_of(final(ops)@) == ops_of(old(ops)@)
        + #[trigger] cursor_plan(c, x, y) by {
        assert(ops_of(final(ops)@) =~= ops_of(old(ops)@) + cursor_plan(c, x, y));
    }
}

impl EpdController for Ssd1677Controller {
    open spec fn init_ok(&self) -> bool {
        self@.width >= 1 && self@.height >= 1
    }

    open spec fn init_ops(&self) -> Seq<Op> {
        init_plan(self@)
    }

    closed spec fn after_init(&self) -> Self {
        Self { window_origin: (0, 0), ..*self }
    }

    open spec fn window_ok(&self, x_start: u32, y_start: u32, x_end: u32, y_end: u32) -> bool {
        y_start <= y_end < self@.height
    }

    open spec fn window_ops(&self, x_start: u32, y_start: u32, x_end: u32, y_end: u32) -> Seq<Op> {
        window_plan(self@, x_start, y_start, x_end, y_end)
    }

    closed spec fn with_window(&self, x_start: u32, y_start: u32, x_end: u32, y_end: u32) -> Self {
        Self { window_origin: (x_start, y_start), ..*self }
    }

    open spec fn cursor_ok(&self, x: u32, y: u32) -> bool {
        y < self@.height
    }

    open spec fn cursor_ops(&self, x: u32, y: u32) -> Seq<Op> {
        cursor_plan(self@, x, y)
    }

    open spec fn frame_ops(&self, channel: ColorChannel, data: Seq<u8>) -> Seq<Op> {
        cmd_data(plane_command(channel), data)
    }

    open spec fn pattern_ok(&self, byte: u8, count: usize) -> bool {
        auto_fill_pattern(self@, byte, count) is Some ==> self@.window_origin.1 < self@.height
    }

    open spec fn pattern_ops(&self, channel: ColorChannel, byte: u8, count: usize) -> Seq<Op> {
        pattern_plan(self@, channel, byte, count)
    }

    open spec fn refresh_ok(&self) -> bool {
        true
    }

    open spec fn refresh_ops(&self) -> Seq<Op> {
        refresh_plan(self@)
    }

    open spec fn sleep_ops(&self) -> Seq<Op> {
        cmd_data(DEEP_SLEEP_MODE, seq![0x01])
    }

    /// Also returns the RAM window origin to the panel's corner.
    fn can_init(&self) -> (r: bool) {
        self.width >= 1 && self.height >= 1
    }

    fn can_set_window(&self, x_start: u32, y_start: u32, x_end: u32, y_end: u32) -> (r: bool) {
        y_start <= y_end && y_end < self.height
    }

    fn can_set_cursor(&self, x: u32, y: u32) -> (r: bool) {
        y < self.height
    }

    fn can_fill(&self, byte: u8, count: usize) -> (r: bool) {
        match self.auto_fill_pattern(byte, count) {
            Some(_) => self.window_origin.1 < self.height,
            None => true,
        }
    }

    fn can_refresh(&self) -> (r: bool) {
        true
    }

    fn init_sequence(&mut self) -> (ops: Vec<BusOp>)
        ensures
            final(self)@ == (Ssd1677Config { window_origin: (0, 0), ..old(self)@ }),
    {
        let mut ops: Vec<BusOp> = Vec::new();
        push_op(&mut ops, BusOp::HardReset(10));
        send_command(&mut ops, SW_RESET);
        push_op(&mut ops, BusOp::DelayMs(10));

        let temp = [0x80u8];
        assert(temp@ =~= seq![0x80u8]);
        send_command_with_data(&mut ops, TEMP_CONTROL, &temp);
        let booster = [0xAEu8, 0xC7, 0xC3, 0xC0, 0x80];
        assert(booster@ =~= seq![0xAEu8, 0xC7, 0xC3, 0xC0, 0x80]);
        send_command_with_data(&mut ops, BOOSTER_SOFT_START, &booster);

        let h = self.height - 1;
        let drv = [low_byte(h), high_byte(h), 0x02];
        assert(drv@ =~= seq![lo8(h), hi8(h), 0x02u8]);
        send_command_with_data(&mut ops, DRIVER_CONTROL, &drv);
        let border = [0x01u8];
        assert(border@ =~= seq![0x01u8]);
        send_command_with_data(&mut ops, BORDER_WAVEFORM_CONTROL, &border);

        // Panel-declared analog overrides, VCOM then gate voltage.
        plan_optional_register(&mut ops, WRITE_VCOM_REGISTER, self.vcom);
        plan_optional_register(&mut ops, GATE_VOLTAGE, self.gate_voltage);

        // Full-frame RAM area; the window also asserts the Y-decrement data entry mode.
        let ghost c = self@;
        self.window_origin = (0, 0);
        plan_window(&mut ops, self.height, 0, 0, self.width - 1, h);
        plan_cursor(&mut ops, self.height, 0, 0);

        // Custom waveform upload goes last.
        plan_optional_block(&mut ops, WRITE_LUT_REGISTER, self.custom_lut);
        assert(ops_of(ops@) =~= init_plan(c));
        ops
    }

    /// Also records the window's origin, where a fill re-seats the RAM cursor.
    fn set_window(&mut self, x_start: u32, y_start: u32, x_end: u32, y_end: u32) -> (ops: Vec<
        BusOp,
    >)
        ensures
            final(self)@ == (Ssd1677Config { window_origin: (x_start, y_start), ..old(self)@ }),
    {
        let mut ops: Vec<BusOp> = Vec::new();
        let ghost c = self@;
        self.window_origin = (x_start, y_start);
        plan_window(&mut ops, self.height, x_start, y_start, x_end, y_end);
        assert(ops_of(ops@) =~= window_plan(c, x_start, y_start, x_end, y_end));
        ops
    }

    fn set_cursor(&mut self, x: u32, y: u32) -> (ops: Vec<BusOp>) {
        let mut ops: Vec<BusOp> = Vec::new();
        plan_cursor(&mut ops, self.height, x, y);
        assert(ops_of(ops@) =~= cursor_plan(self@, x, y));
        ops
    }

    fn write_frame(&mut self, channel: ColorChannel, data: &[u8]) -> (ops: Vec<BusOp>) {
        let mut ops: Vec<BusOp> = Vec::new();
        send_command_with_data(&mut ops, plane_for(channel), data);
        assert(ops_of(ops@) =~= cmd_data(plane_command(channel), data@));
        ops
    }

    fn write_frame_pattern(&mut self, channel: ColorChannel, byte: u8, count: usize) -> (ops: Vec<
        BusOp,
    >) {
        let mut ops: Vec<BusOp> = Vec::new();
        let is_bw = match channel {
            ColorChannel::BlackWhite => true,
            _ => false,
        };
        // Fast path: let the controller paint the plane itself.
        match self.auto_fill_pattern(byte, count) {
            Some(pattern) => {
                let auto_cmd = if is_bw {
                    AUTO_WRITE_BW_RAM
                } else {
                    AUTO_WRITE_RED_RAM
                };
                let data = [pattern];
                assert(data@ =~= seq![pattern]);
                send_command_with_data(&mut ops, auto_cmd, &data);
                // BUSY is held for the duration of the sweep.
                push_op(&mut ops, BusOp::WaitBusy(true));
                // The sweep leaves the address counter wherever it finished: re-seat it.
                let (x, y) = self.window_origin;
                plan_cursor(&mut ops, self.height, x, y);
                assert(ops_of(ops@) =~= pattern_plan(self@, channel, byte, count));
            },
            None => {
                plan_fill(&mut ops, plane_for(channel), byte, count);
                assert(ops_of(ops@) =~= pattern_plan(self@, channel, byte, count));
            },
        }
        ops
    }

    fn trigger_refresh(&mut self) -> (ops: Vec<BusOp>) {
        let mut ops: Vec<BusOp> = Vec::new();
        let bypass: [u8; 2] = match self.refresh_mode {
            Ssd1677RefreshMode::Partial => [0x00, 0x00],
            _ => [0x40, 0x00],
        };
        let ghost expect_bypass: Seq<u8> = if self@.refresh_mode == Ssd1677RefreshMode::Partial {
            seq![0x00u8, 0x00u8]
        } else {
            seq![0x40u8, 0x00u8]
        };
        assert(bypass@ =~= expect_bypass);
        send_command_with_data(&mut ops, DISPLAY_UPDATE_CTRL1, &bypass);
        if self.refresh_mode == Ssd1677RefreshMode::FastFull {
            let temp = [0x5Au8];
            assert(temp@ =~= seq![0x5Au8]);
            send_command_with_data(&mut ops, WRITE_TEMP_REG, &temp);
        }
        let mode_byte: u8 = match self.refresh_mode {
            Ssd1677RefreshMode::Full => 0xF7,
            Ssd1677RefreshMode::FastFull => 0xD7,
            Ssd1677RefreshMode::Partial => 0xFC,
        };
        let mode = [mode_byte];
        assert(mode@ =~= seq![mode_byte]);
        send_command_with_data(&mut ops, UPDATE_DISPLAY_CTRL2, &mode);
        send_command(&mut ops, MASTER_ACTIVATE);
        push_op(&mut ops, BusOp::WaitBusy(true));
        assert(ops_of(ops@) =~= refresh_plan(self@));
        ops
    }

    fn sleep(&mut self) -> (ops: Vec<BusOp>) {
        let mut ops: Vec<BusOp> = Vec::new();
        let data = [0x01u8];
        assert(data@ =~= seq![0x01u8]);
        send_command_with_data(&mut ops, DEEP_SLEEP_MODE, &data);
        assert(ops_of(ops@) =~= cmd_data(DEEP_SLEEP_MODE, seq![0x01]));
        ops
    }
}


/// The SSD1677 addresses its RAM in pixels with X rounded to whole bytes and Y counted from the
/// bottom. Selecting a window sends the data entry mode `0x11 [01]`, the X range `0x44` from
/// `x_start` rounded down to a byte boundary to `x_end` rounded up to a byte's last pixel, and
/// the Y range `0x45` from row `height - 1 - y_start` to row `height - 1 - y_end`; placing the
/// cursor sends X `0x4E` rounded down to a byte boundary and Y `0x4F` as row `height - 1 - y`;
/// every value two bytes, low byte first.
pub proof fn lemma_ssd1677_addressing(c: Ssd1677Controller, xs: u32, ys: u32, xe: u32, ye: u32)
    ensures
        ys <= ye < c@.height ==> ({
            let ops = c.window_ops(xs, ys, xe, ye);
            &&& ops.len() == 6
            &&& ops[0] == Op::Command(0x11) && ops[1] == Op::Data(seq![0x01u8])
            &&& ops[2] == Op::Command(0x44)
            &&& ops[3] matches Op::Data(d) && d.len() == 4 && reads_le16(
                d.subrange(0, 2),
                (xs - xs % 8) as u32,
            ) && reads_le16(d.subrange(2, 4), (xe - xe % 8 + 7) as u32)
            &&& ops[4] == Op::Command(0x45)
            &&& ops[5] matches Op::Data(d) && d.len() == 4 && reads_le16(
                d.subrange(0, 2),
                (c@.height - 1 - ys) as u32,
            ) && reads_le16(d.subrange(2, 4), (c@.height - 1 - ye) as u32)
        }),
        ys < c@.height ==> ({
            let ops = c.cursor_ops(xs, ys);
            &&& ops.len() == 4
            &&& ops[0] == Op::Command(0x4E)
            &&& ops[1] matches Op::Data(d) && reads_le16(d, (xs - xs % 8) as u32)
            &&& ops[2] == Op::Command(0x4F)
            &&& ops[3] matches Op::Data(d) && reads_le16(d, (c@.height - 1 - ys) as u32)
        }),
{
    let h = c@.height;
    assert(xs & 0xFFFF_FFF8 == (xs - xs % 8) as u32) by (bit_vector);
    assert(xe | 7 == (xe - xe % 8 + 7) as u32) by (bit_vector);
    lemma_16_bit_encodings_read_back(xs & 0xFFFF_FFF8);
    lemma_16_bit_encodings_read_back(xe | 7);
    if ys <= ye < h {
        lemma_16_bit_encodings_read_back((h - ys - 1) as u32);
        lemma_16_bit_encodings_read_back((h - ye - 1) as u32);
        let xr = le16(xs & 0xFFFF_FFF8) + le16(xe | 7);
        let yr = le16((h - ys - 1) as u32) + le16((h - ye - 1) as u32);
        assert(xr.subrange(0, 2) =~= le16(xs & 0xFFFF_FFF8));
        assert(xr.subrange(2, 4) =~= le16(xe | 7));
        assert(yr.subrange(0, 2) =~= le16((h - ys - 1) as u32));
        assert(yr.subrange(2, 4) =~= le16((h - ye - 1) as u32));
        let ops = c.window_ops(xs, ys, xe, ye);
        assert(ops[3] == Op::Data(xr));
        assert(ops[5] == Op::Data(yr));
    }
    if ys < h {
        lemma_16_bit_encodings_read_back((h - 1 - ys) as u32);
        let ops = c.cursor_ops(xs, ys);
        assert(ops[1] == Op::Data(le16(xs & 0xFFFF_FFF8)));
        assert(ops[3] == Op::Data(le16((h - 1 - ys) as u32)));
    }
}


/// The SSD1677 sleeps with deep sleep mode `0x10 [01]` and nothing else.
pub proof fn lemma_ssd1677_sleep(c: Ssd1677Controller)
    ensures
        c.sleep_ops() == seq![Op::Command(0x10), Op::Data(seq![0x01u8])],
{
    assert(c.sleep_ops() =~= seq![Op::Command(0x10), Op::Data(seq![0x01u8])]);
}


/// An SSD1677 refresh sets display update control 1 `0x21` (`40 00`, red RAM bypassed, except
/// `00 00` for a partial refresh), on a fast full refresh the temperature override
/// `0x1A [5A]`, then control 2 `0x22` with the mode's sequence byte (`0xF7` full, `0xD7` fast
/// full, `0xFC` partial), master activation `0x20`, and a wait for BUSY.
pub proof fn lemma_ssd1677_refresh(c: Ssd1677Controller)
    ensures
        ({
            let ops = c.refresh_ops();
            let mode = c@.refresh_mode;
            let k: int = if mode == Ssd1677RefreshMode::FastFull { 4 } else { 2 };
            &&& ops.len() == k + 4
            &&& ops[0] == Op::Command(0x21)
            &&& ops[1] == Op::Data(
                if mode == Ssd1677RefreshMode::Partial {
                    seq![0x00u8, 0x00]
                } else {
                    seq![0x40u8, 0x00]
                },
            )
            &&& mode == Ssd1677RefreshMode::FastFull ==> ops[2] == Op::Command(0x1A) && ops[3]
                == Op::Data(seq![0x5Au8])
            &&& ops[k] == Op::Command(0x22)
            &&& ops[k + 1] == Op::Data(
                seq![
                    if mode == Ssd1677RefreshMode::Full {
                        0xF7u8
                    } else if mode == Ssd1677RefreshMode::FastFull {
                        0xD7u8
                    } else {
                        0xFCu8
                    },
                ],
            )
            &&& ops[k + 2] == Op::Command(0x20) && ops[k + 3] == Op::WaitBusy(true)
        }),
{
}

} // verus!
