//! SSD168x (SSD1680 & SSD1681) E-Paper Display Controller.
//!
//! Both ICs share one register table; the SSD1680 additionally writes Display Update Control 1
//! during init and wraps every display update in an explicit power-on/power-off envelope.

use vstd::prelude::*;
use crate::bus::{BusOp, Op, cmd_data, ops_of, push_op, send_command, send_command_with_data};
use crate::controllers::common::{
    fill_ops, high_byte, hi8, le16, lemma_16_bit_encodings_read_back, lo8, low_byte, reads_le16, optional_block, optional_register, plan_fill,
    plan_optional_block, plan_optional_register,
};
use crate::traits::{ColorChannel, EpdController, EpdPanel};

verus! {

/// Driver output control
pub const DRIVER_CONTROL: u8 = 0x01;
/// Gate driving voltage control
pub const GATE_VOLTAGE: u8 = 0x03;
/// Deep sleep mode entry
pub const DEEP_SLEEP_MODE: u8 = 0x10;
/// Data entry mode setting
pub const DATA_ENTRY_MODE: u8 = 0x11;
/// Software reset command
pub const SW_RESET: u8 = 0x12;
/// Temperature sensor control
pub const TEMP_CONTROL: u8 = 0x18;
/// Write to the temperature register
pub const WRITE_TEMP_REG: u8 = 0x1A;
/// Master activation command
pub const MASTER_ACTIVATE: u8 = 0x20;
/// Display update control 1
pub const DISPLAY_UPDATE_CTRL1: u8 = 0x21;
/// Display update control 2
pub const UPDATE_DISPLAY_CTRL2: u8 = 0x22;
/// Write Black/White RAM data
pub const WRITE_BW_DATA: u8 = 0x24;
/// Write Red/Yellow RAM data
pub const WRITE_RED_DATA: u8 = 0x26;
/// Write VCOM register
pub const WRITE_VCOM_REGISTER: u8 = 0x2C;
/// Write LUT register (custom waveform upload)
pub const WRITE_LUT_REGISTER: u8 = 0x32;
/// Border waveform control
pub const BORDER_WAVEFORM_CONTROL: u8 = 0x3C;
/// Set RAM X address start/end position
pub const SET_RAMXPOS: u8 = 0x44;
/// Set RAM Y address start/end position
pub const SET_RAMYPOS: u8 = 0x45;
/// Set RAM X address counter
pub const SET_RAMXCNT: u8 = 0x4E;
/// Set RAM Y address counter
pub const SET_RAMYCNT: u8 = 0x4F;

/// SSD168x IC variant family.
#[derive(Debug, Clone, Copy, PartialEq, Eq, Structural)]
pub enum Ssd168xVariant {
    /// SSD1680 IC variant (176×296 RAM, explicit power-stage commands 0xE0/0x83).
    Ssd1680,
    /// SSD1681 IC variant (200×200 RAM, direct display update trigger).
    Ssd1681,
}

/// Display refresh operating mode for SSD168x controllers.
#[derive(Debug, Clone, Copy, PartialEq, Eq, Structural)]
pub enum Ssd168xRefreshMode {
    /// Full display update using the panel's OTP/full waveform LUT (`UPDATE_DISPLAY_CTRL2 = 0xF7`).
    Full,
    /// Partial display update using the controller's built-in fast LUT (`0xFC`).
    Partial,
    /// Full update on the OTP LUT reloaded at a forced 90 °C (`0xC7`), preceded by the
    /// temperature override: load the sensor (`0xB1`), write `0x5A 0x00` to `0x1A`, reload (`0x91`).
    FastFull,
    /// Load the previous-frame buffer before a run of partial updates (`0xF4`); monochrome only.
    BaseMap,
}

/// Backwards-compatible type alias for SSD1680 refresh mode.
pub type Ssd1680RefreshMode = Ssd168xRefreshMode;

/// Backwards-compatible type alias for SSD1681 refresh mode.
pub type Ssd1681RefreshMode = Ssd168xRefreshMode;

/// The `UPDATE_DISPLAY_CTRL2` byte that selects a refresh mode's display update.
pub open spec fn mode_byte(mode: Ssd168xRefreshMode) -> u8 {
    match mode {
        Ssd168xRefreshMode::Full => 0xF7,
        Ssd168xRefreshMode::Partial => 0xFC,
        Ssd168xRefreshMode::FastFull => 0xC7,
        Ssd168xRefreshMode::BaseMap => 0xF4,
    }
}

/// One display update: set `UPDATE_DISPLAY_CTRL2`, activate, and wait for BUSY to clear.
pub open spec fn activation(ctrl2: u8) -> Seq<Op> {
    cmd_data(UPDATE_DISPLAY_CTRL2, seq![ctrl2]) + seq![
        Op::Command(MASTER_ACTIVATE),
        Op::DelayMs(1),
        Op::WaitBusyWithDelay(true),
    ]
}

/// The temperature override ahead of a `FastFull` update; nothing for the other modes.
pub open spec fn fast_preamble(mode: Ssd168xRefreshMode) -> Seq<Op> {
    if mode == Ssd168xRefreshMode::FastFull {
        activation(0xB1) + cmd_data(WRITE_TEMP_REG, seq![0x5A, 0x00]) + activation(0x91)
    } else {
        Seq::empty()
    }
}

/// The RAM plane command for a colour channel: Black/White on `0x24`, every colour on `0x26`.
pub open spec fn plane_command(channel: ColorChannel) -> u8 {
    if channel == ColorChannel::BlackWhite {
        WRITE_BW_DATA
    } else {
        WRITE_RED_DATA
    }
}

/// The configuration an SSD168x controller drives its panel with.
#[derive(Debug, Clone, Copy)]
pub struct Ssd168xConfig {
    /// Panel width in pixels.
    pub width: u32,
    /// Panel height in pixels.
    pub height: u32,
    /// IC variant.
    pub variant: Ssd168xVariant,
    /// Refresh mode.
    pub refresh_mode: Ssd168xRefreshMode,
    /// VCOM register override written during init.
    pub vcom: Option<u8>,
    /// Gate driving voltage override written during init.
    pub gate_voltage: Option<u8>,
    /// Custom waveform LUT uploaded at the end of init.
    pub custom_lut: Option<&'static [u8]>,
}

/// The configuration of a freshly constructed controller: Full refresh, no overrides.
pub open spec fn default_config(width: u32, height: u32, variant: Ssd168xVariant) -> Ssd168xConfig {
    Ssd168xConfig {
        width,
        height,
        variant,
        refresh_mode: Ssd168xRefreshMode::Full,
        vcom: None,
        gate_voltage: None,
        custom_lut: None,
    }
}

/// The initialisation sequence.
pub open spec fn init_plan(c: Ssd168xConfig) -> Seq<Op> {
    let h = (c.height - 1) as u32;
    seq![Op::HardReset(10), Op::Command(SW_RESET), Op::DelayMs(1), Op::WaitBusyWithDelay(true)]
        + cmd_data(DRIVER_CONTROL, seq![lo8(h), hi8(h), 0x00])
        + cmd_data(BORDER_WAVEFORM_CONTROL, seq![0x05])
        + optional_register(WRITE_VCOM_REGISTER, c.vcom)
        + optional_register(GATE_VOLTAGE, c.gate_voltage)
        + (if c.variant == Ssd168xVariant::Ssd1680 {
        cmd_data(DISPLAY_UPDATE_CTRL1, seq![0x00, 0x80])
    } else {
        Seq::empty()
    }) + cmd_data(TEMP_CONTROL, seq![0x80]) + cmd_data(DATA_ENTRY_MODE, seq![0x03])
        + Ssd168xController::ram_window(0, 0, (c.width - 1) as u32, h) + Ssd168xController::ram_cursor(0, 0)
        + optional_block(WRITE_LUT_REGISTER, c.custom_lut) + seq![
        Op::DelayMs(1),
        Op::WaitBusyWithDelay(true),
    ]
}

/// The display update sequence for the configured variant and refresh mode.
pub open spec fn refresh_plan(c: Ssd168xConfig) -> Seq<Op> {
    let mode = c.refresh_mode;
    if c.variant == Ssd168xVariant::Ssd1680 {
        fast_preamble(mode) + activation(0xE0) + activation(mode_byte(mode)) + activation(0x83)
    } else {
        fast_preamble(mode) + activation(mode_byte(mode))
    }
}

/// Generic SSD168x (SSD1680 / SSD1681) Controller IC driver.
#[derive(Debug, Clone, Copy)]
pub struct Ssd168xController {
    width: u32,
    height: u32,
    variant: Ssd168xVariant,
    refresh_mode: Ssd168xRefreshMode,
    vcom: Option<u8>,
    gate_voltage: Option<u8>,
    custom_lut: Option<&'static [u8]>,
}

impl View for Ssd168xController {
    type V = Ssd168xConfig;

    closed spec fn view(&self) -> Ssd168xConfig {
        Ssd168xConfig {
            width: self.width,
            height: self.height,
            variant: self.variant,
            refresh_mode: self.refresh_mode,
            vcom: self.vcom,
            gate_voltage: self.gate_voltage,
            custom_lut: self.custom_lut,
        }
    }
}

impl Ssd168xController {
    /// Creates a new SSD1680 controller instance configured for target display dimensions.
    pub fn new_ssd1680(width: u32, height: u32) -> (r: Self)
        ensures
            r@ == default_config(width, height, Ssd168xVariant::Ssd1680),
    {
        Self::new(width, height, Ssd168xVariant::Ssd1680)
    }

    /// Creates a new SSD1681 controller instance configured for target display dimensions.
    pub fn new_ssd1681(width: u32, height: u32) -> (r: Self)
        ensures
            r@ == default_config(width, height, Ssd168xVariant::Ssd1681),
    {
        Self::new(width, height, Ssd168xVariant::Ssd1681)
    }

    /// Creates a new SSD168x controller with target dimensions and variant.
    pub fn new(width: u32, height: u32, variant: Ssd168xVariant) -> (r: Self)
        ensures
            r@ == default_config(width, height, variant),
    {
        Self {
            width,
            height,
            variant,
            refresh_mode: Ssd168xRefreshMode::Full,
            vcom: None,
            gate_voltage: None,
            custom_lut: None,
        }
    }

    /// Builds a controller from a panel type, reading its dimensions and register overrides
    /// (`VCOM`, `GATE_VOLTAGE`, `CUSTOM_LUT`) off [`EpdPanel`].
    pub fn for_panel<P: EpdPanel>(variant: Ssd168xVariant) -> (r: Self)
        ensures
            r@ == (Ssd168xConfig {
                vcom: P::VCOM,
                gate_voltage: P::GATE_VOLTAGE,
                custom_lut: P::CUSTOM_LUT,
                ..default_config(P::WIDTH, P::HEIGHT, variant)
            }),
    {
        Self::new(P::WIDTH, P::HEIGHT, variant).with_vcom(P::VCOM).with_gate_voltage(
            P::GATE_VOLTAGE,
        ).with_lut(P::CUSTOM_LUT)
    }

    /// Sets driver IC variant (builder method).
    pub fn with_variant(self, variant: Ssd168xVariant) -> (r: Self)
        ensures
            r@ == (Ssd168xConfig { variant, ..self@ }),
    {
        let mut s = self;
        s.variant = variant;
        s
    }

    /// Sets driver IC variant.
    pub fn set_variant(&mut self, variant: Ssd168xVariant)
        ensures
            final(self)@ == (Ssd168xConfig { variant, ..old(self)@ }),
    {
        self.variant = variant;
    }

    /// Returns current driver IC variant.
    pub fn variant(&self) -> (r: Ssd168xVariant)
        ensures
            r == self@.variant,
    {
        self.variant
    }

    /// Sets display refresh operating mode (builder method).
    pub fn with_refresh_mode(self, mode: Ssd168xRefreshMode) -> (r: Self)
        ensures
            r@ == (Ssd168xConfig { refresh_mode: mode, ..self@ }),
    {
        let mut s = self;
        s.refresh_mode = mode;
        s
    }

    /// Sets display refresh operating mode.
    pub fn set_refresh_mode(&mut self, mode: Ssd168xRefreshMode)
        ensures
            final(self)@ == (Ssd168xConfig { refresh_mode: mode, ..old(self)@ }),
    {
        self.refresh_mode = mode;
    }

    /// Returns current display refresh mode.
    pub fn refresh_mode(&self) -> (r: Ssd168xRefreshMode)
        ensures
            r == self@.refresh_mode,
    {
        self.refresh_mode
    }

    /// Sets the VCOM register (`0x2C`) written during init (builder method); `None` omits it.
    pub fn with_vcom(self, vcom: Option<u8>) -> (r: Self)
        ensures
            r@ == (Ssd168xConfig { vcom, ..self@ }),
    {
        let mut s = self;
        s.vcom = vcom;
        s
    }

    /// Returns the configured VCOM override, if any.
    pub fn vcom(&self) -> (r: Option<u8>)
        ensures
            r == self@.vcom,
    {
        self.vcom
    }

    /// Sets the value written to register `0x03` (gate voltage) during init (builder method).
    pub fn with_gate_voltage(self, gate_voltage: Option<u8>) -> (r: Self)
        ensures
            r@ == (Ssd168xConfig { gate_voltage, ..self@ }),
    {
        let mut s = self;
        s.gate_voltage = gate_voltage;
        s
    }

    /// Returns the configured gate voltage override, if any.
    pub fn gate_voltage(&self) -> (r: Option<u8>)
        ensures
            r == self@.gate_voltage,
    {
        self.gate_voltage
    }

    /// Sets the custom waveform LUT uploaded to `0x32` at the end of init (builder method).
    pub fn with_lut(self, lut: Option<&'static [u8]>) -> (r: Self)
        ensures
            r@ == (Ssd168xConfig { custom_lut: lut, ..self@ }),
    {
        let mut s = self;
        s.custom_lut = lut;
        s
    }

    /// Returns the configured custom LUT, if any.
    pub fn custom_lut(&self) -> (r: Option<&'static [u8]>)
        ensures
            r == self@.custom_lut,
    {
        self.custom_lut
    }

    /// The operations that select a RAM window: X by byte index, Y as two 16-bit values.
    pub open spec fn ram_window(x_start: u32, y_start: u32, x_end: u32, y_end: u32) -> Seq<Op> {
        cmd_data(SET_RAMXPOS, seq![(x_start / 8) as u8, (x_end / 8) as u8]) + cmd_data(
            SET_RAMYPOS,
            le16(y_start) + le16(y_end),
        )
    }

    /// The operations that place the RAM address counters.
    pub open spec fn ram_cursor(x: u32, y: u32) -> Seq<Op> {
        cmd_data(SET_RAMXCNT, seq![(x / 8) as u8]) + cmd_data(SET_RAMYCNT, le16(y))
    }

}

/// Whether `ops` place the RAM cursor at `(x, y)`: the X counter (`0x4E`) as the byte column
/// `x / 8`, the Y counter (`0x4F`) as two bytes that read back `y`, low byte first.
pub open spec fn places_cursor(ops: Seq<Op>, x: u32, y: u32) -> bool {
    &&& ops.len() == 4
    &&& ops[0] == Op::Command(0x4E)
    &&& ops[1] == Op::Data(seq![((x / 8) % 256) as u8])
    &&& ops[2] == Op::Command(0x4F)
    &&& ops[3] matches Op::Data(d) && reads_le16(d, y)
}

/// Whether `ops` select the RAM window from `(xs, ys)` to `(xe, ye)`: the X range (`0x44`) as
/// the byte columns `xs / 8` and `xe / 8`, the Y range (`0x45`) as the start and end rows,
/// each two bytes that read back the row, low byte first.
pub open spec fn selects_window(ops: Seq<Op>, xs: u32, ys: u32, xe: u32, ye: u32) -> bool {
    &&& ops.len() == 4
    &&& ops[0] == Op::Command(0x44)
    &&& ops[1] == Op::Data(seq![((xs / 8) % 256) as u8, ((xe / 8) % 256) as u8])
    &&& ops[2] == Op::Command(0x45)
    &&& ops[3] matches Op::Data(d) && d.len() == 4 && reads_le16(d.subrange(0, 2), ys)
        && reads_le16(d.subrange(2, 4), ye)
}

/// On every SSD168x controller the cursor and window registers carry the coordinates they are
/// given: X as a byte column, Y as a 16-bit row sent low byte first.
pub proof fn lemma_ram_addressing(
    c: Ssd168xController,
    c80: Ssd1680Controller,
    c81: Ssd1681Controller,
    x: u32,
    y: u32,
    xe: u32,
    ye: u32,
)
    ensures
        places_cursor(c.cursor_ops(x, y), x, y),
        places_cursor(c80.cursor_ops(x, y), x, y),
        places_cursor(c81.cursor_ops(x, y), x, y),
        selects_window(c.window_ops(x, y, xe, ye), x, y, xe, ye),
        selects_window(c80.window_ops(x, y, xe, ye), x, y, xe, ye),
        selects_window(c81.window_ops(x, y, xe, ye), x, y, xe, ye),
{
    lemma_16_bit_encodings_read_back(y);
    lemma_16_bit_encodings_read_back(ye);
    assert(((x / 8) as u8) == ((x / 8) % 256) as u8) by (bit_vector);
    assert(((xe / 8) as u8) == ((xe / 8) % 256) as u8) by (bit_vector);
    let cur = Ssd168xController::ram_cursor(x, y);
    assert(cur[3] == Op::Data(le16(y)));
    let win = Ssd168xController::ram_window(x, y, xe, ye);
    assert(win[3] == Op::Data(le16(y) + le16(ye)));
    assert((le16(y) + le16(ye)).subrange(0, 2) =~= le16(y));
    assert((le16(y) + le16(ye)).subrange(2, 4) =~= le16(ye));
}

fn plan_activation(ops: &mut Vec<BusOp>, ctrl2: u8)
    ensures
        ops_of(final(ops)@) == ops_of(old(ops)@) + activation(ctrl2),
{
    let data = [ctrl2];
    assert(data@ =~= seq![ctrl2]);
    send_command_with_data(ops, UPDATE_DISPLAY_CTRL2, &data);
    send_command(ops, MASTER_ACTIVATE);
    push_op(ops, BusOp::DelayMs(1));
    push_op(ops, BusOp::WaitBusyWithDelay(true));
    assert(ops_of(final(ops)@) =~= ops_of(old(ops)@) + activation(ctrl2));
}

fn plan_fast_preamble(ops: &mut Vec<BusOp>, mode: Ssd168xRefreshMode)
    ensures
        ops_of(final(ops)@) == ops_of(old(ops)@) + fast_preamble(mode),
{
    if mode == Ssd168xRefreshMode::FastFull {
        plan_activation(ops, 0xB1);
        let data = [0x5Au8, 0x00u8];
        assert(data@ =~= seq![0x5Au8, 0x00u8]);
        send_command_with_data(ops, WRITE_TEMP_REG, &data);
        plan_activation(ops, 0x91);
        assert(ops_of(final(ops)@) =~= ops_of(old(ops)@) + fast_preamble(mode));
    } else {
        assert(ops_of(old(ops)@) + fast_preamble(mode) =~= ops_of(old(ops)@));
    }
}

fn refresh_mode_byte(mode: Ssd168xRefreshMode) -> (r: u8)
    ensures
        r == mode_byte(mode),
{
    match mode {
        Ssd168xRefreshMode::Full => 0xF7,
        Ssd168xRefreshMode::Partial => 0xFC,
        Ssd168xRefreshMode::FastFull => 0xC7,
        Ssd168xRefreshMode::BaseMap => 0xF4,
    }
}

fn plane_for(channel: ColorChannel) -> (r: u8)
    ensures
        r == plane_command(channel),
{
    match channel {
        ColorChannel::BlackWhite => WRITE_BW_DATA,
        _ => WRITE_RED_DATA,
    }
}

fn plan_ram_window(ops: &mut Vec<BusOp>, x_start: u32, y_start: u32, x_end: u32, y_end: u32)
    ensures
        ops_of(final(ops)@) == ops_of(old(ops)@) + Ssd168xController::ram_window(
            x_start,
            y_start,
            x_end,
            y_end,
        ),
{
    let x = [(x_start / 8) as u8, (x_end / 8) as u8];
    assert(x@ =~= seq![(x_start / 8) as u8, (x_end / 8) as u8]);
    send_command_with_data(ops, SET_RAMXPOS, &x);
    let y = [low_byte(y_start), high_byte(y_start), low_byte(y_end), high_byte(y_end)];
    assert(y@ =~= le16(y_start) + le16(y_end));
    send_command_with_data(ops, SET_RAMYPOS, &y);
    assert(ops_of(final(ops)@) =~= ops_of(old(ops)@) + Ssd168xController::ram_window(
        x_start,
        y_start,
        x_end,
        y_end,
    ));
}

fn plan_ram_cursor(ops: &mut Vec<BusOp>, x: u32, y: u32)
    ensures
        ops_of(final(ops)@) == ops_of(old(ops)@) + Ssd168xController::ram_cursor(x, y),
{
    let xb = [(x / 8) as u8];
    assert(xb@ =~= seq![(x / 8) as u8]);
    send_command_with_data(ops, SET_RAMXCNT, &xb);
    let yb = [low_byte(y), high_byte(y)];
    assert(yb@ =~= le16(y));
    send_command_with_data(ops, SET_RAMYCNT, &yb);
    assert(ops_of(final(ops)@) =~= ops_of(old(ops)@) + Ssd168xController::ram_cursor(x, y));
}

impl EpdController for Ssd168xController {
    open spec fn init_ok(&self) -> bool {
        self@.width >= 1 && self@.height >= 1
    }

    open spec fn init_ops(&self) -> Seq<Op> {
        init_plan(self@)
    }

    open spec fn after_init(&self) -> Self {
        *self
    }

    open spec fn window_ok(&self, x_start: u32, y_start: u32, x_end: u32, y_end: u32) -> bool {
        true
    }

    open spec fn window_ops(&self, x_start: u32, y_start: u32, x_end: u32, y_end: u32) -> Seq<Op> {
        Self::ram_window(x_start, y_start, x_end, y_end)
    }

    open spec fn with_window(&self, x_start: u32, y_start: u32, x_end: u32, y_end: u32) -> Self {
        *self
    }

    open spec fn cursor_ok(&self, x: u32, y: u32) -> bool {
        true
    }

    open spec fn cursor_ops(&self, x: u32, y: u32) -> Seq<Op> {
        Self::ram_cursor(x, y)
    }

    open spec fn frame_ops(&self, channel: ColorChannel, data: Seq<u8>) -> Seq<Op> {
        cmd_data(plane_command(channel), data)
    }

    open spec fn pattern_ok(&self, byte: u8, count: usize) -> bool {
        true
    }

    open spec fn pattern_ops(&self, channel: ColorChannel, byte: u8, count: usize) -> Seq<Op> {
        fill_ops(plane_command(channel), byte, count)
    }

    open spec fn refresh_ok(&self) -> bool {
        true
    }

    open spec fn refresh_ops(&self) -> Seq<Op> {
        refresh_plan(self@)
    }

    open spec fn sleep_ops(&self) -> Seq<Op> {
        cmd_data(DEEP_SLEEP_MODE, seq![0x01])
    }

    fn can_init(&self) -> (r: bool) {
        self.width >= 1 && self.height >= 1
    }

    fn can_set_window(&self, x_start: u32, y_start: u32, x_end: u32, y_end: u32) -> (r: bool) {
        true
    }

    fn can_set_cursor(&self, x: u32, y: u32) -> (r: bool) {
        true
    }

    fn can_fill(&self, byte: u8, count: usize) -> (r: bool) {
        true
    }

    fn can_refresh(&self) -> (r: bool) {
        true
    }

    fn init_sequence(&mut self) -> (ops: Vec<BusOp>) {
        let mut ops: Vec<BusOp> = Vec::new();
        push_op(&mut ops, BusOp::HardReset(10));
        send_command(&mut ops, SW_RESET);
        push_op(&mut ops, BusOp::DelayMs(1));
        push_op(&mut ops, BusOp::WaitBusyWithDelay(true));

        // Driver output control: gate count (height - 1), scan direction 0
        let h = self.height - 1;
        let drv = [low_byte(h), high_byte(h), 0x00];
        assert(drv@ =~= seq![lo8(h), hi8(h), 0x00u8]);
        send_command_with_data(&mut ops, DRIVER_CONTROL, &drv);

        let border = [0x05u8];
        assert(border@ =~= seq![0x05u8]);
        send_command_with_data(&mut ops, BORDER_WAVEFORM_CONTROL, &border);

        // Panel-declared analog overrides, VCOM then gate voltage, straight after the border.
        plan_optional_register(&mut ops, WRITE_VCOM_REGISTER, self.vcom);
        plan_optional_register(&mut ops, GATE_VOLTAGE, self.gate_voltage);

        let ghost before_ctrl1 = ops_of(ops@);
        if self.variant == Ssd168xVariant::Ssd1680 {
            let ctrl1 = [0x00u8, 0x80u8];
            assert(ctrl1@ =~= seq![0x00u8, 0x80u8]);
            send_command_with_data(&mut ops, DISPLAY_UPDATE_CTRL1, &ctrl1);
        } else {
            assert(before_ctrl1 + Seq::<Op>::empty() =~= before_ctrl1);
        }

        let temp = [0x80u8];
        assert(temp@ =~= seq![0x80u8]);
        send_command_with_data(&mut ops, TEMP_CONTROL, &temp);
        let entry = [0x03u8];
        assert(entry@ =~= seq![0x03u8]);
        send_command_with_data(&mut ops, DATA_ENTRY_MODE, &entry);

        // RAM area covers the full frame; cursor at its origin.
        plan_ram_window(&mut ops, 0, 0, self.width - 1, h);
        plan_ram_cursor(&mut ops, 0, 0);

        // Custom waveform upload goes last, after the RAM block.
        plan_optional_block(&mut ops, WRITE_LUT_REGISTER, self.custom_lut);

        push_op(&mut ops, BusOp::DelayMs(1));
        push_op(&mut ops, BusOp::WaitBusyWithDelay(true));
        assert(ops_of(ops@) =~= init_plan(self@));
        ops
    }

    fn set_window(&mut self, x_start: u32, y_start: u32, x_end: u32, y_end: u32) -> (ops: Vec<
        BusOp,
    >) {
        let mut ops: Vec<BusOp> = Vec::new();
        plan_ram_window(&mut ops, x_start, y_start, x_end, y_end);
        assert(ops_of(ops@) =~= Self::ram_window(x_start, y_start, x_end, y_end));
        ops
    }

    fn set_cursor(&mut self, x: u32, y: u32) -> (ops: Vec<BusOp>) {
        let mut ops: Vec<BusOp> = Vec::new();
        plan_ram_cursor(&mut ops, x, y);
        assert(ops_of(ops@) =~= Self::ram_cursor(x, y));
        ops
    }

    fn write_frame(&mut self, channel: ColorChannel, data: &[u8]) -> (ops: Vec<BusOp>) {
        let mut ops: Vec<BusOp> = Vec::new();
        send_command_with_data(&mut ops, plane_for(channel), data);
        assert(ops_of(ops@) =~= cmd_data(plane_command(channel), data@));
        ops
    }

    fn write_frame_pattern(&mut self, channel: ColorChannel, byte: u8, count: usize) -> (ops: Vec<
        BusOp,
    >) {
        let mut ops: Vec<BusOp> = Vec::new();
        plan_fill(&mut ops, plane_for(channel), byte, count);
        assert(ops_of(ops@) =~= fill_ops(plane_command(channel), byte, count));
        ops
    }

    fn trigger_refresh(&mut self) -> (ops: Vec<BusOp>) {
        let mut ops: Vec<BusOp> = Vec::new();
        let mode_byte = refresh_mode_byte(self.refresh_mode);
        plan_fast_preamble(&mut ops, self.refresh_mode);
        match self.variant {
            Ssd168xVariant::Ssd1680 => {
                // Power on, display update, power off — each waited out on BUSY.
                plan_activation(&mut ops, 0xE0);
                plan_activation(&mut ops, mode_byte);
                plan_activation(&mut ops, 0x83);
            },
            Ssd168xVariant::Ssd1681 => {
                plan_activation(&mut ops, mode_byte);
            },
        }
        assert(ops_of(ops@) =~= refresh_plan(self@));
        ops
    }

    fn sleep(&mut self) -> (ops: Vec<BusOp>) {
        let mut ops: Vec<BusOp> = Vec::new();
        let data = [0x01u8];
        assert(data@ =~= seq![0x01u8]);
        send_command_with_data(&mut ops, DEEP_SLEEP_MODE, &data);
        assert(ops_of(ops@) =~= cmd_data(DEEP_SLEEP_MODE, seq![0x01]));
        ops
    }
}

/// Dedicated controller for the SSD1680 IC (176×296 RAM, power stage 0xE0/0x83).
#[derive(Debug, Clone, Copy)]
pub struct Ssd1680Controller {
    inner: Ssd168xController,
}

impl View for Ssd1680Controller {
    type V = Ssd168xConfig;

    closed spec fn view(&self) -> Ssd168xConfig {
        self.inner@
    }
}

impl Ssd1680Controller {
    /// The wrapped controller is always the SSD1680 variant.
    #[verifier::type_invariant]
    spec fn drives_its_chip(self) -> bool {
        self.inner@.variant == Ssd168xVariant::Ssd1680
    }

    /// Creates a new SSD1680 controller instance configured for target display dimensions.
    pub fn new(width: u32, height: u32) -> (r: Self)
        ensures
            r@ == default_config(width, height, Ssd168xVariant::Ssd1680),
    {
        Self { inner: Ssd168xController::new(width, height, Ssd168xVariant::Ssd1680) }
    }

    /// Builds a controller from a panel type, reading its dimensions and register overrides off
    /// [`EpdPanel`].
    pub fn for_panel<P: EpdPanel>() -> (r: Self)
        ensures
            r@ == (Ssd168xConfig {
                vcom: P::VCOM,
                gate_voltage: P::GATE_VOLTAGE,
                custom_lut: P::CUSTOM_LUT,
                ..default_config(P::WIDTH, P::HEIGHT, Ssd168xVariant::Ssd1680)
            }),
    {
        Self { inner: Ssd168xController::for_panel::<P>(Ssd168xVariant::Ssd1680) }
    }

    /// Sets display refresh operating mode (builder method).
    pub fn with_refresh_mode(self, mode: Ssd168xRefreshMode) -> (r: Self)
        ensures
            r@ == (Ssd168xConfig { refresh_mode: mode, ..self@ }),
    {
        proof {
            use_type_invariant(&self);
        }
        Self { inner: self.inner.with_refresh_mode(mode) }
    }

    /// Sets display refresh operating mode.
    pub fn set_refresh_mode(&mut self, mode: Ssd168xRefreshMode)
        ensures
            final(self)@ == (Ssd168xConfig { refresh_mode: mode, ..old(self)@ }),
    {
        proof {
            use_type_invariant(&*self);
        }
        self.inner = self.inner.with_refresh_mode(mode);
    }

    /// Returns current display refresh mode.
    pub fn refresh_mode(&self) -> (r: Ssd168xRefreshMode)
        ensures
            r == self@.refresh_mode,
    {
        self.inner.refresh_mode()
    }

    /// Sets the VCOM register written during init (builder method); `None` omits it.
    pub fn with_vcom(self, vcom: Option<u8>) -> (r: Self)
        ensures
            r@ == (Ssd168xConfig { vcom, ..self@ }),
    {
        proof {
            use_type_invariant(&self);
        }
        Self { inner: self.inner.with_vcom(vcom) }
    }

    /// Returns the configured VCOM override, if any.
    pub fn vcom(&self) -> (r: Option<u8>)
        ensures
            r == self@.vcom,
    {
        self.inner.vcom()
    }

    /// Sets the value written to register `0x03` (gate voltage) during init (builder method).
    pub fn with_gate_voltage(self, gate_voltage: Option<u8>) -> (r: Self)
        ensures
            r@ == (Ssd168xConfig { gate_voltage, ..self@ }),
    {
        proof {
            use_type_invariant(&self);
        }
        Self { inner: self.inner.with_gate_voltage(gate_voltage) }
    }

    /// Returns the configured gate voltage override, if any.
    pub fn gate_voltage(&self) -> (r: Option<u8>)
        ensures
            r == self@.gate_voltage,
    {
        self.inner.gate_voltage()
    }

    /// Sets the custom waveform LUT uploaded at the end of init (builder method).
    pub fn with_lut(self, lut: Option<&'static [u8]>) -> (r: Self)
        ensures
            r@ == (Ssd168xConfig { custom_lut: lut, ..self@ }),
    {
        proof {
            use_type_invariant(&self);
        }
        Self { inner: self.inner.with_lut(lut) }
    }

    /// Returns the configured custom LUT, if any.
    pub fn custom_lut(&self) -> (r: Option<&'static [u8]>)
        ensures
            r == self@.custom_lut,
    {
        self.inner.custom_lut()
    }

    /// Access underlying generic controller.
    pub fn into_inner(self) -> (r: Ssd168xController)
        ensures
            r@ == self@,
            r@.variant == Ssd168xVariant::Ssd1680,
    {
        proof {
            use_type_invariant(&self);
        }
        self.inner
    }
}

impl EpdController for Ssd1680Controller {
    open spec fn init_ok(&self) -> bool {
        self@.width >= 1 && self@.height >= 1
    }

    open spec fn init_ops(&self) -> Seq<Op> {
        init_plan(self@)
    }

    open spec fn after_init(&self) -> Self {
        *self
    }

    open spec fn window_ok(&self, x_start: u32, y_start: u32, x_end: u32, y_end: u32) -> bool {
        true
    }

    open spec fn window_ops(&self, x_start: u32, y_start: u32, x_end: u32, y_end: u32) -> Seq<Op> {
        Ssd168xController::ram_window(x_start, y_start, x_end, y_end)
    }

    open spec fn with_window(&self, x_start: u32, y_start: u32, x_end: u32, y_end: u32) -> Self {
        *self
    }

    open spec fn cursor_ok(&self, x: u32, y: u32) -> bool {
        true
    }

    open spec fn cursor_ops(&self, x: u32, y: u32) -> Seq<Op> {
        Ssd168xController::ram_cursor(x, y)
    }

    open spec fn frame_ops(&self, channel: ColorChannel, data: Seq<u8>) -> Seq<Op> {
        cmd_data(plane_command(channel), data)
    }

    open spec fn pattern_ok(&self, byte: u8, count: usize) -> bool {
        true
    }

    open spec fn pattern_ops(&self, channel: ColorChannel, byte: u8, count: usize) -> Seq<Op> {
        fill_ops(plane_command(channel), byte, count)
    }

    open spec fn refresh_ok(&self) -> bool {
        true
    }

    open spec fn refresh_ops(&self) -> Seq<Op> {
        refresh_plan(self@)
    }

    open spec fn sleep_ops(&self) -> Seq<Op> {
        cmd_data(DEEP_SLEEP_MODE, seq![0x01])
    }

    fn can_init(&self) -> (r: bool) {
        self.inner.can_init()
    }

    fn can_set_window(&self, x_start: u32, y_start: u32, x_end: u32, y_end: u32) -> (r: bool) {
        true
    }

    fn can_set_cursor(&self, x: u32, y: u32) -> (r: bool) {
        true
    }

    fn can_fill(&self, byte: u8, count: usize) -> (r: bool) {
        true
    }

    fn can_refresh(&self) -> (r: bool) {
        true
    }

    fn init_sequence(&mut self) -> (ops: Vec<BusOp>) {
        proof {
            use_type_invariant(&*self);
        }
        let mut inner = self.inner;
        let ops = inner.init_sequence();
        self.inner = inner;
        ops
    }

    fn set_window(&mut self, x_start: u32, y_start: u32, x_end: u32, y_end: u32) -> (ops: Vec<
        BusOp,
    >) {
        proof {
            use_type_invariant(&*self);
        }
        let mut inner = self.inner;
        let ops = inner.set_window(x_start, y_start, x_end, y_end);
        self.inner = inner;
        ops
    }

    fn set_cursor(&mut self, x: u32, y: u32) -> (ops: Vec<BusOp>) {
        proof {
            use_type_invariant(&*self);
        }
        let mut inner = self.inner;
        let ops = inner.set_cursor(x, y);
        self.inner = inner;
        ops
    }

    fn write_frame(&mut self, channel: ColorChannel, data: &[u8]) -> (ops: Vec<BusOp>) {
        proof {
            use_type_invariant(&*self);
        }
        let mut inner = self.inner;
        let ops = inner.write_frame(channel, data);
        self.inner = inner;
        ops
    }

    fn write_frame_pattern(&mut self, channel: ColorChannel, byte: u8, count: usize) -> (ops: Vec<
        BusOp,
    >) {
        proof {
            use_type_invariant(&*self);
        }
        let mut inner = self.inner;
        let ops = inner.write_frame_pattern(channel, byte, count);
        self.inner = inner;
        ops
    }

    fn trigger_refresh(&mut self) -> (ops: Vec<BusOp>) {
        proof {
            use_type_invariant(&*self);
        }
        let mut inner = self.inner;
        let ops = inner.trigger_refresh();
        self.inner = inner;
        ops
    }

    fn sleep(&mut self) -> (ops: Vec<BusOp>) {
        proof {
            use_type_invariant(&*self);
        }
        let mut inner = self.inner;
        let ops = inner.sleep();
        self.inner = inner;
        ops
    }
}

/// Dedicated controller for the SSD1681 IC (200×200 RAM, direct display update trigger).
#[derive(Debug, Clone, Copy)]
pub struct Ssd1681Controller {
    inner: Ssd168xController,
}

impl View for Ssd1681Controller {
    type V = Ssd168xConfig;

    closed spec fn view(&self) -> Ssd168xConfig {
        self.inner@
    }
}

impl Ssd1681Controller {
    /// The wrapped controller is always the SSD1681 variant.
    #[verifier::type_invariant]
    spec fn drives_its_chip(self) -> bool {
        self.inner@.variant == Ssd168xVariant::Ssd1681
    }

    /// Creates a new SSD1681 controller instance configured for target display dimensions.
    pub fn new(width: u32, height: u32) -> (r: Self)
        ensures
            r@ == default_config(width, height, Ssd168xVariant::Ssd1681),
    {
        Self { inner: Ssd168xController::new(width, height, Ssd168xVariant::Ssd1681) }
    }

    /// Builds a controller from a panel type, reading its dimensions and register overrides off
    /// [`EpdPanel`].
    pub fn for_panel<P: EpdPanel>() -> (r: Self)
        ensures
            r@ == (Ssd168xConfig {
                vcom: P::VCOM,
                gate_voltage: P::GATE_VOLTAGE,
                custom_lut: P::CUSTOM_LUT,
                ..default_config(P::WIDTH, P::HEIGHT, Ssd168xVariant::Ssd1681)
            }),
    {
        Self { inner: Ssd168xController::for_panel::<P>(Ssd168xVariant::Ssd1681) }
    }

    /// Sets display refresh operating mode (builder method).
    pub fn with_refresh_mode(self, mode: Ssd168xRefreshMode) -> (r: Self)
        ensures
            r@ == (Ssd168xConfig { refresh_mode: mode, ..self@ }),
    {
        proof {
            use_type_invariant(&self);
        }
        Self { inner: self.inner.with_refresh_mode(mode) }
    }

    /// Sets display refresh operating mode.
    pub fn set_refresh_mode(&mut self, mode: Ssd168xRefreshMode)
        ensures
            final(self)@ == (Ssd168xConfig { refresh_mode: mode, ..old(self)@ }),
    {
        proof {
            use_type_invariant(&*self);
        }
        self.inner = self.inner.with_refresh_mode(mode);
    }

    /// Returns current display refresh mode.
    pub fn refresh_mode(&self) -> (r: Ssd168xRefreshMode)
        ensures
            r == self@.refresh_mode,
    {
        self.inner.refresh_mode()
    }

    /// Sets the VCOM register written during init (builder method); `None` omits it.
    pub fn with_vcom(self, vcom: Option<u8>) -> (r: Self)
        ensures
            r@ == (Ssd168xConfig { vcom, ..self@ }),
    {
        proof {
            use_type_invariant(&self);
        }
        Self { inner: self.inner.with_vcom(vcom) }
    }

    /// Returns the configured VCOM override, if any.
    pub fn vcom(&self) -> (r: Option<u8>)
        ensures
            r == self@.vcom,
    {
        self.inner.vcom()
    }

    /// Sets the value written to register `0x03` (gate voltage) during init (builder method).
    pub fn with_gate_voltage(self, gate_voltage: Option<u8>) -> (r: Self)
        ensures
            r@ == (Ssd168xConfig { gate_voltage, ..self@ }),
    {
        proof {
            use_type_invariant(&self);
        }
        Self { inner: self.inner.with_gate_voltage(gate_voltage) }
    }

    /// Returns the configured gate voltage override, if any.
    pub fn gate_voltage(&self) -> (r: Option<u8>)
        ensures
            r == self@.gate_voltage,
    {
        self.inner.gate_voltage()
    }

    /// Sets the custom waveform LUT uploaded at the end of init (builder method).
    pub fn with_lut(self, lut: Option<&'static [u8]>) -> (r: Self)
        ensures
            r@ == (Ssd168xConfig { custom_lut: lut, ..self@ }),
    {
        proof {
            use_type_invariant(&self);
        }
        Self { inner: self.inner.with_lut(lut) }
    }

    /// Returns the configured custom LUT, if any.
    pub fn custom_lut(&self) -> (r: Option<&'static [u8]>)
        ensures
            r == self@.custom_lut,
    {
        self.inner.custom_lut()
    }

    /// Access underlying generic controller.
    pub fn into_inner(self) -> (r: Ssd168xController)
        ensures
            r@ == self@,
            r@.variant == Ssd168xVariant::Ssd1681,
    {
        proof {
            use_type_invariant(&self);
        }
        self.inner
    }
}

impl EpdController for Ssd1681Controller {
    open spec fn init_ok(&self) -> bool {
        self@.width >= 1 && self@.height >= 1
    }

    open spec fn init_ops(&self) -> Seq<Op> {
        init_plan(self@)
    }

    open spec fn after_init(&self) -> Self {
        *self
    }

    open spec fn window_ok(&self, x_start: u32, y_start: u32, x_end: u32, y_end: u32) -> bool {
        true
    }

    open spec fn window_ops(&self, x_start: u32, y_start: u32, x_end: u32, y_end: u32) -> Seq<Op> {
        Ssd168xController::ram_window(x_start, y_start, x_end, y_end)
    }

    open spec fn with_window(&self, x_start: u32, y_start: u32, x_end: u32, y_end: u32) -> Self {
        *self
    }

    open spec fn cursor_ok(&self, x: u32, y: u32) -> bool {
        true
    }

    open spec fn cursor_ops(&self, x: u32, y: u32) -> Seq<Op> {
        Ssd168xController::ram_cursor(x, y)
    }

    open spec fn frame_ops(&self, channel: ColorChannel, data: Seq<u8>) -> Seq<Op> {
        cmd_data(plane_command(channel), data)
    }

    open spec fn pattern_ok(&self, byte: u8, count: usize) -> bool {
        true
    }

    open spec fn pattern_ops(&self, channel: ColorChannel, byte: u8, count: usize) -> Seq<Op> {
        fill_ops(plane_command(channel), byte, count)
    }

    open spec fn refresh_ok(&self) -> bool {
        true
    }

    open spec fn refresh_ops(&self) -> Seq<Op> {
        refresh_plan(self@)
    }

    open spec fn sleep_ops(&self) -> Seq<Op> {
        cmd_data(DEEP_SLEEP_MODE, seq![0x01])
    }

    fn can_init(&self) -> (r: bool) {
        self.inner.can_init()
    }

    fn can_set_window(&self, x_start: u32, y_start: u32, x_end: u32, y_end: u32) -> (r: bool) {
        true
    }

    fn can_set_cursor(&self, x: u32, y: u32) -> (r: bool) {
        true
    }

    fn can_fill(&self, byte: u8, count: usize) -> (r: bool) {
        true
    }

    fn can_refresh(&self) -> (r: bool) {
        true
    }

    fn init_sequence(&mut self) -> (ops: Vec<BusOp>) {
        proof {
            use_type_invariant(&*self);
        }
        let mut inner = self.inner;
        let ops = inner.init_sequence();
        self.inner = inner;
        ops
    }

    fn set_window(&mut self, x_start: u32, y_start: u32, x_end: u32, y_end: u32) -> (ops: Vec<
        BusOp,
    >) {
        proof {
            use_type_invariant(&*self);
        }
        let mut inner = self.inner;
        let ops = inner.set_window(x_start, y_start, x_end, y_end);
        self.inner = inner;
        ops
    }

    fn set_cursor(&mut self, x: u32, y: u32) -> (ops: Vec<BusOp>) {
        proof {
            use_type_invariant(&*self);
        }
        let mut inner = self.inner;
        let ops = inner.set_cursor(x, y);
        self.inner = inner;
        ops
    }

    fn write_frame(&mut self, channel: ColorChannel, data: &[u8]) -> (ops: Vec<BusOp>) {
        proof {
            use_type_invariant(&*self);
        }
        let mut inner = self.inner;
        let ops = inner.write_frame(channel, data);
        self.inner = inner;
        ops
    }

    fn write_frame_pattern(&mut self, channel: ColorChannel, byte: u8, count: usize) -> (ops: Vec<
        BusOp,
    >) {
        proof {
            use_type_invariant(&*self);
        }
        let mut inner = self.inner;
        let ops = inner.write_frame_pattern(channel, byte, count);
        self.inner = inner;
        ops
    }

    fn trigger_refresh(&mut self) -> (ops: Vec<BusOp>) {
        proof {
            use_type_invariant(&*self);
        }
        let mut inner = self.inner;
        let ops = inner.trigger_refresh();
        self.inner = inner;
        ops
    }

    fn sleep(&mut self) -> (ops: Vec<BusOp>) {
        proof {
            use_type_invariant(&*self);
        }
        let mut inner = self.inner;
        let ops = inner.sleep();
        self.inner = inner;
        ops
    }
}


/// Every SSD168x controller sleeps with deep sleep mode `0x10 [01]` and nothing else.
pub proof fn lemma_ssd168x_sleep(c: Ssd168xController, c80: Ssd1680Controller, c81: Ssd1681Controller)
    ensures
        c.sleep_ops() == seq![Op::Command(0x10), Op::Data(seq![0x01u8])],
        c80.sleep_ops() == seq![Op::Command(0x10), Op::Data(seq![0x01u8])],
        c81.sleep_ops() == seq![Op::Command(0x10), Op::Data(seq![0x01u8])],
{
    assert(c.sleep_ops() =~= seq![Op::Command(0x10), Op::Data(seq![0x01u8])]);
}


/// Whether `ops`, from index `k` on, hold one display update with control byte `ctrl2`:
/// `0x22 [ctrl2]`, master activation `0x20`, 1 ms, and a wait for BUSY (active high).
pub open spec fn updates_with(ops: Seq<Op>, k: int, ctrl2: u8) -> bool {
    &&& 0 <= k && k + 5 <= ops.len()
    &&& ops[k] == Op::Command(0x22)
    &&& ops[k + 1] == Op::Data(seq![ctrl2])
    &&& ops[k + 2] == Op::Command(0x20)
    &&& ops[k + 3] == Op::DelayMs(1)
    &&& ops[k + 4] == Op::WaitBusyWithDelay(true)
}

/// An SSD168x refresh runs the update its mode selects: `0xF7` for a full refresh, `0xFC` for a
/// partial one, `0xC7` for a fast full one (after a `0xB1` load, the temperature override
/// `0x1A [5A 00]` and a `0x91` load), `0xF4` for a base-map write. On the SSD1681 that update
/// ends the refresh; the SSD1680 brackets it between a `0xE0` power-up and a `0x83` power-down.
pub proof fn lemma_ssd168x_refresh(c: Ssd168xController)
    ensures
        ({
            let ops = c.refresh_ops();
            let n = ops.len();
            let mode = c@.refresh_mode;
            let b: u8 = if mode == Ssd168xRefreshMode::Full {
                0xF7
            } else if mode == Ssd168xRefreshMode::Partial {
                0xFC
            } else if mode == Ssd168xRefreshMode::FastFull {
                0xC7
            } else {
                0xF4
            };
            let p: int = if mode == Ssd168xRefreshMode::FastFull { 12 } else { 0 };
            &&& mode == Ssd168xRefreshMode::FastFull ==> updates_with(ops, 0, 0xB1) && ops[5]
                == Op::Command(0x1A) && ops[6] == Op::Data(seq![0x5Au8, 0x00]) && updates_with(
                ops,
                7,
                0x91,
            )
            &&& c@.variant == Ssd168xVariant::Ssd1681 ==> n == p + 5 && updates_with(ops, p, b)
            &&& c@.variant == Ssd168xVariant::Ssd1680 ==> n == p + 15 && updates_with(ops, p, 0xE0)
                && updates_with(ops, p + 5, b) && updates_with(ops, p + 10, 0x83)
        }),
{
    let ops = c.refresh_ops();
    let mode = c@.refresh_mode;
    let pre = fast_preamble(mode);
    if mode == Ssd168xRefreshMode::FastFull {
        assert(pre.len() == 12);
    }
    let b = mode_byte(mode);
    if c@.variant == Ssd168xVariant::Ssd1681 {
        assert(ops == pre + activation(b));
    } else {
        assert(ops == pre + activation(0xE0) + activation(b) + activation(0x83));
    }
}

} // verus!
