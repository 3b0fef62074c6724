//! Pervasive Displays BW/BWR (Black/White, Black/White/Red or Yellow) E-Paper Display Controller
//! (DriverC/DriverF COG family).
//!
//! The Black/White plane takes the bitwise inverse of the frame: the COG reads a set bit as
//! black, the frame buffers as white.

use vstd::prelude::*;
use crate::bus::{
    BusOp, Op, Wire, cmd_data, data_bytes, lemma_data_bytes_concat, lemma_ops_wire_concat, op_wire,
    ops_of, ops_wire, push_op, send_command, send_command_with_data,
};
use crate::controllers::common::{fill_ops, plan_fill};
use crate::traits::{ColorChannel, EpdController};

verus! {

/// Panel Setting Register (PSR)
pub const PSR: u8 = 0x00;
/// Power Off command
pub const POWER_OFF: u8 = 0x02;
/// Power On command
pub const POWER_ON: u8 = 0x04;
/// Write Black/White RAM data (BufferBlack / DTM1)
pub const WRITE_BW_DATA: u8 = 0x10;
/// Display Refresh command (DRF)
pub const DISPLAY_REFRESH: u8 = 0x12;
/// Write Red/Yellow RAM data (BufferRed / DTM2)
pub const WRITE_RED_DATA: u8 = 0x13;
/// VCOM and Data Interval Setting (CDI)
pub const VCOM_INTERVAL: u8 = 0x50;
/// Active Temperature sensor selection
pub const ACTIVE_TEMP: u8 = 0xE0;
/// Input Temperature value selection
pub const INPUT_TEMP: u8 = 0xE5;

/// Display refresh operating mode for Pervasive Displays controller.
#[derive(Debug, Clone, Copy, PartialEq, Eq, Structural)]
pub enum PervasiveRefreshMode {
    /// Standard full screen update mode.
    Normal,
    /// Embedded fast differential update mode.
    Fast,
}

impl Default for PervasiveRefreshMode {
    fn default() -> (r: Self)
        ensures
            r == PervasiveRefreshMode::Normal,
    {
        PervasiveRefreshMode::Normal
    }
}

/// Pervasive COG driver IC variant family.
#[derive(Debug, Clone, Copy, PartialEq, Eq, Structural)]
pub enum PervasiveDriverVariant {
    /// COG Driver C / E / D / 9 (e.g. E2266KS0C1). Uses the Panel Setting Register.
    DriverC,
    /// COG Driver F (e.g. E2290KS0F1). Uses registers 0x4D (0x55) and 0xE9 (0x02) instead of PSR.
    DriverF,
}

impl Default for PervasiveDriverVariant {
    fn default() -> (r: Self)
        ensures
            r == PervasiveDriverVariant::DriverC,
    {
        PervasiveDriverVariant::DriverC
    }
}

/// The configuration of a Pervasive BW/BWR controller.
#[derive(Debug, Clone, Copy)]
pub struct PervasiveBwConfig {
    /// Panel width in pixels.
    pub width: u32,
    /// Panel height in pixels.
    pub height: u32,
    /// Ambient temperature in degrees Celsius.
    pub temperature_c: i8,
    /// Refresh mode.
    pub refresh_mode: PervasiveRefreshMode,
    /// COG driver family.
    pub driver_variant: PervasiveDriverVariant,
    /// Panel Setting Register calibration bytes.
    pub psr: (u8, u8),
    /// Whether a normal Black/White write also clears the secondary plane.
    pub auto_clear_secondary: bool,
}

/// The configuration of a default controller: 0x0, 25 °C, Normal, DriverC, PSR `CF 8D`,
/// secondary plane cleared automatically.
pub open spec fn default_config() -> PervasiveBwConfig {
    PervasiveBwConfig {
        width: 0,
        height: 0,
        temperature_c: 25,
        refresh_mode: PervasiveRefreshMode::Normal,
        driver_variant: PervasiveDriverVariant::DriverC,
        psr: (0xCF, 0x8D),
        auto_clear_secondary: true,
    }
}

/// Every byte of `s`, bitwise inverted.
pub open spec fn invert(s: Seq<u8>) -> Seq<u8> {
    s.map_values(|b: u8| !b)
}

/// The inverted frame as explicit writes of at most 64 bytes, in order.
pub open spec fn inverted_chunks(s: Seq<u8>) -> Seq<Op>
    decreases s.len(),
{
    if s.len() == 0 {
        Seq::empty()
    } else {
        let n = if s.len() < 64 {
            s.len() as int
        } else {
            64
        };
        seq![Op::Data(invert(s.take(n)))] + inverted_chunks(s.skip(n))
    }
}

/// The temperature byte written to `INPUT_TEMP`: the two's-complement reading, with bit 6 set
/// in fast mode.
pub open spec fn temperature_byte(c: PervasiveBwConfig) -> u8 {
    if c.refresh_mode == PervasiveRefreshMode::Fast {
        (c.temperature_c as u8) | 0x40
    } else {
        c.temperature_c as u8
    }
}

/// The PSR bytes written in init: in fast mode with `0x10` and `0x02` set.
pub open spec fn psr_bytes(c: PervasiveBwConfig) -> Seq<u8> {
    if c.refresh_mode == PervasiveRefreshMode::Fast {
        seq![c.psr.0 | 0x10, c.psr.1 | 0x02]
    } else {
        seq![c.psr.0, c.psr.1]
    }
}

/// The initialisation sequence.
pub open spec fn init_plan(c: PervasiveBwConfig) -> Seq<Op> {
    seq![Op::HardReset(10), Op::WaitBusyWithDelay(false)] + cmd_data(PSR, seq![0x0Eu8]) + seq![
        Op::WaitBusyWithDelay(false),
    ] + cmd_data(INPUT_TEMP, seq![temperature_byte(c)]) + cmd_data(ACTIVE_TEMP, seq![0x02u8])
        + (match c.driver_variant {
        PervasiveDriverVariant::DriverC => cmd_data(PSR, psr_bytes(c)),
        PervasiveDriverVariant::DriverF => cmd_data(0x4D, seq![0x55u8]) + cmd_data(
            0xE9,
            seq![0x02u8],
        ),
    }) + (if c.refresh_mode == PervasiveRefreshMode::Fast {
        cmd_data(VCOM_INTERVAL, seq![0x07u8])
    } else {
        Seq::empty()
    })
}

/// A frame write: the Black/White plane gets the inverted frame, followed in normal mode (when
/// enabled) by a zero fill of the secondary plane of the same length; any colour channel goes
/// to the secondary plane as is.
pub open spec fn frame_plan(c: PervasiveBwConfig, channel: ColorChannel, data: Seq<u8>) -> Seq<Op> {
    if channel == ColorChannel::BlackWhite {
        seq![Op::Command(WRITE_BW_DATA)] + inverted_chunks(data) + (if c.refresh_mode
            == PervasiveRefreshMode::Normal && c.auto_clear_secondary {
            fill_ops(WRITE_RED_DATA, 0x00, data.len() as usize)
        } else {
            Seq::empty()
        })
    } else {
        cmd_data(WRITE_RED_DATA, data)
    }
}

/// A fast-update frame pair: CDI `0x27`, the previous frame (inverted) to the first plane, the
/// current frame (inverted) to the second, then CDI back to `0x07`.
pub open spec fn fast_frame_plan(previous: Seq<u8>, current: Seq<u8>) -> Seq<Op> {
    cmd_data(VCOM_INTERVAL, seq![0x27u8]) + seq![Op::Command(WRITE_BW_DATA)] + inverted_chunks(
        previous,
    ) + seq![Op::Command(WRITE_RED_DATA)] + inverted_chunks(current) + cmd_data(
        VCOM_INTERVAL,
        seq![0x07u8],
    )
}

/// Pervasive Displays BW/BWR COG Controller IC driver.
#[derive(Debug, Clone, Copy, PartialEq, Eq)]
pub struct PervasiveBwController {
    width: u32,
    height: u32,
    temperature_c: i8,
    refresh_mode: PervasiveRefreshMode,
    driver_variant: PervasiveDriverVariant,
    psr: [u8; 2],
    auto_clear_secondary: bool,
}

impl View for PervasiveBwController {
    type V = PervasiveBwConfig;

    closed spec fn view(&self) -> PervasiveBwConfig {
        PervasiveBwConfig {
            width: self.width,
            height: self.height,
            temperature_c: self.temperature_c,
            refresh_mode: self.refresh_mode,
            driver_variant: self.driver_variant,
            psr: (self.psr[0], self.psr[1]),
            auto_clear_secondary: self.auto_clear_secondary,
        }
    }
}

impl Default for PervasiveBwController {
    fn default() -> (r: Self)
        ensures
            r@ == default_config(),
    {
        Self {
            width: 0,
            height: 0,
            temperature_c: 25,
            refresh_mode: PervasiveRefreshMode::Normal,
            driver_variant: PervasiveDriverVariant::DriverC,
            psr: [0xCF, 0x8D],
            auto_clear_secondary: true,
        }
    }
}

fn plan_inverted_chunks(ops: &mut Vec<BusOp>, data: &[u8])
    ensures
        ops_of(final(ops)@) == ops_of(old(ops)@) + inverted_chunks(data@),
{
    let ghost start = ops_of(ops@);
    let len = data.len();
    let mut offset: usize = 0;
    assert(data@.skip(0) =~= data@);
    while offset < len
        invariant
            offset <= len,
            len == data@.len(),
            ops_of(ops@) + inverted_chunks(data@.skip(offset as int)) == start + inverted_chunks(
                data@,
            ),
        decreases len - offset,
    {
        let n: usize = if len - offset < 64 {
            len - offset
        } else {
            64
        };
        let mut buf: Vec<u8> = Vec::new();
        let mut i: usize = 0;
        while i < n
            invariant
                i <= n,
                offset + n <= len,
                len == data@.len(),
                buf@ == invert(data@.subrange(offset as int, offset + i)),
            decreases n - i,
        {
            buf.push(!data[offset + i]);
            i = i + 1;
            assert(buf@ =~= invert(data@.subrange(offset as int, offset + i)));
        }
        let ghost rest = data@.skip(offset as int);
        let ghost before = ops_of(ops@);
        push_op(ops, BusOp::Data(buf));
        proof {
            assert(rest.take(n as int) =~= data@.subrange(offset as int, offset + n));
            assert(rest.skip(n as int) =~= data@.skip(offset + n));
            assert(inverted_chunks(rest) == seq![Op::Data(invert(rest.take(n as int)))]
                + inverted_chunks(rest.skip(n as int)));
            assert(ops_of(ops@) + inverted_chunks(data@.skip(offset + n)) =~= before
                + inverted_chunks(rest));
        }
        offset = offset + n;
    }
    proof {
        assert(data@.skip(offset as int) =~= Seq::<u8>::empty());
        assert(ops_of(ops@) + inverted_chunks(Seq::<u8>::empty()) =~= ops_of(ops@));
    }
}

impl PervasiveBwController {
    /// Creates a new Pervasive Displays BW/BWR controller instance with target resolution.
    pub fn new(width: u32, height: u32) -> (r: Self)
        ensures
            r@ == (PervasiveBwConfig { width, height, ..default_config() }),
    {
        let mut s = Self::default();
        s.width = width;
        s.height = height;
        s
    }

    /// Sets operating ambient temperature in Celsius (builder method).
    pub fn with_temperature(self, temperature_c: i8) -> (r: Self)
        ensures
            r@ == (PervasiveBwConfig { temperature_c, ..self@ }),
    {
        let mut s = self;
        s.temperature_c = temperature_c;
        s
    }

    /// Sets ambient temperature in Celsius.
    pub fn set_temperature(&mut self, temperature_c: i8)
        ensures
            final(self)@ == (PervasiveBwConfig { temperature_c, ..old(self)@ }),
    {
        self.temperature_c = temperature_c;
    }

    /// Returns current operating ambient temperature in Celsius.
    pub fn temperature(&self) -> (r: i8)
        ensures
            r == self@.temperature_c,
    {
        self.temperature_c
    }

    /// Sets display refresh operating mode (builder method).
    pub fn with_refresh_mode(self, mode: PervasiveRefreshMode) -> (r: Self)
        ensures
            r@ == (PervasiveBwConfig { refresh_mode: mode, ..self@ }),
    {
        let mut s = self;
        s.refresh_mode = mode;
        s
    }

    /// Sets display refresh operating mode.
    pub fn set_refresh_mode(&mut self, mode: PervasiveRefreshMode)
        ensures
            final(self)@ == (PervasiveBwConfig { refresh_mode: mode, ..old(self)@ }),
    {
        self.refresh_mode = mode;
    }

    /// Returns current display refresh mode.
    pub fn refresh_mode(&self) -> (r: PervasiveRefreshMode)
        ensures
            r == self@.refresh_mode,
    {
        self.refresh_mode
    }

    /// Sets driver IC variant (builder method).
    pub fn with_driver_variant(self, variant: PervasiveDriverVariant) -> (r: Self)
        ensures
            r@ == (PervasiveBwConfig { driver_variant: variant, ..self@ }),
    {
        let mut s = self;
        s.driver_variant = variant;
        s
    }

    /// Sets driver IC variant.
    pub fn set_driver_variant(&mut self, variant: PervasiveDriverVariant)
        ensures
            final(self)@ == (PervasiveBwConfig { driver_variant: variant, ..old(self)@ }),
    {
        self.driver_variant = variant;
    }

    /// Returns current driver IC variant.
    pub fn driver_variant(&self) -> (r: PervasiveDriverVariant)
        ensures
            r == self@.driver_variant,
    {
        self.driver_variant
    }

    /// Configures Panel Setting Register (PSR) calibration parameters (builder method).
    pub fn with_psr(self, psr: [u8; 2]) -> (r: Self)
        ensures
            r@ == (PervasiveBwConfig { psr: (psr[0], psr[1]), ..self@ }),
    {
        let mut s = self;
        s.psr = psr;
        s
    }

    /// Configures whether normal updates automatically clear the secondary RAM buffer
    /// (`WRITE_RED_DATA`) with `0x00` (builder method).
    pub fn with_auto_clear_secondary(self, auto_clear: bool) -> (r: Self)
        ensures
            r@ == (PervasiveBwConfig { auto_clear_secondary: auto_clear, ..self@ }),
    {
        let mut s = self;
        s.auto_clear_secondary = auto_clear;
        s
    }

    /// Plans writing previous and current frame data for the embedded fast differential update.
    pub fn write_fast_frame(&mut self, previous_frame: &[u8], current_frame: &[u8]) -> (ops: Vec<
        BusOp,
    >)
        ensures
            ops_of(ops@) == fast_frame_plan(previous_frame@, current_frame@),
            *final(self) == *old(self),
    {
        let mut ops: Vec<BusOp> = Vec::new();
        let pre = [0x27u8];
        assert(pre@ =~= seq![0x27u8]);
        send_command_with_data(&mut ops, VCOM_INTERVAL, &pre);
        // First frame (DTM1) takes the previous image, second (DTM2) the current one.
        send_command(&mut ops, WRITE_BW_DATA);
        plan_inverted_chunks(&mut ops, previous_frame);
        send_command(&mut ops, WRITE_RED_DATA);
        plan_inverted_chunks(&mut ops, current_frame);
        let post = [0x07u8];
        assert(post@ =~= seq![0x07u8]);
        send_command_with_data(&mut ops, VCOM_INTERVAL, &post);
        assert(ops_of(ops@) =~= fast_frame_plan(previous_frame@, current_frame@));
        ops
    }
}

impl EpdController for PervasiveBwController {
    open spec fn init_ok(&self) -> bool {
        true
    }

    open spec fn init_ops(&self) -> Seq<Op> {
        init_plan(self@)
    }

    open spec fn after_init(&self) -> Self {
        *self
    }

    open spec fn window_ok(&self, x_start: u32, y_start: u32, x_end: u32, y_end: u32) -> bool {
        true
    }

    open spec fn window_ops(&self, x_start: u32, y_start: u32, x_end: u32, y_end: u32) -> Seq<Op> {
        Seq::empty()
    }

    open spec fn with_window(&self, x_start: u32, y_start: u32, x_end: u32, y_end: u32) -> Self {
        *self
    }

    open spec fn cursor_ok(&self, x: u32, y: u32) -> bool {
        true
    }

    open spec fn cursor_ops(&self, x: u32, y: u32) -> Seq<Op> {
        Seq::empty()
    }

    open spec fn frame_ops(&self, channel: ColorChannel, data: Seq<u8>) -> Seq<Op> {
        frame_plan(self@, channel, data)
    }

    open spec fn pattern_ok(&self, byte: u8, count: usize) -> bool {
        true
    }

    open spec fn pattern_ops(&self, channel: ColorChannel, byte: u8, count: usize) -> Seq<Op> {
        if channel == ColorChannel::BlackWhite {
            fill_ops(WRITE_BW_DATA, !byte, count)
        } else {
            fill_ops(WRITE_RED_DATA, byte, count)
        }
    }

    open spec fn refresh_ok(&self) -> bool {
        true
    }

    open spec fn refresh_ops(&self) -> Seq<Op> {
        seq![
            Op::WaitBusyWithDelay(false),
            Op::Command(POWER_ON),
            Op::WaitBusyWithDelay(false),
            Op::Command(DISPLAY_REFRESH),
            Op::WaitBusyWithDelay(false),
        ]
    }

    open spec fn sleep_ops(&self) -> Seq<Op> {
        seq![Op::Command(POWER_OFF), Op::WaitBusyWithDelay(false)]
    }

    fn can_init(&self) -> (r: bool) {
        true
    }

    fn can_set_window(&self, x_start: u32, y_start: u32, x_end: u32, y_end: u32) -> (r: bool) {
        true
    }

    fn can_set_cursor(&self, x: u32, y: u32) -> (r: bool) {
        true
    }

    fn can_fill(&self, byte: u8, count: usize) -> (r: bool) {
        true
    }

    fn can_refresh(&self) -> (r: bool) {
        true
    }

    fn init_sequence(&mut self) -> (ops: Vec<BusOp>) {
        let mut ops: Vec<BusOp> = Vec::new();
        push_op(&mut ops, BusOp::HardReset(10));
        // BUSY is active low on Pervasive panels.
        push_op(&mut ops, BusOp::WaitBusyWithDelay(false));
        let fast = match self.refresh_mode {
            PervasiveRefreshMode::Fast => true,
            PervasiveRefreshMode::Normal => false,
        };
        let raw_temp = self.temperature_c as u8;
        let temp_val = if fast {
            raw_temp | 0x40
        } else {
            raw_temp
        };
        let psr_val = if fast {
            [self.psr[0] | 0x10, self.psr[1] | 0x02]
        } else {
            self.psr
        };
        let ghost start = ops_of(ops@);
        // Soft reset
        let reset = [0x0Eu8];
        assert(reset@ =~= seq![0x0Eu8]);
        send_command_with_data(&mut ops, PSR, &reset);
        push_op(&mut ops, BusOp::WaitBusyWithDelay(false));
        // Temperature calibration
        let temp = [temp_val];
        assert(temp@ =~= seq![temperature_byte(self@)]);
        send_command_with_data(&mut ops, INPUT_TEMP, &temp);
        let active = [0x02u8];
        assert(active@ =~= seq![0x02u8]);
        send_command_with_data(&mut ops, ACTIVE_TEMP, &active);
        match self.driver_variant {
            PervasiveDriverVariant::DriverC => {
                assert(psr_val@ =~= psr_bytes(self@));
                send_command_with_data(&mut ops, PSR, &psr_val);
            },
            PervasiveDriverVariant::DriverF => {
                let r4d = [0x55u8];
                assert(r4d@ =~= seq![0x55u8]);
                send_command_with_data(&mut ops, 0x4D, &r4d);
                let re9 = [0x02u8];
                assert(re9@ =~= seq![0x02u8]);
                send_command_with_data(&mut ops, 0xE9, &re9);
            },
        }
        let ghost before_cdi = ops_of(ops@);
        if fast {
            let cdi = [0x07u8];
            assert(cdi@ =~= seq![0x07u8]);
            send_command_with_data(&mut ops, VCOM_INTERVAL, &cdi);
        } else {
            assert(before_cdi + Seq::<Op>::empty() =~= before_cdi);
        }
        assert(ops_of(ops@) =~= init_plan(self@));
        ops
    }

    /// Pervasive panels stream the full frame: nothing to plan.
    fn set_window(&mut self, x_start: u32, y_start: u32, x_end: u32, y_end: u32) -> (ops: Vec<
        BusOp,
    >) {
        let ops: Vec<BusOp> = Vec::new();
        assert(ops_of(ops@) =~= Seq::<Op>::empty());
        ops
    }

    /// No RAM cursor register: nothing to plan.
    fn set_cursor(&mut self, x: u32, y: u32) -> (ops: Vec<BusOp>) {
        let ops: Vec<BusOp> = Vec::new();
        assert(ops_of(ops@) =~= Seq::<Op>::empty());
        ops
    }

    fn write_frame(&mut self, channel: ColorChannel, data: &[u8]) -> (ops: Vec<BusOp>) {
        let mut ops: Vec<BusOp> = Vec::new();
        match channel {
            ColorChannel::BlackWhite => {
                send_command(&mut ops, WRITE_BW_DATA);
                plan_inverted_chunks(&mut ops, data);
                let ghost mid = ops_of(ops@);
                let normal = match self.refresh_mode {
                    PervasiveRefreshMode::Normal => true,
                    PervasiveRefreshMode::Fast => false,
                };
                if normal && self.auto_clear_secondary {
                    plan_fill(&mut ops, WRITE_RED_DATA, 0x00, data.len());
                } else {
                    assert(mid + Seq::<Op>::empty() =~= mid);
                }
            },
            _ => {
                send_command_with_data(&mut ops, WRITE_RED_DATA, data);
            },
        }
        assert(ops_of(ops@) =~= frame_plan(self@, channel, data@));
        ops
    }

    fn write_frame_pattern(&mut self, channel: ColorChannel, byte: u8, count: usize) -> (ops: Vec<
        BusOp,
    >) {
        let mut ops: Vec<BusOp> = Vec::new();
        match channel {
            ColorChannel::BlackWhite => plan_fill(&mut ops, WRITE_BW_DATA, !byte, count),
            _ => plan_fill(&mut ops, WRITE_RED_DATA, byte, count),
        }
        assert(ops_of(ops@) =~= self.pattern_ops(channel, byte, count));
        ops
    }

    fn trigger_refresh(&mut self) -> (ops: Vec<BusOp>) {
        let mut ops: Vec<BusOp> = Vec::new();
        push_op(&mut ops, BusOp::WaitBusyWithDelay(false));
        send_command(&mut ops, POWER_ON);
        push_op(&mut ops, BusOp::WaitBusyWithDelay(false));
        send_command(&mut ops, DISPLAY_REFRESH);
        push_op(&mut ops, BusOp::WaitBusyWithDelay(false));
        assert(ops_of(ops@) =~= self.refresh_ops());
        ops
    }

    fn sleep(&mut self) -> (ops: Vec<BusOp>) {
        let mut ops: Vec<BusOp> = Vec::new();
        send_command(&mut ops, POWER_OFF);
        push_op(&mut ops, BusOp::WaitBusyWithDelay(false));
        assert(ops_of(ops@) =~= self.sleep_ops());
        ops
    }
}

/// The Black/White plane receives exactly the inverted frame, byte for byte in order, in writes
/// of at most 64 bytes.
pub proof fn lemma_inverted_chunks_spell_the_inverse(s: Seq<u8>)
    ensures
        data_bytes(ops_wire(inverted_chunks(s))) == invert(s),
        forall|i: int|
            0 <= i < ops_wire(inverted_chunks(s)).len() ==> (#[trigger] ops_wire(
                inverted_chunks(s),
            )[i] matches Wire::Data(d) && 0 < d.len() <= 64),
    decreases s.len(),
{
    if s.len() == 0 {
        assert(invert(s) =~= Seq::<u8>::empty());
    } else {
        let n = if s.len() < 64 {
            s.len() as int
        } else {
            64
        };
        let head = seq![Op::Data(invert(s.take(n)))];
        let rest = inverted_chunks(s.skip(n));
        lemma_inverted_chunks_spell_the_inverse(s.skip(n));
        lemma_ops_wire_concat(head, rest);
        assert(head.drop_last() =~= Seq::<Op>::empty());
        let hw = seq![Wire::Data(invert(s.take(n)))];
        assert(ops_wire(head) =~= hw) by {
            assert(ops_wire(head) =~= ops_wire(head.drop_last()) + op_wire(head.last()));
        }
        lemma_data_bytes_concat(hw, ops_wire(rest));
        assert(hw.drop_last() =~= Seq::<Wire>::empty());
        assert(data_bytes(hw) =~= Seq::<u8>::empty() + invert(s.take(n))) by {
            reveal_with_fuel(data_bytes, 2);
        }
        assert(invert(s.take(n)) + invert(s.skip(n)) =~= invert(s));
        assert forall|i: int| 0 <= i < ops_wire(inverted_chunks(s)).len() implies (
        #[trigger] ops_wire(inverted_chunks(s))[i] matches Wire::Data(d) && 0 < d.len() <= 64) by {
            if i > 0 {
                assert(ops_wire(inverted_chunks(s))[i] == ops_wire(rest)[i - 1]);
            }
        }
    }
}


/// The Pervasive BW COG sleeps with power-off `0x02` and a wait for BUSY, and nothing more.
pub proof fn lemma_pervasive_bw_sleep(c: PervasiveBwController)
    ensures
        c.sleep_ops() == seq![Op::Command(0x02), Op::WaitBusyWithDelay(false)],
{
}

} // verus!
