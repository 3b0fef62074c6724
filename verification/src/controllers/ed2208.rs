//! ED2208 E-Paper Display Controller.
//!
//! Driver IC for 4 bpp palette e-paper panels — ACeP 7-colour and E Ink Spectra 6 (such as
//! Good Display GDEP073E01). This implements the `-GCA` command set (7.3" 800x480).

use vstd::prelude::*;
use crate::bus::{
    BusOp, Op, cmd_data, filled, filled_bytes, lemma_ops_wire_concat, op_wire, ops_of, ops_wire,
    push_op, repeat_chunks, repeated_op, send_command, send_command_with_data,
};
use crate::controllers::common::{
    be16, high_byte, lemma_16_bit_encodings_read_back, low_byte, reads_be16,
};
use crate::traits::{ColorChannel, EpdController};

verus! {

/// Panel Setting command
pub const PANEL_SETTING: u8 = 0x00;
/// Power Setting command
pub const POWER_SETTING: u8 = 0x01;
/// Power OFF command
pub const POWER_OFF: u8 = 0x02;
/// Power OFF Sequence Setting
pub const POWER_OFF_SEQUENCE: u8 = 0x03;
/// Power ON command
pub const POWER_ON: u8 = 0x04;
/// Booster Soft Start 1
pub const BOOSTER_SOFT_START1: u8 = 0x05;
/// Booster Soft Start 2
pub const BOOSTER_SOFT_START2: u8 = 0x06;
/// Deep Sleep command
pub const DEEP_SLEEP: u8 = 0x07;
/// Booster Soft Start 3
pub const BOOSTER_SOFT_START3: u8 = 0x08;
/// Data Start Transmission / Write RAM (DTM)
pub const DATA_START_TRANSMISSION: u8 = 0x10;
/// Display Refresh command (DRF)
pub const DISPLAY_REFRESH: u8 = 0x12;
/// PLL Control
pub const PLL_CONTROL: u8 = 0x30;
/// VCOM and Data Interval Setting (CDI)
pub const CDI: u8 = 0x50;
/// TCON Setting
pub const TCON: u8 = 0x60;
/// Resolution Setting (TRES)
pub const RESOLUTION: u8 = 0x61;
/// Partial Window Setting
pub const PARTIAL_WINDOW: u8 = 0x83;
/// Temperature sensor VDCS
pub const T_VDCS: u8 = 0x84;
/// Command Header / Unlock (CMDH)
pub const CMDH: u8 = 0xAA;
/// Power Saving Setting (PWS)
pub const PWS: u8 = 0xE3;

/// The dimensions an ED2208 controller drives.
#[derive(Debug, Clone, Copy)]
pub struct Ed2208Config {
    /// Panel width in pixels.
    pub width: u32,
    /// Panel height in pixels.
    pub height: u32,
}

/// The `PARTIAL_WINDOW` write for an area at `(x, y)` of `w` by `h` pixels: X start, X end
/// (`x + w - 1`), Y start and `y + h`, each 16-bit big-endian, then the scan flag.
pub open spec fn partial_area_ops(x: u32, y: u32, w: u32, h: u32) -> Seq<Op> {
    cmd_data(
        PARTIAL_WINDOW,
        be16(x) + be16((x + w - 1) as u32) + be16(y) + be16((y + h) as u32) + seq![0x01u8],
    )
}

/// Whether a partial area's end coordinates are computable in 32 bits.
pub open spec fn partial_area_fits(x: u32, y: u32, w: u32, h: u32) -> bool {
    1 <= x + w <= u32::MAX && y + h <= u32::MAX
}

/// `a - b`, or zero when `b` is larger.
pub open spec fn sat_sub(a: u32, b: u32) -> u32 {
    if a >= b {
        (a - b) as u32
    } else {
        0
    }
}

/// The partial area a window with inclusive bounds selects: its width and height are the
/// (saturated) differences plus one.
pub open spec fn window_plan(x_start: u32, y_start: u32, x_end: u32, y_end: u32) -> Seq<Op> {
    partial_area_ops(
        x_start,
        y_start,
        (sat_sub(x_end, x_start) + 1) as u32,
        (sat_sub(y_end, y_start) + 1) as u32,
    )
}

/// Whether a window's derived area is computable in 32 bits: neither bound may be the largest
/// 32-bit value on either axis.
pub open spec fn window_fits(x_start: u32, y_start: u32, x_end: u32, y_end: u32) -> bool {
    &&& x_start < u32::MAX
    &&& x_end < u32::MAX
    &&& y_start < u32::MAX
    &&& y_end < u32::MAX
}

/// Explicit data writes of at most 64 copies of `byte` each, `count` bytes in all.
pub open spec fn data_chunks(byte: u8, count: nat) -> Seq<Op>
    decreases count,
{
    if count == 0 {
        Seq::empty()
    } else if count <= 64 {
        seq![Op::Data(filled(byte, count))]
    } else {
        seq![Op::Data(filled(byte, 64))] + data_chunks(byte, (count - 64) as nat)
    }
}

/// The initialisation sequence.
pub open spec fn init_plan(c: Ed2208Config) -> Seq<Op> {
    seq![Op::HardReset(20)] + cmd_data(CMDH, seq![0x49u8, 0x55, 0x20, 0x08, 0x09, 0x18])
        + cmd_data(POWER_SETTING, seq![0x3Fu8]) + cmd_data(PANEL_SETTING, seq![0x5Fu8, 0x69])
        + cmd_data(POWER_OFF_SEQUENCE, seq![0x00u8, 0x54, 0x00, 0x44]) + cmd_data(
        BOOSTER_SOFT_START1,
        seq![0x40u8, 0x1F, 0x1F, 0x2C],
    ) + cmd_data(BOOSTER_SOFT_START2, seq![0x6Fu8, 0x1F, 0x17, 0x49]) + cmd_data(
        BOOSTER_SOFT_START3,
        seq![0x6Fu8, 0x1F, 0x1F, 0x22],
    ) + cmd_data(PLL_CONTROL, seq![0x08u8]) + cmd_data(CDI, seq![0x3Fu8]) + cmd_data(
        TCON,
        seq![0x02u8, 0x00],
    ) + cmd_data(RESOLUTION, be16(c.width) + be16(c.height)) + cmd_data(T_VDCS, seq![0x01u8])
        + cmd_data(PWS, seq![0x2Fu8]) + seq![Op::Command(POWER_ON), Op::WaitBusy(false)]
}

/// The refresh: reassert the full-panel area, so a narrowed window never leaks into it, then
/// `DISPLAY_REFRESH` and wait for BUSY (active low) to clear.
pub open spec fn refresh_plan(c: Ed2208Config) -> Seq<Op> {
    partial_area_ops(0, 0, c.width, c.height) + cmd_data(DISPLAY_REFRESH, seq![0x00u8]) + seq![
        Op::DelayMs(1),
        Op::WaitBusyWithDelay(false),
    ]
}

/// ED2208 Controller IC driver.
#[derive(Debug, Clone, Copy)]
pub struct Ed2208Controller {
    width: u32,
    height: u32,
}

impl View for Ed2208Controller {
    type V = Ed2208Config;

    closed spec fn view(&self) -> Ed2208Config {
        Ed2208Config { width: self.width, height: self.height }
    }
}

fn plan_partial_area(ops: &mut Vec<BusOp>, x: u32, y: u32, w: u32, h: u32)
    requires
        partial_area_fits(x, y, w, h),
    ensures
        ops_of(final(ops)@) == ops_of(old(ops)@) + partial_area_ops(x, y, w, h),
{
    let xe = x + w - 1;
    let ye = y + h;
    let data = [
        high_byte(x),
        low_byte(x),
        high_byte(xe),
        low_byte(xe),
        high_byte(y),
        low_byte(y),
        high_byte(ye),
        low_byte(ye),
        0x01,
    ];
    assert(data@ =~= be16(x) + be16(xe) + be16(y) + be16(ye) + seq![0x01u8]);
    send_command_with_data(ops, PARTIAL_WINDOW, &data);
}

impl Ed2208Controller {
    /// Creates a new ED2208 controller configured for target display dimensions.
    pub fn new(width: u32, height: u32) -> (r: Self)
        ensures
            r@ == (Ed2208Config { width, height }),
    {
        Self { width, height }
    }

    /// Plans the partial RAM area window at `(x, y)`, `w` by `h` pixels.
    pub fn set_partial_ram_area(&mut self, x: u32, y: u32, w: u32, h: u32) -> (ops: Vec<BusOp>)
        requires
            partial_area_fits(x, y, w, h),
        ensures
            ops_of(ops@) == partial_area_ops(x, y, w, h),
            *final(self) == *old(self),
    {
        let mut ops: Vec<BusOp> = Vec::new();
        plan_partial_area(&mut ops, x, y, w, h);
        assert(ops_of(ops@) =~= partial_area_ops(x, y, w, h));
        ops
    }
}

fn plan_byte_register(ops: &mut Vec<BusOp>, command: u8, value: u8)
    ensures
        ops_of(final(ops)@) == ops_of(old(ops)@) + cmd_data(command, seq![value]),
{
    let data = [value];
    assert(data@ =~= seq![value]);
    send_command_with_data(ops, command, &data);
}

fn plan_data_chunks(ops: &mut Vec<BusOp>, byte: u8, count: usize)
    ensures
        ops_of(final(ops)@) == ops_of(old(ops)@) + data_chunks(byte, count as nat),
{
    let ghost start = ops_of(ops@);
    let mut remaining = count;
    while remaining > 0
        invariant
            remaining <= count,
            ops_of(ops@) + data_chunks(byte, remaining as nat) == start + data_chunks(
                byte,
                count as nat,
            ),
        decreases remaining,
    {
        let chunk_len: usize = if remaining < 64 {
            remaining
        } else {
            64
        };
        let ghost before = ops_of(ops@);
        push_op(ops, BusOp::Data(filled_bytes(byte, chunk_len)));
        remaining = remaining - chunk_len;
        assert(before + data_chunks(byte, (remaining + chunk_len) as nat) =~= ops_of(ops@)
            + data_chunks(byte, remaining as nat));
    }
    assert(ops_of(ops@) + data_chunks(byte, 0) =~= ops_of(ops@));
}

impl EpdController for Ed2208Controller {
    open spec fn init_ok(&self) -> bool {
        true
    }

    open spec fn init_ops(&self) -> Seq<Op> {
        init_plan(self@)
    }

    open spec fn after_init(&self) -> Self {
        *self
    }

    open spec fn window_ok(&self, x_start: u32, y_start: u32, x_end: u32, y_end: u32) -> bool {
        window_fits(x_start, y_start, x_end, y_end)
    }

    open spec fn window_ops(&self, x_start: u32, y_start: u32, x_end: u32, y_end: u32) -> Seq<Op> {
        window_plan(x_start, y_start, x_end, y_end)
    }

    open spec fn with_window(&self, x_start: u32, y_start: u32, x_end: u32, y_end: u32) -> Self {
        *self
    }

    open spec fn cursor_ok(&self, x: u32, y: u32) -> bool {
        true
    }

    open spec fn cursor_ops(&self, x: u32, y: u32) -> Seq<Op> {
        Seq::empty()
    }

    open spec fn frame_ops(&self, channel: ColorChannel, data: Seq<u8>) -> Seq<Op> {
        cmd_data(DATA_START_TRANSMISSION, data)
    }

    open spec fn pattern_ok(&self, byte: u8, count: usize) -> bool {
        true
    }

    open spec fn pattern_ops(&self, channel: ColorChannel, byte: u8, count: usize) -> Seq<Op> {
        seq![Op::Command(DATA_START_TRANSMISSION)] + data_chunks(byte, count as nat)
    }

    open spec fn refresh_ok(&self) -> bool {
        self@.width >= 1
    }

    open spec fn refresh_ops(&self) -> Seq<Op> {
        refresh_plan(self@)
    }

    open spec fn sleep_ops(&self) -> Seq<Op> {
        cmd_data(POWER_OFF, seq![0x00u8]) + seq![Op::WaitBusy(false)] + cmd_data(
            DEEP_SLEEP,
            seq![0xA5u8],
        )
    }

    fn can_init(&self) -> (r: bool) {
        true
    }

    fn can_set_window(&self, x_start: u32, y_start: u32, x_end: u32, y_end: u32) -> (r: bool) {
        x_start < u32::MAX && x_end < u32::MAX && y_start < u32::MAX && y_end < u32::MAX
    }

    fn can_set_cursor(&self, x: u32, y: u32) -> (r: bool) {
        true
    }

    fn can_fill(&self, byte: u8, count: usize) -> (r: bool) {
        true
    }

    fn can_refresh(&self) -> (r: bool) {
        self.width >= 1
    }

    fn init_sequence(&mut self) -> (ops: Vec<BusOp>) {
        let mut ops: Vec<BusOp> = Vec::new();
        push_op(&mut ops, BusOp::HardReset(20));
        // Vendor unlock sequence (CMDH)
        let cmdh = [0x49u8, 0x55, 0x20, 0x08, 0x09, 0x18];
        assert(cmdh@ =~= seq![0x49u8, 0x55, 0x20, 0x08, 0x09, 0x18]);
        send_command_with_data(&mut ops, CMDH, &cmdh);
        plan_byte_register(&mut ops, POWER_SETTING, 0x3F);
        let psr = [0x5Fu8, 0x69];
        assert(psr@ =~= seq![0x5Fu8, 0x69]);
        send_command_with_data(&mut ops, PANEL_SETTING, &psr);
        let pofs = [0x00u8, 0x54, 0x00, 0x44];
        assert(pofs@ =~= seq![0x00u8, 0x54, 0x00, 0x44]);
        send_command_with_data(&mut ops, POWER_OFF_SEQUENCE, &pofs);
        let bs1 = [0x40u8, 0x1F, 0x1F, 0x2C];
        assert(bs1@ =~= seq![0x40u8, 0x1F, 0x1F, 0x2C]);
        send_command_with_data(&mut ops, BOOSTER_SOFT_START1, &bs1);
        let bs2 = [0x6Fu8, 0x1F, 0x17, 0x49];
        assert(bs2@ =~= seq![0x6Fu8, 0x1F, 0x17, 0x49]);
        send_command_with_data(&mut ops, BOOSTER_SOFT_START2, &bs2);
        let bs3 = [0x6Fu8, 0x1F, 0x1F, 0x22];
        assert(bs3@ =~= seq![0x6Fu8, 0x1F, 0x1F, 0x22]);
        send_command_with_data(&mut ops, BOOSTER_SOFT_START3, &bs3);
        plan_byte_register(&mut ops, PLL_CONTROL, 0x08);
        plan_byte_register(&mut ops, CDI, 0x3F);
        let tcon = [0x02u8, 0x00];
        assert(tcon@ =~= seq![0x02u8, 0x00]);
        send_command_with_data(&mut ops, TCON, &tcon);
        let w = self.width;
        let h = self.height;
        let res = [high_byte(w), low_byte(w), high_byte(h), low_byte(h)];
        assert(res@ =~= be16(w) + be16(h));
        send_command_with_data(&mut ops, RESOLUTION, &res);
        plan_byte_register(&mut ops, T_VDCS, 0x01);
        plan_byte_register(&mut ops, PWS, 0x2F);
        // Power on, then wait while BUSY (active low) reads busy.
        send_command(&mut ops, POWER_ON);
        push_op(&mut ops, BusOp::WaitBusy(false));
        assert(ops_of(ops@) =~= init_plan(self@));
        ops
    }

    fn set_window(&mut self, x_start: u32, y_start: u32, x_end: u32, y_end: u32) -> (ops: Vec<
        BusOp,
    >) {
        let w = if x_end >= x_start {
            x_end - x_start
        } else {
            0
        } + 1;
        let h = if y_end >= y_start {
            y_end - y_start
        } else {
            0
        } + 1;
        self.set_partial_ram_area(x_start, y_start, w, h)
    }

    /// No RAM cursor register: nothing to plan.
    fn set_cursor(&mut self, x: u32, y: u32) -> (ops: Vec<BusOp>) {
        let ops: Vec<BusOp> = Vec::new();
        assert(ops_of(ops@) =~= Seq::<Op>::empty());
        ops
    }

    /// One 4 bpp RAM plane carries every colour: the channel does not change the command.
    fn write_frame(&mut self, channel: ColorChannel, data: &[u8]) -> (ops: Vec<BusOp>) {
        let mut ops: Vec<BusOp> = Vec::new();
        send_command_with_data(&mut ops, DATA_START_TRANSMISSION, data);
        assert(ops_of(ops@) =~= cmd_data(DATA_START_TRANSMISSION, data@));
        ops
    }

    fn write_frame_pattern(&mut self, channel: ColorChannel, byte: u8, count: usize) -> (ops: Vec<
        BusOp,
    >) {
        let mut ops: Vec<BusOp> = Vec::new();
        send_command(&mut ops, DATA_START_TRANSMISSION);
        plan_data_chunks(&mut ops, byte, count);
        assert(ops_of(ops@) =~= self.pattern_ops(channel, byte, count));
        ops
    }

    fn trigger_refresh(&mut self) -> (ops: Vec<BusOp>) {
        let mut ops: Vec<BusOp> = Vec::new();
        // Reassert the full-panel window before every refresh.
        plan_partial_area(&mut ops, 0, 0, self.width, self.height);
        plan_byte_register(&mut ops, DISPLAY_REFRESH, 0x00);
        push_op(&mut ops, BusOp::DelayMs(1));
        // BUSY is held low during the full refresh.
        push_op(&mut ops, BusOp::WaitBusyWithDelay(false));
        assert(ops_of(ops@) =~= refresh_plan(self@));
        ops
    }

    fn sleep(&mut self) -> (ops: Vec<BusOp>) {
        let mut ops: Vec<BusOp> = Vec::new();
        plan_byte_register(&mut ops, POWER_OFF, 0x00);
        push_op(&mut ops, BusOp::WaitBusy(false));
        plan_byte_register(&mut ops, DEEP_SLEEP, 0xA5);
        assert(ops_of(ops@) =~= self.sleep_ops());
        ops
    }
}

/// Filling with explicit writes of at most 64 bytes puts exactly the same writes on the wire as
/// a repeated-byte transfer of the same length.
pub proof fn lemma_chunked_fill_matches_repeated(byte: u8, count: nat)
    ensures
        ops_wire(data_chunks(byte, count)) == ops_wire(repeated_op(byte, count)),
    decreases count,
{
    if count == 0 {
        assert(data_chunks(byte, 0) =~= Seq::<Op>::empty());
        assert(repeated_op(byte, 0) =~= Seq::<Op>::empty());
    } else {
        assert(ops_wire(repeated_op(byte, count)) == repeat_chunks(byte, count)) by {
            let s = seq![Op::DataRepeated(byte, count)];
            assert(s.drop_last() =~= Seq::<Op>::empty());
            assert(ops_wire(s) =~= ops_wire(s.drop_last()) + op_wire(s.last()));
        }
        if count <= 64 {
            let s = seq![Op::Data(filled(byte, count))];
            assert(s.drop_last() =~= Seq::<Op>::empty());
            assert(ops_wire(s) =~= ops_wire(s.drop_last()) + op_wire(s.last()));
        } else {
            let head = seq![Op::Data(filled(byte, 64))];
            let rest = (count - 64) as nat;
            lemma_chunked_fill_matches_repeated(byte, rest);
            lemma_ops_wire_concat(head, data_chunks(byte, rest));
            assert(head.drop_last() =~= Seq::<Op>::empty());
            assert(ops_wire(head) =~= ops_wire(head.drop_last()) + op_wire(head.last()));
            if rest > 0 {
                let r = seq![Op::DataRepeated(byte, rest)];
                assert(r.drop_last() =~= Seq::<Op>::empty());
                assert(ops_wire(r) =~= ops_wire(r.drop_last()) + op_wire(r.last()));
            }
            assert(ops_wire(data_chunks(byte, count)) =~= repeat_chunks(byte, count));
        }
    }
}


/// What the ED2208 is sent to start, refresh and sleep. Initialisation: the hardware reset, the
/// vendor unlock `0xAA` (`49 55 20 08 09 18`) before any register, the power, panel, booster,
/// PLL, interval and timing registers in the reference order, the resolution `0x61` as width
/// then height, each two bytes read high byte first, and power-on with a wait. Refresh: the
/// full-panel area is reasserted, then `0x12 [00]`, 1 ms, and a wait. Sleep: power-off
/// `0x02 [00]`, a wait, then deep sleep `0x07` with its `0xA5` check byte, and nothing more.
pub proof fn lemma_ed2208_sequences(c: Ed2208Controller)
    ensures
        ({
            let ops = c.init_ops();
            &&& ops.len() == 29
            &&& ops[0] == Op::HardReset(20)
            &&& ops[1] == Op::Command(0xAA)
            &&& ops[2] == Op::Data(seq![0x49u8, 0x55, 0x20, 0x08, 0x09, 0x18])
            &&& ops[3] == Op::Command(0x01) && ops[4] == Op::Data(seq![0x3Fu8])
            &&& ops[5] == Op::Command(0x00) && ops[6] == Op::Data(seq![0x5Fu8, 0x69])
            &&& ops[7] == Op::Command(0x03) && ops[8] == Op::Data(seq![0x00u8, 0x54, 0x00, 0x44])
            &&& ops[9] == Op::Command(0x05) && ops[10] == Op::Data(seq![0x40u8, 0x1F, 0x1F, 0x2C])
            &&& ops[11] == Op::Command(0x06) && ops[12] == Op::Data(seq![0x6Fu8, 0x1F, 0x17, 0x49])
            &&& ops[13] == Op::Command(0x08) && ops[14] == Op::Data(seq![0x6Fu8, 0x1F, 0x1F, 0x22])
            &&& ops[15] == Op::Command(0x30) && ops[16] == Op::Data(seq![0x08u8])
            &&& ops[17] == Op::Command(0x50) && ops[18] == Op::Data(seq![0x3Fu8])
            &&& ops[19] == Op::Command(0x60) && ops[20] == Op::Data(seq![0x02u8, 0x00])
            &&& ops[21] == Op::Command(0x61)
            &&& ops[22] matches Op::Data(r) && r.len() == 4 && reads_be16(r.subrange(0, 2), c@.width)
                && reads_be16(r.subrange(2, 4), c@.height)
            &&& ops[23] == Op::Command(0x84) && ops[24] == Op::Data(seq![0x01u8])
            &&& ops[25] == Op::Command(0xE3) && ops[26] == Op::Data(seq![0x2Fu8])
            &&& ops[27] == Op::Command(0x04) && ops[28] == Op::WaitBusy(false)
        }),
        ({
            let ops = c.refresh_ops();
            let n = ops.len();
            &&& n == 6
            &&& ops[0] == Op::Command(0x83)
            &&& ops[2] == Op::Command(0x12) && ops[3] == Op::Data(seq![0x00u8])
            &&& ops[4] == Op::DelayMs(1) && ops[5] == Op::WaitBusyWithDelay(false)
        }),
        c.sleep_ops() == seq![
            Op::Command(0x02),
            Op::Data(seq![0x00u8]),
            Op::WaitBusy(false),
            Op::Command(0x07),
            Op::Data(seq![0xA5u8]),
        ],
{
    lemma_16_bit_encodings_read_back(c@.width);
    lemma_16_bit_encodings_read_back(c@.height);
    let r = be16(c@.width) + be16(c@.height);
    assert(r.subrange(0, 2) =~= be16(c@.width));
    assert(r.subrange(2, 4) =~= be16(c@.height));
    assert(c.init_ops()[22] == Op::Data(r));
    assert(c.sleep_ops() =~= seq![
        Op::Command(0x02),
        Op::Data(seq![0x00u8]),
        Op::WaitBusy(false),
        Op::Command(0x07),
        Op::Data(seq![0xA5u8]),
    ]);
}

} // verus!
