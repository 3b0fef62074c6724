//! JD7966x (JD79660AA & JD79661AA) E-Paper Display Controller.
//!
//! Both ICs share one command-register table and differ only in which registers the init
//! sequence writes and with what values; every other operation is identical between them.
//! `DISPLAY_REFRESH` and `POWER_OFF` each carry their mandatory `0x00` data byte.

use vstd::prelude::*;
use crate::bus::{BusOp, Op, cmd_data, ops_of, push_op, send_command, send_command_with_data};
use crate::controllers::common::{
    be16, fill_ops, high_byte, lemma_16_bit_encodings_read_back, low_byte, plan_fill, reads_be16,
};
use crate::traits::{ColorChannel, EpdController};

verus! {

/// Panel Setting command
pub const PANEL_SETTING: u8 = 0x00;
/// Power Setting / Software Reset command (JD79661 only)
pub const POWER_SETTING: u8 = 0x01;
/// Power OFF command
pub const POWER_OFF: u8 = 0x02;
/// Power Offset command (JD79661 only)
pub const POWER_OFFSET: u8 = 0x03;
/// Power ON command
pub const POWER_ON: u8 = 0x04;
/// Booster Soft Start command
pub const BOOSTER_SOFT_START: u8 = 0x06;
/// Deep Sleep command
pub const DEEP_SLEEP: u8 = 0x07;
/// Data Start Transmission / Write RAM
pub const DATA_START_TRANSMISSION: u8 = 0x10;
/// Display Refresh command
pub const DISPLAY_REFRESH: u8 = 0x12;
/// PLL Control register
pub const PLL_CONTROL: u8 = 0x30;
/// Vendor Magic Key (undocumented in either public datasheet)
pub const MAGIC_KEY: u8 = 0x4D;
/// VCOM and Data Interval Setting (CDI)
pub const CDI: u8 = 0x50;
/// TCON Setting (JD79661 only)
pub const TCON: u8 = 0x60;
/// Resolution Setting
pub const RESOLUTION: u8 = 0x61;

/// JD7966x IC variant family.
#[derive(Debug, Clone, Copy, PartialEq, Eq, Structural)]
pub enum Jd7966xVariant {
    /// JD79660AA — plain (non-fast) init; a smaller register subset than the JD79661AA.
    /// Drives `GDEM0154F51H`.
    Jd79660,
    /// JD79661AA — drives `ZJY122250_0213AJH_E5` / `GDEY0213F51`.
    Jd79661,
}

impl Default for Jd7966xVariant {
    fn default() -> (r: Self)
        ensures
            r == Jd7966xVariant::Jd79660,
    {
        Jd7966xVariant::Jd79660
    }
}

/// The configuration of a JD7966x controller.
#[derive(Debug, Clone, Copy)]
pub struct Jd7966xConfig {
    /// Panel width in pixels.
    pub width: u32,
    /// Panel height in pixels.
    pub height: u32,
    /// IC variant.
    pub variant: Jd7966xVariant,
}

/// The width rounded up to whole bytes of pixels: the JD79661 RAM row.
pub open spec fn padded_width(width: u32) -> int {
    (width + 7) / 8 * 8
}

/// The register writes specific to each variant, between the reset and the power-on.
pub open spec fn variant_registers(c: Jd7966xConfig) -> Seq<Op> {
    match c.variant {
        Jd7966xVariant::Jd79660 => cmd_data(MAGIC_KEY, seq![0x78u8]) + cmd_data(
            PANEL_SETTING,
            seq![0x0Fu8, 0x29u8],
        ) + cmd_data(BOOSTER_SOFT_START, seq![0x0Du8, 0x12, 0x30, 0x20, 0x19, 0x2A, 0x22])
            + cmd_data(CDI, seq![0x37u8]) + cmd_data(RESOLUTION, be16(c.width) + be16(c.height))
            + cmd_data(0xE9, seq![0x01u8]) + cmd_data(PLL_CONTROL, seq![0x08u8]),
        Jd7966xVariant::Jd79661 => seq![Op::Command(POWER_SETTING), Op::WaitBusy(false)]
            + cmd_data(MAGIC_KEY, seq![0x78u8]) + cmd_data(PANEL_SETTING, seq![0x8Fu8, 0x29u8])
            + cmd_data(POWER_SETTING, seq![0x07u8, 0x00u8]) + cmd_data(
            POWER_OFFSET,
            seq![0x10u8, 0x54, 0x44],
        ) + cmd_data(BOOSTER_SOFT_START, seq![0x05u8, 0x00, 0x3F, 0x0A, 0x25, 0x12, 0x1A])
            + cmd_data(CDI, seq![0x37u8]) + cmd_data(TCON, seq![0x02u8, 0x02u8]) + cmd_data(
            RESOLUTION,
            be16(padded_width(c.width) as u32) + be16(c.height),
        ) + cmd_data(0xE7, seq![0x1Cu8]) + cmd_data(0xE3, seq![0x22u8]) + cmd_data(
            0xB4,
            seq![0xD0u8],
        ) + cmd_data(0xB5, seq![0x03u8]) + cmd_data(0xE9, seq![0x01u8]) + cmd_data(
            PLL_CONTROL,
            seq![0x08u8],
        ),
    }
}

/// The initialisation sequence: reset, the variant's registers, then power on. BUSY is
/// active-low on both variants.
pub open spec fn init_plan(c: Jd7966xConfig) -> Seq<Op> {
    seq![Op::HardReset(10), Op::WaitBusy(false)] + variant_registers(c) + seq![
        Op::Command(POWER_ON),
        Op::WaitBusy(false),
    ]
}

/// Whether the init sequence can be computed: the JD79661 pads the width to whole bytes, which
/// must still fit in 32 bits.
pub open spec fn init_fits(c: Jd7966xConfig) -> bool {
    c.variant == Jd7966xVariant::Jd79661 ==> c.width <= 0xFFFF_FFF8
}

/// The refresh: `DISPLAY_REFRESH` with its `0x00` byte, then wait for BUSY to clear.
pub open spec fn refresh_plan() -> Seq<Op> {
    cmd_data(DISPLAY_REFRESH, seq![0x00u8]) + seq![Op::WaitBusy(false)]
}

/// Deep sleep: `POWER_OFF` with its `0x00` byte, wait, then `DEEP_SLEEP` with its `0xA5` confirmation byte.
pub open spec fn sleep_plan() -> Seq<Op> {
    cmd_data(POWER_OFF, seq![0x00u8]) + seq![Op::WaitBusy(false)] + cmd_data(
        DEEP_SLEEP,
        seq![0xA5u8],
    )
}

/// Generic JD7966x (JD79660AA / JD79661AA) Controller IC driver.
#[derive(Debug, Clone, Copy)]
pub struct Jd7966xController {
    width: u32,
    height: u32,
    variant: Jd7966xVariant,
}

impl View for Jd7966xController {
    type V = Jd7966xConfig;

    closed spec fn view(&self) -> Jd7966xConfig {
        Jd7966xConfig { width: self.width, height: self.height, variant: self.variant }
    }
}

impl Jd7966xController {
    /// Creates a new JD79660AA controller instance configured for target display dimensions.
    pub fn new_jd79660(width: u32, height: u32) -> (r: Self)
        ensures
            r@ == (Jd7966xConfig { width, height, variant: Jd7966xVariant::Jd79660 }),
    {
        Self { width, height, variant: Jd7966xVariant::Jd79660 }
    }

    /// Creates a new JD79661AA controller instance configured for target display dimensions.
    pub fn new_jd79661(width: u32, height: u32) -> (r: Self)
        ensures
            r@ == (Jd7966xConfig { width, height, variant: Jd7966xVariant::Jd79661 }),
    {
        Self { width, height, variant: Jd7966xVariant::Jd79661 }
    }

    /// Creates a new JD7966x controller with target dimensions and variant.
    pub fn new(width: u32, height: u32, variant: Jd7966xVariant) -> (r: Self)
        ensures
            r@ == (Jd7966xConfig { width, height, variant }),
    {
        Self { width, height, variant }
    }
}

fn plan_resolution(ops: &mut Vec<BusOp>, width: u32, height: u32)
    ensures
        ops_of(final(ops)@) == ops_of(old(ops)@) + cmd_data(RESOLUTION, be16(width) + be16(height)),
{
    let data = [high_byte(width), low_byte(width), high_byte(height), low_byte(height)];
    assert(data@ =~= be16(width) + be16(height));
    send_command_with_data(ops, RESOLUTION, &data);
}

fn plan_byte_register(ops: &mut Vec<BusOp>, command: u8, value: u8)
    ensures
        ops_of(final(ops)@) == ops_of(old(ops)@) + cmd_data(command, seq![value]),
{
    let data = [value];
    assert(data@ =~= seq![value]);
    send_command_with_data(ops, command, &data);
}

fn plan_variant_registers(ops: &mut Vec<BusOp>, width: u32, height: u32, variant: Jd7966xVariant)
    requires
        variant == Jd7966xVariant::Jd79661 ==> width <= 0xFFFF_FFF8,
    ensures
        ops_of(final(ops)@) == ops_of(old(ops)@) + variant_registers(
            Jd7966xConfig { width, height, variant },
        ),
{
    let ghost start = ops_of(ops@);
    match variant {
        Jd7966xVariant::Jd79660 => {
            plan_byte_register(ops, MAGIC_KEY, 0x78);
            let psr = [0x0Fu8, 0x29u8];
            assert(psr@ =~= seq![0x0Fu8, 0x29u8]);
            send_command_with_data(ops, PANEL_SETTING, &psr);
            let boost = [0x0Du8, 0x12, 0x30, 0x20, 0x19, 0x2A, 0x22];
            assert(boost@ =~= seq![0x0Du8, 0x12, 0x30, 0x20, 0x19, 0x2A, 0x22]);
            send_command_with_data(ops, BOOSTER_SOFT_START, &boost);
            plan_byte_register(ops, CDI, 0x37);
            // 200x200 is already 8-pixel aligned: no rounding.
            plan_resolution(ops, width, height);
            plan_byte_register(ops, 0xE9, 0x01);
            plan_byte_register(ops, PLL_CONTROL, 0x08);
        },
        Jd7966xVariant::Jd79661 => {
            // Software reset: the command alone, with no parameter bytes.
            send_command(ops, POWER_SETTING);
            push_op(ops, BusOp::WaitBusy(false));
            plan_byte_register(ops, MAGIC_KEY, 0x78);
            let psr = [0x8Fu8, 0x29u8];
            assert(psr@ =~= seq![0x8Fu8, 0x29u8]);
            send_command_with_data(ops, PANEL_SETTING, &psr);
            let pwr = [0x07u8, 0x00u8];
            assert(pwr@ =~= seq![0x07u8, 0x00u8]);
            send_command_with_data(ops, POWER_SETTING, &pwr);
            let offset = [0x10u8, 0x54, 0x44];
            assert(offset@ =~= seq![0x10u8, 0x54, 0x44]);
            send_command_with_data(ops, POWER_OFFSET, &offset);
            let boost = [0x05u8, 0x00, 0x3F, 0x0A, 0x25, 0x12, 0x1A];
            assert(boost@ =~= seq![0x05u8, 0x00, 0x3F, 0x0A, 0x25, 0x12, 0x1A]);
            send_command_with_data(ops, BOOSTER_SOFT_START, &boost);
            plan_byte_register(ops, CDI, 0x37);
            let tcon = [0x02u8, 0x02u8];
            assert(tcon@ =~= seq![0x02u8, 0x02u8]);
            send_command_with_data(ops, TCON, &tcon);
            // The RAM row is the width rounded up to whole bytes (122 px -> 128).
            let ram_width = (width + 7) / 8 * 8;
            plan_resolution(ops, ram_width, height);
            plan_byte_register(ops, 0xE7, 0x1C);
            plan_byte_register(ops, 0xE3, 0x22);
            plan_byte_register(ops, 0xB4, 0xD0);
            plan_byte_register(ops, 0xB5, 0x03);
            plan_byte_register(ops, 0xE9, 0x01);
            plan_byte_register(ops, PLL_CONTROL, 0x08);
        },
    }
    assert(ops_of(final(ops)@) =~= start + variant_registers(
        Jd7966xConfig { width, height, variant },
    ));
}

fn plan_init(ops: &mut Vec<BusOp>, width: u32, height: u32, variant: Jd7966xVariant)
    requires
        variant == Jd7966xVariant::Jd79661 ==> width <= 0xFFFF_FFF8,
    ensures
        ops_of(final(ops)@) == ops_of(old(ops)@) + init_plan(
            Jd7966xConfig { width, height, variant },
        ),
{
    push_op(ops, BusOp::HardReset(10));
    push_op(ops, BusOp::WaitBusy(false));
    plan_variant_registers(ops, width, height, variant);
    send_command(ops, POWER_ON);
    push_op(ops, BusOp::WaitBusy(false));
    assert(ops_of(final(ops)@) =~= ops_of(old(ops)@) + init_plan(
        Jd7966xConfig { width, height, variant },
    ));
}

fn plan_refresh(ops: &mut Vec<BusOp>)
    ensures
        ops_of(final(ops)@) == ops_of(old(ops)@) + refresh_plan(),
{
    plan_byte_register(ops, DISPLAY_REFRESH, 0x00);
    push_op(ops, BusOp::WaitBusy(false));
    assert(ops_of(final(ops)@) =~= ops_of(old(ops)@) + refresh_plan());
}

fn plan_sleep(ops: &mut Vec<BusOp>)
    ensures
        ops_of(final(ops)@) == ops_of(old(ops)@) + sleep_plan(),
{
    plan_byte_register(ops, POWER_OFF, 0x00);
    push_op(ops, BusOp::WaitBusy(false));
    plan_byte_register(ops, DEEP_SLEEP, 0xA5);
    assert(ops_of(final(ops)@) =~= ops_of(old(ops)@) + sleep_plan());
}

impl EpdController for Jd7966xController {
    open spec fn init_ok(&self) -> bool {
        init_fits(self@)
    }

    open spec fn init_ops(&self) -> Seq<Op> {
        init_plan(self@)
    }

    open spec fn after_init(&self) -> Self {
        *self
    }

    open spec fn window_ok(&self, x_start: u32, y_start: u32, x_end: u32, y_end: u32) -> bool {
        true
    }

    open spec fn window_ops(&self, x_start: u32, y_start: u32, x_end: u32, y_end: u32) -> Seq<Op> {
        Seq::empty()
    }

    open spec fn with_window(&self, x_start: u32, y_start: u32, x_end: u32, y_end: u32) -> Self {
        *self
    }

    open spec fn cursor_ok(&self, x: u32, y: u32) -> bool {
        true
    }

    open spec fn cursor_ops(&self, x: u32, y: u32) -> Seq<Op> {
        Seq::empty()
    }

    open spec fn frame_ops(&self, channel: ColorChannel, data: Seq<u8>) -> Seq<Op> {
        cmd_data(DATA_START_TRANSMISSION, data)
    }

    open spec fn pattern_ok(&self, byte: u8, count: usize) -> bool {
        true
    }

    open spec fn pattern_ops(&self, channel: ColorChannel, byte: u8, count: usize) -> Seq<Op> {
        fill_ops(DATA_START_TRANSMISSION, byte, count)
    }

    open spec fn refresh_ok(&self) -> bool {
        true
    }

    open spec fn refresh_ops(&self) -> Seq<Op> {
        refresh_plan()
    }

    open spec fn sleep_ops(&self) -> Seq<Op> {
        sleep_plan()
    }

    fn can_init(&self) -> (r: bool) {
        match self.variant {
            Jd7966xVariant::Jd79661 => self.width <= 0xFFFF_FFF8,
            _ => true,
        }
    }

    fn can_set_window(&self, x_start: u32, y_start: u32, x_end: u32, y_end: u32) -> (r: bool) {
        true
    }

    fn can_set_cursor(&self, x: u32, y: u32) -> (r: bool) {
        true
    }

    fn can_fill(&self, byte: u8, count: usize) -> (r: bool) {
        true
    }

    fn can_refresh(&self) -> (r: bool) {
        true
    }

    fn init_sequence(&mut self) -> (ops: Vec<BusOp>) {
        let mut ops: Vec<BusOp> = Vec::new();
        plan_init(&mut ops, self.width, self.height, self.variant);
        assert(ops_of(ops@) =~= init_plan(self@));
        ops
    }

    /// Both variants stream the full frame buffer: nothing to plan.
    fn set_window(&mut self, x_start: u32, y_start: u32, x_end: u32, y_end: u32) -> (ops: Vec<
        BusOp,
    >) {
        let ops: Vec<BusOp> = Vec::new();
        assert(ops_of(ops@) =~= Seq::<Op>::empty());
        ops
    }

    /// No RAM cursor register: nothing to plan.
    fn set_cursor(&mut self, x: u32, y: u32) -> (ops: Vec<BusOp>) {
        let ops: Vec<BusOp> = Vec::new();
        assert(ops_of(ops@) =~= Seq::<Op>::empty());
        ops
    }

    /// One RAM plane carries every colour: the channel does not change the command.
    fn write_frame(&mut self, channel: ColorChannel, data: &[u8]) -> (ops: Vec<BusOp>) {
        let mut ops: Vec<BusOp> = Vec::new();
        send_command_with_data(&mut ops, DATA_START_TRANSMISSION, data);
        assert(ops_of(ops@) =~= cmd_data(DATA_START_TRANSMISSION, data@));
        ops
    }

    fn write_frame_pattern(&mut self, channel: ColorChannel, byte: u8, count: usize) -> (ops: Vec<
        BusOp,
    >) {
        let mut ops: Vec<BusOp> = Vec::new();
        plan_fill(&mut ops, DATA_START_TRANSMISSION, byte, count);
        assert(ops_of(ops@) =~= fill_ops(DATA_START_TRANSMISSION, byte, count));
        ops
    }

    fn trigger_refresh(&mut self) -> (ops: Vec<BusOp>) {
        let mut ops: Vec<BusOp> = Vec::new();
        plan_refresh(&mut ops);
        assert(ops_of(ops@) =~= refresh_plan());
        ops
    }

    fn sleep(&mut self) -> (ops: Vec<BusOp>) {
        let mut ops: Vec<BusOp> = Vec::new();
        plan_sleep(&mut ops);
        assert(ops_of(ops@) =~= sleep_plan());
        ops
    }
}

/// Dedicated controller for the JD79660AA IC (`GDEM0154F51H`).
#[derive(Debug, Clone, Copy)]
pub struct Jd79660Controller {
    inner: Jd7966xController,
}

impl View for Jd79660Controller {
    type V = Jd7966xConfig;

    closed spec fn view(&self) -> Jd7966xConfig {
        self.inner@
    }
}

impl Jd79660Controller {
    /// Creates a new JD79660AA controller instance configured for target display dimensions.
    pub fn new(width: u32, height: u32) -> (r: Self)
        ensures
            r@ == (Jd7966xConfig { width, height, variant: Jd7966xVariant::Jd79660 }),
    {
        Self { inner: Jd7966xController::new_jd79660(width, height) }
    }
}

impl EpdController for Jd79660Controller {
    open spec fn init_ok(&self) -> bool {
        init_fits(self@)
    }

    open spec fn init_ops(&self) -> Seq<Op> {
        init_plan(self@)
    }

    open spec fn after_init(&self) -> Self {
        *self
    }

    open spec fn window_ok(&self, x_start: u32, y_start: u32, x_end: u32, y_end: u32) -> bool {
        true
    }

    open spec fn window_ops(&self, x_start: u32, y_start: u32, x_end: u32, y_end: u32) -> Seq<Op> {
        Seq::empty()
    }

    open spec fn with_window(&self, x_start: u32, y_start: u32, x_end: u32, y_end: u32) -> Self {
        *self
    }

    open spec fn cursor_ok(&self, x: u32, y: u32) -> bool {
        true
    }

    open spec fn cursor_ops(&self, x: u32, y: u32) -> Seq<Op> {
        Seq::empty()
    }

    open spec fn frame_ops(&self, channel: ColorChannel, data: Seq<u8>) -> Seq<Op> {
        cmd_data(DATA_START_TRANSMISSION, data)
    }

    open spec fn pattern_ok(&self, byte: u8, count: usize) -> bool {
        true
    }

    open spec fn pattern_ops(&self, channel: ColorChannel, byte: u8, count: usize) -> Seq<Op> {
        fill_ops(DATA_START_TRANSMISSION, byte, count)
    }

    open spec fn refresh_ok(&self) -> bool {
        true
    }

    open spec fn refresh_ops(&self) -> Seq<Op> {
        refresh_plan()
    }

    open spec fn sleep_ops(&self) -> Seq<Op> {
        sleep_plan()
    }

    fn can_init(&self) -> (r: bool) {
        self.inner.can_init()
    }

    fn can_set_window(&self, x_start: u32, y_start: u32, x_end: u32, y_end: u32) -> (r: bool) {
        true
    }

    fn can_set_cursor(&self, x: u32, y: u32) -> (r: bool) {
        true
    }

    fn can_fill(&self, byte: u8, count: usize) -> (r: bool) {
        true
    }

    fn can_refresh(&self) -> (r: bool) {
        true
    }

    fn init_sequence(&mut self) -> (ops: Vec<BusOp>) {
        self.inner.init_sequence()
    }

    fn set_window(&mut self, x_start: u32, y_start: u32, x_end: u32, y_end: u32) -> (ops: Vec<
        BusOp,
    >) {
        self.inner.set_window(x_start, y_start, x_end, y_end)
    }

    fn set_cursor(&mut self, x: u32, y: u32) -> (ops: Vec<BusOp>) {
        self.inner.set_cursor(x, y)
    }

    fn write_frame(&mut self, channel: ColorChannel, data: &[u8]) -> (ops: Vec<BusOp>) {
        self.inner.write_frame(channel, data)
    }

    fn write_frame_pattern(&mut self, channel: ColorChannel, byte: u8, count: usize) -> (ops: Vec<
        BusOp,
    >) {
        self.inner.write_frame_pattern(channel, byte, count)
    }

    fn trigger_refresh(&mut self) -> (ops: Vec<BusOp>) {
        self.inner.trigger_refresh()
    }

    fn sleep(&mut self) -> (ops: Vec<BusOp>) {
        self.inner.sleep()
    }
}

/// Dedicated controller for the JD79661AA IC (`ZJY122250_0213AJH_E5` / `GDEY0213F51`).
#[derive(Debug, Clone, Copy)]
pub struct Jd79661Controller {
    inner: Jd7966xController,
}

impl View for Jd79661Controller {
    type V = Jd7966xConfig;

    closed spec fn view(&self) -> Jd7966xConfig {
        self.inner@
    }
}

impl Jd79661Controller {
    /// Creates a new JD79661AA controller instance configured for target display dimensions.
    pub fn new(width: u32, height: u32) -> (r: Self)
        ensures
            r@ == (Jd7966xConfig { width, height, variant: Jd7966xVariant::Jd79661 }),
    {
        Self { inner: Jd7966xController::new_jd79661(width, height) }
    }
}

impl EpdController for Jd79661Controller {
    open spec fn init_ok(&self) -> bool {
        init_fits(self@)
    }

    open spec fn init_ops(&self) -> Seq<Op> {
        init_plan(self@)
    }

    open spec fn after_init(&self) -> Self {
        *self
    }

    open spec fn window_ok(&self, x_start: u32, y_start: u32, x_end: u32, y_end: u32) -> bool {
        true
    }

    open spec fn window_ops(&self, x_start: u32, y_start: u32, x_end: u32, y_end: u32) -> Seq<Op> {
        Seq::empty()
    }

    open spec fn with_window(&self, x_start: u32, y_start: u32, x_end: u32, y_end: u32) -> Self {
        *self
    }

    open spec fn cursor_ok(&self, x: u32, y: u32) -> bool {
        true
    }

    open spec fn cursor_ops(&self, x: u32, y: u32) -> Seq<Op> {
        Seq::empty()
    }

    open spec fn frame_ops(&self, channel: ColorChannel, data: Seq<u8>) -> Seq<Op> {
        cmd_data(DATA_START_TRANSMISSION, data)
    }

    open spec fn pattern_ok(&self, byte: u8, count: usize) -> bool {
        true
    }

    open spec fn pattern_ops(&self, channel: ColorChannel, byte: u8, count: usize) -> Seq<Op> {
        fill_ops(DATA_START_TRANSMISSION, byte, count)
    }

    open spec fn refresh_ok(&self) -> bool {
        true
    }

    open spec fn refresh_ops(&self) -> Seq<Op> {
        refresh_plan()
    }

    open spec fn sleep_ops(&self) -> Seq<Op> {
        sleep_plan()
    }

    fn can_init(&self) -> (r: bool) {
        self.inner.can_init()
    }

    fn can_set_window(&self, x_start: u32, y_start: u32, x_end: u32, y_end: u32) -> (r: bool) {
        true
    }

    fn can_set_cursor(&self, x: u32, y: u32) -> (r: bool) {
        true
    }

    fn can_fill(&self, byte: u8, count: usize) -> (r: bool) {
        true
    }

    fn can_refresh(&self) -> (r: bool) {
        true
    }

    fn init_sequence(&mut self) -> (ops: Vec<BusOp>) {
        self.inner.init_sequence()
    }

    fn set_window(&mut self, x_start: u32, y_start: u32, x_end: u32, y_end: u32) -> (ops: Vec<
        BusOp,
    >) {
        self.inner.set_window(x_start, y_start, x_end, y_end)
    }

    fn set_cursor(&mut self, x: u32, y: u32) -> (ops: Vec<BusOp>) {
        self.inner.set_cursor(x, y)
    }

    fn write_frame(&mut self, channel: ColorChannel, data: &[u8]) -> (ops: Vec<BusOp>) {
        self.inner.write_frame(channel, data)
    }

    fn write_frame_pattern(&mut self, channel: ColorChannel, byte: u8, count: usize) -> (ops: Vec<
        BusOp,
    >) {
        self.inner.write_frame_pattern(channel, byte, count)
    }

    fn trigger_refresh(&mut self) -> (ops: Vec<BusOp>) {
        self.inner.trigger_refresh()
    }

    fn sleep(&mut self) -> (ops: Vec<BusOp>) {
        self.inner.sleep()
    }
}


/// Every JD7966x controller sleeps with power-off `0x02 [00]`, a wait for BUSY, then deep sleep
/// `0x07` with its `0xA5` check byte, and nothing more.
pub proof fn lemma_jd7966x_sleep(c: Jd7966xController, c60: Jd79660Controller, c61: Jd79661Controller)
    ensures
        c.sleep_ops() == seq![
            Op::Command(0x02),
            Op::Data(seq![0x00u8]),
            Op::WaitBusy(false),
            Op::Command(0x07),
            Op::Data(seq![0xA5u8]),
        ],
        c60.sleep_ops() == c.sleep_ops(),
        c61.sleep_ops() == c.sleep_ops(),
{
    assert(sleep_plan() =~= seq![
        Op::Command(0x02),
        Op::Data(seq![0x00u8]),
        Op::WaitBusy(false),
        Op::Command(0x07),
        Op::Data(seq![0xA5u8]),
    ]);
}


/// Whether `ops`, from index `k` on, set the resolution `0x61` to a width `w` and height `h`,
/// each two bytes read high byte first.
pub open spec fn sets_resolution(ops: Seq<Op>, k: int, w: int, h: u32) -> bool {
    &&& 0 <= k && k + 1 < ops.len()
    &&& ops[k] == Op::Command(0x61)
    &&& ops[k + 1] matches Op::Data(d) && d.len() == 4 && reads_be16(d.subrange(0, 2), w as u32)
        && reads_be16(d.subrange(2, 4), h)
}

/// A JD7966x init starts with the hardware reset and a wait, ends with power-on `0x04` and a
/// wait, and tells the panel its resolution: the JD79660 its width as is, the JD79661 its width
/// padded up to whole bytes (a multiple of 8, less than 8 more); the JD79661 also sets its
/// timing `0x60` to exactly the two bytes `02 02`.
pub proof fn lemma_jd7966x_init(c: Jd7966xController)
    requires
        c.init_ok(),
    ensures
        ({
            let ops = c.init_ops();
            let n = ops.len();
            &&& ops[0] == Op::HardReset(10) && ops[1] == Op::WaitBusy(false)
            &&& ops[n - 2] == Op::Command(0x04) && ops[n - 1] == Op::WaitBusy(false)
            &&& c@.variant == Jd7966xVariant::Jd79660 ==> n == 18 && sets_resolution(
                ops,
                10,
                c@.width as int,
                c@.height,
            )
            &&& c@.variant == Jd7966xVariant::Jd79661 ==> n == 34 && ops[16] == Op::Command(0x60)
                && ops[17] == Op::Data(seq![0x02u8, 0x02]) && exists|p: int|
                p % 8 == 0 && c@.width <= p < c@.width + 8 && sets_resolution(
                    ops,
                    18,
                    p,
                    c@.height,
                )
        }),
{
    let w = c@.width;
    let h = c@.height;
    lemma_16_bit_encodings_read_back(h);
    let ops = c.init_ops();
    let vr = variant_registers(c@);
    assert(ops == seq![Op::HardReset(10), Op::WaitBusy(false)] + vr + seq![
        Op::Command(POWER_ON),
        Op::WaitBusy(false),
    ]);
    assert(ops[0] == Op::HardReset(10) && ops[1] == Op::WaitBusy(false));
    assert(ops[ops.len() - 2] == Op::Command(0x04) && ops[ops.len() - 1] == Op::WaitBusy(false));
    if c@.variant == Jd7966xVariant::Jd79660 {
        assert(vr.len() == 14);
        lemma_16_bit_encodings_read_back(w);
        let d = be16(w) + be16(h);
        assert(d.subrange(0, 2) =~= be16(w));
        assert(d.subrange(2, 4) =~= be16(h));
        assert(ops[11] == Op::Data(d));
        assert(sets_resolution(ops, 10, w as int, h));
    } else {
        let p = padded_width(w);
        assert(p % 8 == 0 && w <= p < w + 8);
        lemma_16_bit_encodings_read_back(p as u32);
        let d = be16(p as u32) + be16(h);
        assert(d.subrange(0, 2) =~= be16(p as u32));
        assert(d.subrange(2, 4) =~= be16(h));
        assert(vr.len() == 30);
        assert(ops[16] == Op::Command(0x60));
        assert(ops[17] == Op::Data(seq![0x02u8, 0x02]));
        assert(ops[19] == Op::Data(d));
        assert(sets_resolution(ops, 18, p, h));
    }
}

} // verus!
