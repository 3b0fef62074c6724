//! UC8253 E-Paper Display Controller.
//!
//! The UC8253 has no RAM cursor: a sub-area is addressed by a partial-window session
//! (`PARTIAL_IN`, `PARTIAL_WINDOW`, ..., `PARTIAL_OUT`) that must be re-opened around every RAM
//! write and around the refresh, so `set_window` only records the area.

use vstd::prelude::*;
use crate::bus::{BusOp, Op, cmd_data, ops_of, push_op, send_command, send_command_with_data};
use crate::controllers::common::{
    be16, fill_ops, high_byte, hi8, lemma_16_bit_encodings_read_back, lo8, low_byte, plan_fill,
    reads_be16,
};
use crate::traits::{ColorChannel, EpdController};

verus! {

/// Panel Setting command
pub const PANEL_SETTING: u8 = 0x00;
/// Power OFF command
pub const POWER_OFF: u8 = 0x02;
/// Power ON command
pub const POWER_ON: u8 = 0x04;
/// Booster Soft Start command
pub const BOOSTER_SOFT_START: u8 = 0x06;
/// Deep Sleep command
pub const DEEP_SLEEP: u8 = 0x07;
/// Write "old"/previous image data plane
pub const WRITE_OLD_DATA: u8 = 0x10;
/// Display Refresh command
pub const DISPLAY_REFRESH: u8 = 0x12;
/// Write "new"/current image data plane
pub const WRITE_NEW_DATA: u8 = 0x13;
/// VCOM and Data Interval Setting (CDI)
pub const CDI: u8 = 0x50;
/// Resolution Setting (TRES): HRES byte, then VRES high/low bytes
pub const RESOLUTION: u8 = 0x61;
/// Cascade Setting (CCSET), used to force a temperature-compensated fast waveform speed
pub const CASCADE_SETTING: u8 = 0xE0;
/// Force Temperature (TSSET), used together with `CASCADE_SETTING` for fast update modes
pub const FORCE_TEMP: u8 = 0xE5;
/// Partial Window In command
pub const PARTIAL_IN: u8 = 0x91;
/// Partial Window command
pub const PARTIAL_WINDOW: u8 = 0x90;
/// Partial Window Out command
pub const PARTIAL_OUT: u8 = 0x92;

/// How long to wait for BUSY to assert after a refresh command before waiting for completion
/// anyway: generous against the ~17 s refresh it guards, and short enough that a panel that
/// never asserts still falls straight through.
pub const BUSY_ASSERT_TIMEOUT_MS: u32 = 500;

/// Panel register profile for the UC8253 controller.
///
/// The two profiles differ in init sequence, RAM plane assignment and refresh handling.
/// Selecting the wrong one does not error — it renders inverted or blank.
#[derive(Debug, Clone, Copy, PartialEq, Eq, Structural)]
pub enum Uc8253Variant {
    /// Good Display `GDEY037T03` profile: monochrome, `PANEL_SETTING` soft-reset init,
    /// Black/White plane on `WRITE_NEW_DATA`, every refresh powered up and down with `CDI`
    /// re-issued. Supports all four refresh modes.
    Gdey037t03,
    /// Waveshare `SE0352N14-TNG-A0` profile: tri-colour, explicit power/CDI/resolution/booster
    /// init, Black/White plane on `WRITE_OLD_DATA`, refresh is `POWER_ON` then
    /// `DISPLAY_REFRESH`. Full refresh only: the refresh mode is ignored.
    Se0352n14,
}

impl Default for Uc8253Variant {
    fn default() -> (r: Self)
        ensures
            r == Uc8253Variant::Gdey037t03,
    {
        Uc8253Variant::Gdey037t03
    }
}

/// Display refresh operating mode for the UC8253 controller (ignored by the `Se0352n14`
/// profile, which is full-refresh only).
#[derive(Debug, Clone, Copy, PartialEq, Eq, Structural)]
pub enum Uc8253RefreshMode {
    /// Full display update using the panel's default waveform speed (CDI `0x97`).
    Full,
    /// Full update forced to a faster temperature-compensated waveform (CCSET/TSSET `0x5A`, CDI `0x97`).
    FastFull,
    /// Partial display update (CDI `0xD7`).
    Partial,
    /// Partial update forced to a faster temperature-compensated waveform (CCSET/TSSET `0x6E`, CDI `0xD7`).
    FastPartial,
}

impl Default for Uc8253RefreshMode {
    fn default() -> (r: Self)
        ensures
            r == Uc8253RefreshMode::Full,
    {
        Uc8253RefreshMode::Full
    }
}

/// The configuration and recorded window of a UC8253 controller.
#[derive(Debug, Clone, Copy)]
pub struct Uc8253Config {
    /// Panel width in pixels.
    pub width: u32,
    /// Panel height in pixels.
    pub height: u32,
    /// Panel register profile.
    pub variant: Uc8253Variant,
    /// Refresh mode.
    pub refresh_mode: Uc8253RefreshMode,
    /// The partial window `(x_start, y_start, x_end, y_end)` wrapped around RAM writes and
    /// refreshes, if one is recorded.
    pub window: Option<(u32, u32, u32, u32)>,
}

/// A fresh controller: `Gdey037t03` profile, Full refresh, no window.
pub open spec fn default_config(width: u32, height: u32) -> Uc8253Config {
    Uc8253Config {
        width,
        height,
        variant: Uc8253Variant::Gdey037t03,
        refresh_mode: Uc8253RefreshMode::Full,
        window: None,
    }
}

/// The RAM plane command of a channel. The planes are swapped between the profiles: crossing
/// them routes black pixels into the red plane.
pub open spec fn plane_command(variant: Uc8253Variant, channel: ColorChannel) -> u8 {
    let bw = channel == ColorChannel::BlackWhite;
    match variant {
        Uc8253Variant::Gdey037t03 => if bw {
            WRITE_NEW_DATA
        } else {
            WRITE_OLD_DATA
        },
        Uc8253Variant::Se0352n14 => if bw {
            WRITE_OLD_DATA
        } else {
            WRITE_NEW_DATA
        },
    }
}

/// The `PARTIAL_WINDOW` parameters: X start rounded down and X end rounded up to a byte
/// boundary, then Y start and end as 16-bit big-endian values, then the scan flag.
pub open spec fn window_bytes(w: (u32, u32, u32, u32)) -> Seq<u8> {
    seq![lo8(w.0 & 0xFFF8), lo8(w.2 | 0x0007)] + be16(w.1) + be16(w.3) + seq![0x01u8]
}

/// Opens the recorded partial window; nothing when none is recorded.
pub open spec fn open_window(window: Option<(u32, u32, u32, u32)>) -> Seq<Op> {
    match window {
        Some(w) => seq![Op::Command(PARTIAL_IN)] + cmd_data(PARTIAL_WINDOW, window_bytes(w)),
        None => Seq::empty(),
    }
}

/// Closes the recorded partial window; nothing when none is recorded.
pub open spec fn close_window(window: Option<(u32, u32, u32, u32)>) -> Seq<Op> {
    if window is Some {
        seq![Op::Command(PARTIAL_OUT)]
    } else {
        Seq::empty()
    }
}

/// The two Panel Setting writes: `0x1E` (soft reset), a 1 ms settle, then `0x1F` (release).
pub open spec fn panel_setting_reset() -> Seq<Op> {
    cmd_data(PANEL_SETTING, seq![0x1Eu8, 0x0Du8]) + seq![Op::DelayMs(1)] + cmd_data(
        PANEL_SETTING,
        seq![0x1Fu8, 0x0Du8],
    )
}

/// Whether a mode forces the fast temperature-compensated waveform.
pub open spec fn is_fast(mode: Uc8253RefreshMode) -> bool {
    mode == Uc8253RefreshMode::FastFull || mode == Uc8253RefreshMode::FastPartial
}

/// Whether a mode is a partial update.
pub open spec fn is_partial(mode: Uc8253RefreshMode) -> bool {
    mode == Uc8253RefreshMode::Partial || mode == Uc8253RefreshMode::FastPartial
}

/// The initialisation sequence of each profile.
pub open spec fn init_plan(c: Uc8253Config) -> Seq<Op> {
    match c.variant {
        Uc8253Variant::Gdey037t03 => seq![Op::HardReset(10)] + panel_setting_reset(),
        Uc8253Variant::Se0352n14 => seq![
            Op::HardReset(30),
            Op::DelayMs(200),
            Op::Command(POWER_ON),
            Op::DelayMs(100),
            Op::WaitBusyWithDelay(false),
        ] + cmd_data(CDI, seq![0x87u8]) + cmd_data(PANEL_SETTING, seq![0x03u8, 0x0Du8])
            + cmd_data(RESOLUTION, seq![lo8(c.width & 0xF8), hi8(c.height), lo8(c.height)])
            + cmd_data(BOOSTER_SOFT_START, seq![0x2Fu8, 0x2Fu8, 0x2Eu8]) + seq![
            Op::WaitBusyWithDelay(false),
        ],
    }
}

/// The power-on, refresh and completion wait of the `Se0352n14` profile.
pub open spec fn se0352_refresh() -> Seq<Op> {
    seq![
        Op::Command(POWER_ON),
        Op::DelayMs(100),
        Op::WaitBusyWithDelay(false),
        Op::Command(DISPLAY_REFRESH),
        Op::WaitBusyAssert(false, BUSY_ASSERT_TIMEOUT_MS),
        Op::WaitBusyWithDelay(false),
    ]
}

/// The refresh of the `Gdey037t03` profile for a mode: optional fast-waveform override, CDI,
/// a powered refresh, and the panel setting restored after a fast update.
pub open spec fn gdey_refresh(mode: Uc8253RefreshMode) -> Seq<Op> {
    (if is_fast(mode) {
        cmd_data(CASCADE_SETTING, seq![0x02u8]) + cmd_data(
            FORCE_TEMP,
            seq![
                if is_partial(mode) {
                    0x6Eu8
                } else {
                    0x5Au8
                },
            ],
        )
    } else {
        Seq::empty()
    }) + cmd_data(
        CDI,
        seq![
            if is_partial(mode) {
                0xD7u8
            } else {
                0x97u8
            },
        ],
    ) + seq![
        Op::Command(POWER_ON),
        Op::WaitBusyWithDelay(false),
        Op::Command(DISPLAY_REFRESH),
        Op::WaitBusyAssert(false, BUSY_ASSERT_TIMEOUT_MS),
        Op::WaitBusyWithDelay(false),
        Op::Command(POWER_OFF),
        Op::WaitBusyWithDelay(false),
    ] + (if is_fast(mode) {
        panel_setting_reset()
    } else {
        Seq::empty()
    })
}

/// The refresh: inside its own partial-window session when a window is recorded.
pub open spec fn refresh_plan(c: Uc8253Config) -> Seq<Op> {
    open_window(c.window) + (match c.variant {
        Uc8253Variant::Se0352n14 => se0352_refresh(),
        Uc8253Variant::Gdey037t03 => gdey_refresh(c.refresh_mode),
    }) + close_window(c.window)
}

/// UC8253 Controller IC driver configuration.
#[derive(Debug, Clone, Copy, PartialEq, Eq)]
pub struct Uc8253Controller {
    width: u32,
    height: u32,
    variant: Uc8253Variant,
    refresh_mode: Uc8253RefreshMode,
    window: Option<(u32, u32, u32, u32)>,
}

impl View for Uc8253Controller {
    type V = Uc8253Config;

    closed spec fn view(&self) -> Uc8253Config {
        Uc8253Config {
            width: self.width,
            height: self.height,
            variant: self.variant,
            refresh_mode: self.refresh_mode,
            window: self.window,
        }
    }
}

impl Uc8253Controller {
    /// Creates a new UC8253 controller for the given dimensions, with the `Gdey037t03` profile.
    pub fn new(width: u32, height: u32) -> (r: Self)
        ensures
            r@ == default_config(width, height),
    {
        Self {
            width,
            height,
            variant: Uc8253Variant::Gdey037t03,
            refresh_mode: Uc8253RefreshMode::Full,
            window: None,
        }
    }

    /// Sets the panel register profile (builder method).
    pub fn with_variant(self, variant: Uc8253Variant) -> (r: Self)
        ensures
            r@ == (Uc8253Config { variant, ..self@ }),
    {
        let mut s = self;
        s.variant = variant;
        s
    }

    /// Returns the configured panel register profile.
    pub fn variant(&self) -> (r: Uc8253Variant)
        ensures
            r == self@.variant,
    {
        self.variant
    }

    /// Sets display refresh operating mode (builder method).
    pub fn with_refresh_mode(self, mode: Uc8253RefreshMode) -> (r: Self)
        ensures
            r@ == (Uc8253Config { refresh_mode: mode, ..self@ }),
    {
        let mut s = self;
        s.refresh_mode = mode;
        s
    }

    /// Sets display refresh operating mode.
    pub fn set_refresh_mode(&mut self, mode: Uc8253RefreshMode)
        ensures
            final(self)@ == (Uc8253Config { refresh_mode: mode, ..old(self)@ }),
    {
        self.refresh_mode = mode;
    }

    /// Returns current display refresh mode.
    pub fn refresh_mode(&self) -> (r: Uc8253RefreshMode)
        ensures
            r == self@.refresh_mode,
    {
        self.refresh_mode
    }

    /// Clears any recorded partial window, returning the controller to full-frame addressing.
    pub fn clear_window(&mut self)
        ensures
            final(self)@ == (Uc8253Config { window: None, ..old(self)@ }),
    {
        self.window = None;
    }
}

/// Plane routing: the Black/White channel goes to `0x13` on the GDEY037T03 profile and to
/// `0x10` on the SE0352N14 one, every colour channel to the other plane, so Black/White never
/// shares a plane with a colour; and a frame write and a fill of the same channel select the
/// same plane, right after the window session opens.
pub proof fn lemma_plane_routing(c: Uc8253Controller, channel: ColorChannel, data: Seq<u8>, byte: u8, count: usize)
    ensures
        (plane_command(c@.variant, channel) == WRITE_NEW_DATA) == ((c@.variant
            == Uc8253Variant::Gdey037t03 && channel == ColorChannel::BlackWhite) || (c@.variant
            == Uc8253Variant::Se0352n14 && channel != ColorChannel::BlackWhite)),
        plane_command(c@.variant, channel) == WRITE_NEW_DATA || plane_command(c@.variant, channel)
            == WRITE_OLD_DATA,
        channel != ColorChannel::BlackWhite ==> plane_command(c@.variant, channel)
            != plane_command(c@.variant, ColorChannel::BlackWhite),
        c.frame_ops(channel, data)[open_window(c@.window).len() as int] == Op::Command(
            plane_command(c@.variant, channel),
        ),
        c.pattern_ops(channel, byte, count)[open_window(c@.window).len() as int] == Op::Command(
            plane_command(c@.variant, channel),
        ),
{
    let k = open_window(c@.window).len() as int;
    let cmd = plane_command(c@.variant, channel);
    assert(c.frame_ops(channel, data)[k] == cmd_data(cmd, data)[0]);
    assert(c.pattern_ops(channel, byte, count)[k] == fill_ops(cmd, byte, count)[0]);
}

fn plane_for(variant: Uc8253Variant, channel: ColorChannel) -> (r: u8)
    ensures
        r == plane_command(variant, channel),
{
    let bw = match channel {
        ColorChannel::BlackWhite => true,
        _ => false,
    };
    match variant {
        Uc8253Variant::Gdey037t03 => if bw {
            WRITE_NEW_DATA
        } else {
            WRITE_OLD_DATA
        },
        Uc8253Variant::Se0352n14 => if bw {
            WRITE_OLD_DATA
        } else {
            WRITE_NEW_DATA
        },
    }
}

fn plan_open_window(ops: &mut Vec<BusOp>, window: Option<(u32, u32, u32, u32)>)
    ensures
        ops_of(final(ops)@) == ops_of(old(ops)@) + open_window(window),
{
    match window {
        Some((x_start, y_start, x_end, y_end)) => {
            send_command(ops, PARTIAL_IN);
            let data = [
                low_byte(x_start & 0xFFF8),
                low_byte(x_end | 0x0007),
                high_byte(y_start),
                low_byte(y_start),
                high_byte(y_end),
                low_byte(y_end),
                0x01,
            ];
            assert(data@ =~= window_bytes((x_start, y_start, x_end, y_end)));
            send_command_with_data(ops, PARTIAL_WINDOW, &data);
            assert(ops_of(final(ops)@) =~= ops_of(old(ops)@) + open_window(window));
        },
        None => {
            assert(ops_of(old(ops)@) + open_window(window) =~= ops_of(old(ops)@));
        },
    }
}

fn plan_close_window(ops: &mut Vec<BusOp>, window: Option<(u32, u32, u32, u32)>)
    ensures
        ops_of(final(ops)@) == ops_of(old(ops)@) + close_window(window),
{
    if window.is_some() {
        send_command(ops, PARTIAL_OUT);
    } else {
        assert(ops_of(old(ops)@) + close_window(window) =~= ops_of(old(ops)@));
    }
}

fn plan_panel_setting_reset(ops: &mut Vec<BusOp>)
    ensures
        ops_of(final(ops)@) == ops_of(old(ops)@) + panel_setting_reset(),
{
    // `0x1E` clears RST_N (a soft reset); the settle before `0x1F` releases it keeps the
    // reset's power-on defaults from flipping the scan direction.
    let first = [0x1Eu8, 0x0Du8];
    assert(first@ =~= seq![0x1Eu8, 0x0Du8]);
    send_command_with_data(ops, PANEL_SETTING, &first);
    push_op(ops, BusOp::DelayMs(1));
    let second = [0x1Fu8, 0x0Du8];
    assert(second@ =~= seq![0x1Fu8, 0x0Du8]);
    send_command_with_data(ops, PANEL_SETTING, &second);
    assert(ops_of(final(ops)@) =~= ops_of(old(ops)@) + panel_setting_reset());
}

fn plan_gdey_refresh(ops: &mut Vec<BusOp>, mode: Uc8253RefreshMode)
    ensures
        ops_of(final(ops)@) == ops_of(old(ops)@) + gdey_refresh(mode),
{
    let fast = match mode {
        Uc8253RefreshMode::FastFull | Uc8253RefreshMode::FastPartial => true,
        _ => false,
    };
    let partial = match mode {
        Uc8253RefreshMode::Partial | Uc8253RefreshMode::FastPartial => true,
        _ => false,
    };
    let ghost start = ops_of(ops@);
    if fast {
        let ccset = [0x02u8];
        assert(ccset@ =~= seq![0x02u8]);
        send_command_with_data(ops, CASCADE_SETTING, &ccset);
        let temp = [if partial {
            0x6Eu8
        } else {
            0x5Au8
        }];
        assert(temp@ =~= seq![if partial { 0x6Eu8 } else { 0x5Au8 }]);
        send_command_with_data(ops, FORCE_TEMP, &temp);
    }
    let ghost after_fast = ops_of(ops@);
    let cdi = [if partial {
        0xD7u8
    } else {
        0x97u8
    }];
    assert(cdi@ =~= seq![if partial { 0xD7u8 } else { 0x97u8 }]);
    send_command_with_data(ops, CDI, &cdi);
    send_command(ops, POWER_ON);
    push_op(ops, BusOp::WaitBusyWithDelay(false));
    // Waiting for the BUSY edge separates "the refresh finished" from "it had not started".
    send_command(ops, DISPLAY_REFRESH);
    push_op(ops, BusOp::WaitBusyAssert(false, BUSY_ASSERT_TIMEOUT_MS));
    push_op(ops, BusOp::WaitBusyWithDelay(false));
    send_command(ops, POWER_OFF);
    push_op(ops, BusOp::WaitBusyWithDelay(false));
    let ghost after_body = ops_of(ops@);
    if fast {
        plan_panel_setting_reset(ops);
    }
    proof {
        let fast_part = if is_fast(mode) {
            cmd_data(CASCADE_SETTING, seq![0x02u8]) + cmd_data(
                FORCE_TEMP,
                seq![if is_partial(mode) { 0x6Eu8 } else { 0x5Au8 }],
            )
        } else {
            Seq::empty()
        };
        assert(after_fast =~= start + fast_part);
        let tail = if is_fast(mode) {
            panel_setting_reset()
        } else {
            Seq::empty()
        };
        assert(ops_of(final(ops)@) =~= after_body + tail);
        assert(ops_of(final(ops)@) =~= start + gdey_refresh(mode));
    }
}

fn plan_se0352_refresh(ops: &mut Vec<BusOp>)
    ensures
        ops_of(final(ops)@) == ops_of(old(ops)@) + se0352_refresh(),
{
    // The charge pump drops after every update: power on again, settle, then refresh and wait
    // for the BUSY edge before waiting for completion.
    send_command(ops, POWER_ON);
    push_op(ops, BusOp::DelayMs(100));
    push_op(ops, BusOp::WaitBusyWithDelay(false));
    send_command(ops, DISPLAY_REFRESH);
    push_op(ops, BusOp::WaitBusyAssert(false, BUSY_ASSERT_TIMEOUT_MS));
    push_op(ops, BusOp::WaitBusyWithDelay(false));
    assert(ops_of(final(ops)@) =~= ops_of(old(ops)@) + se0352_refresh());
}

impl EpdController for Uc8253Controller {
    open spec fn init_ok(&self) -> bool {
        true
    }

    open spec fn init_ops(&self) -> Seq<Op> {
        init_plan(self@)
    }

    open spec fn after_init(&self) -> Self {
        *self
    }

    open spec fn window_ok(&self, x_start: u32, y_start: u32, x_end: u32, y_end: u32) -> bool {
        true
    }

    open spec fn window_ops(&self, x_start: u32, y_start: u32, x_end: u32, y_end: u32) -> Seq<Op> {
        Seq::empty()
    }

    closed spec fn with_window(&self, x_start: u32, y_start: u32, x_end: u32, y_end: u32) -> Self {
        Self { window: Some((x_start, y_start, x_end, y_end)), ..*self }
    }

    open spec fn cursor_ok(&self, x: u32, y: u32) -> bool {
        true
    }

    open spec fn cursor_ops(&self, x: u32, y: u32) -> Seq<Op> {
        Seq::empty()
    }

    open spec fn frame_ops(&self, channel: ColorChannel, data: Seq<u8>) -> Seq<Op> {
        open_window(self@.window) + cmd_data(plane_command(self@.variant, channel), data)
            + close_window(self@.window)
    }

    open spec fn pattern_ok(&self, byte: u8, count: usize) -> bool {
        true
    }

    open spec fn pattern_ops(&self, channel: ColorChannel, byte: u8, count: usize) -> Seq<Op> {
        open_window(self@.window) + fill_ops(plane_command(self@.variant, channel), byte, count)
            + close_window(self@.window)
    }

    open spec fn refresh_ok(&self) -> bool {
        true
    }

    open spec fn refresh_ops(&self) -> Seq<Op> {
        refresh_plan(self@)
    }

    open spec fn sleep_ops(&self) -> Seq<Op> {
        seq![Op::Command(POWER_OFF), Op::WaitBusyWithDelay(false)] + cmd_data(
            DEEP_SLEEP,
            seq![0xA5u8],
        )
    }

    fn can_init(&self) -> (r: bool) {
        true
    }

    fn can_set_window(&self, x_start: u32, y_start: u32, x_end: u32, y_end: u32) -> (r: bool) {
        true
    }

    fn can_set_cursor(&self, x: u32, y: u32) -> (r: bool) {
        true
    }

    fn can_fill(&self, byte: u8, count: usize) -> (r: bool) {
        true
    }

    fn can_refresh(&self) -> (r: bool) {
        true
    }

    fn init_sequence(&mut self) -> (ops: Vec<BusOp>) {
        let mut ops: Vec<BusOp> = Vec::new();
        match self.variant {
            Uc8253Variant::Gdey037t03 => {
                push_op(&mut ops, BusOp::HardReset(10));
                plan_panel_setting_reset(&mut ops);
            },
            Uc8253Variant::Se0352n14 => {
                // A 30 ms RST pulse; a shorter one proved marginal on this panel family.
                push_op(&mut ops, BusOp::HardReset(30));
                push_op(&mut ops, BusOp::DelayMs(200));
                send_command(&mut ops, POWER_ON);
                push_op(&mut ops, BusOp::DelayMs(100));
                push_op(&mut ops, BusOp::WaitBusyWithDelay(false));
                // `0x87`, not `0x97`: it makes `0x00` mean white in both planes on this panel.
                let cdi = [0x87u8];
                assert(cdi@ =~= seq![0x87u8]);
                send_command_with_data(&mut ops, CDI, &cdi);
                let psr = [0x03u8, 0x0Du8];
                assert(psr@ =~= seq![0x03u8, 0x0Du8]);
                send_command_with_data(&mut ops, PANEL_SETTING, &psr);
                // HRES ignores the low 3 bits; VRES is 16-bit.
                let res = [low_byte(self.width & 0xF8), high_byte(self.height), low_byte(self.height)];
                assert(res@ =~= seq![lo8(self.width & 0xF8), hi8(self.height), lo8(self.height)]);
                send_command_with_data(&mut ops, RESOLUTION, &res);
                let boost = [0x2Fu8, 0x2Fu8, 0x2Eu8];
                assert(boost@ =~= seq![0x2Fu8, 0x2Fu8, 0x2Eu8]);
                send_command_with_data(&mut ops, BOOSTER_SOFT_START, &boost);
                push_op(&mut ops, BusOp::WaitBusyWithDelay(false));
            },
        }
        assert(ops_of(ops@) =~= init_plan(self@));
        ops
    }

    /// Records the partial window without planning any operation: it is opened around each
    /// later RAM write and refresh.
    fn set_window(&mut self, x_start: u32, y_start: u32, x_end: u32, y_end: u32) -> (ops: Vec<
        BusOp,
    >)
        ensures
            final(self)@ == (Uc8253Config {
                window: Some((x_start, y_start, x_end, y_end)),
                ..old(self)@
            }),
    {
        self.window = Some((x_start, y_start, x_end, y_end));
        let ops: Vec<BusOp> = Vec::new();
        assert(ops_of(ops@) =~= Seq::<Op>::empty());
        ops
    }

    /// The UC8253 has no RAM cursor register: nothing to plan.
    fn set_cursor(&mut self, x: u32, y: u32) -> (ops: Vec<BusOp>) {
        let ops: Vec<BusOp> = Vec::new();
        assert(ops_of(ops@) =~= Seq::<Op>::empty());
        ops
    }

    fn write_frame(&mut self, channel: ColorChannel, data: &[u8]) -> (ops: Vec<BusOp>) {
        let mut ops: Vec<BusOp> = Vec::new();
        let command = plane_for(self.variant, channel);
        plan_open_window(&mut ops, self.window);
        send_command_with_data(&mut ops, command, data);
        plan_close_window(&mut ops, self.window);
        assert(ops_of(ops@) =~= self.frame_ops(channel, data@));
        ops
    }

    fn write_frame_pattern(&mut self, channel: ColorChannel, byte: u8, count: usize) -> (ops: Vec<
        BusOp,
    >) {
        let mut ops: Vec<BusOp> = Vec::new();
        let command = plane_for(self.variant, channel);
        plan_open_window(&mut ops, self.window);
        plan_fill(&mut ops, command, byte, count);
        plan_close_window(&mut ops, self.window);
        assert(ops_of(ops@) =~= self.pattern_ops(channel, byte, count));
        ops
    }

    fn trigger_refresh(&mut self) -> (ops: Vec<BusOp>) {
        let mut ops: Vec<BusOp> = Vec::new();
        // The refresh gets its own partial-window session; the window is kept afterwards.
        plan_open_window(&mut ops, self.window);
        match self.variant {
            Uc8253Variant::Se0352n14 => plan_se0352_refresh(&mut ops),
            Uc8253Variant::Gdey037t03 => plan_gdey_refresh(&mut ops, self.refresh_mode),
        }
        plan_close_window(&mut ops, self.window);
        assert(ops_of(ops@) =~= refresh_plan(self@));
        ops
    }

    fn sleep(&mut self) -> (ops: Vec<BusOp>) {
        let mut ops: Vec<BusOp> = Vec::new();
        send_command(&mut ops, POWER_OFF);
        push_op(&mut ops, BusOp::WaitBusyWithDelay(false));
        let data = [0xA5u8];
        assert(data@ =~= seq![0xA5u8]);
        send_command_with_data(&mut ops, DEEP_SLEEP, &data);
        assert(ops_of(ops@) =~= self.sleep_ops());
        ops
    }
}


/// The UC8253 sleeps with power-off `0x02`, a wait for BUSY, then deep sleep `0x07` with its
/// `0xA5` check byte, and nothing more.
pub proof fn lemma_uc8253_sleep(c: Uc8253Controller)
    ensures
        c.sleep_ops() == seq![
            Op::Command(0x02),
            Op::WaitBusyWithDelay(false),
            Op::Command(0x07),
            Op::Data(seq![0xA5u8]),
        ],
{
    assert(c.sleep_ops() =~= seq![
        Op::Command(0x02),
        Op::WaitBusyWithDelay(false),
        Op::Command(0x07),
        Op::Data(seq![0xA5u8]),
    ]);
}


/// A RAM write on a UC8253 with a recorded window `(xs, ys, xe, ye)` is framed by that window:
/// partial-in `0x91`, then `0x90` with the X range as bytes (`xs` rounded down to a byte
/// boundary, `xe` rounded up to a byte's last pixel), the Y range as `ys` and `ye`, each two
/// bytes read high byte first, and the scan flag `01`; and the write ends with partial-out
/// `0x92`. Without a recorded window the write is the plane command and its data alone.
pub proof fn lemma_uc8253_window_framing(c: Uc8253Controller, channel: ColorChannel, data: Seq<u8>)
    ensures
        c@.window matches Some(w) ==> ({
            let ops = c.frame_ops(channel, data);
            &&& ops[0] == Op::Command(0x91)
            &&& ops[1] == Op::Command(0x90)
            &&& ops[2] matches Op::Data(d) && d.len() == 7 && d[0] == (w.0 - w.0 % 8) % 256 && d[1]
                == (w.2 - w.2 % 8 + 7) % 256 && reads_be16(d.subrange(2, 4), w.1) && reads_be16(
                d.subrange(4, 6),
                w.3,
            ) && d[6] == 0x01
            &&& ops[ops.len() - 1] == Op::Command(0x92)
        }),
        c@.window is None ==> c.frame_ops(channel, data) == cmd_data(
            plane_command(c@.variant, channel),
            data,
        ),
{
    if let Some(w) = c@.window {
        let (xs, ys, xe, ye) = w;
        lemma_16_bit_encodings_read_back(ys);
        lemma_16_bit_encodings_read_back(ye);
        assert(lo8(xs & 0xFFF8) as int == (xs - xs % 8) % 256) by (bit_vector);
        assert(lo8(xe | 0x0007) as int == (xe - xe % 8 + 7) % 256) by (bit_vector);
        let d = window_bytes(w);
        assert(d.subrange(2, 4) =~= be16(ys));
        assert(d.subrange(4, 6) =~= be16(ye));
        let ops = c.frame_ops(channel, data);
        assert(ops[2] == Op::Data(d));
    } else {
        assert(c.frame_ops(channel, data) =~= cmd_data(plane_command(c@.variant, channel), data));
    }
}

} // verus!
