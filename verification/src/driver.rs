//! The display driver: validates requests against the panel before anything reaches the bus, and
//! plans each operation through its controller.

use vstd::prelude::*;
use core::marker::PhantomData;
use crate::bus::{BusOp, ValidationError, ops_of};
use crate::traits::{ColorChannel, ColorMode, EpdController, EpdPanel};

verus! {

/// `a / b` rounded up.
pub open spec fn ceil_div(a: int, b: int) -> int {
    (a + b - 1) / b
}

/// Width in pixels of a window `(x_start, y_start, x_end, y_end)` with inclusive bounds.
pub open spec fn window_width(w: (u32, u32, u32, u32)) -> int {
    w.2 - w.0 + 1
}

/// Height in pixels of a window with inclusive bounds.
pub open spec fn window_height(w: (u32, u32, u32, u32)) -> int {
    w.3 - w.1 + 1
}

/// Whether a window lies inside a `width` x `height` panel, bounds in order.
pub open spec fn window_valid(w: (u32, u32, u32, u32), width: u32, height: u32) -> bool {
    w.0 <= w.2 && w.1 <= w.3 && w.2 < width && w.3 < height
}

/// The bytes a `w` x `h` area takes in `channel` on a panel of colour `mode`: two 4-bit pixels a
/// byte for the 7-colour channel, four 2-bit pixels a byte per row on a quad-colour panel, and
/// otherwise eight 1-bit pixels a byte per row.
pub open spec fn area_bytes(mode: ColorMode, channel: ColorChannel, w: int, h: int) -> int {
    if channel is Color7 {
        ceil_div(w * h, 2)
    } else if mode == ColorMode::QuadColor {
        ceil_div(w, 4) * h
    } else {
        ceil_div(w, 8) * h
    }
}

/// The bytes a full-panel clear writes: quad-colour RAM rows are `ram_width` 2-bit pixels,
/// 7-colour RAM packs two pixels a byte, and 1-bit RAM rows are whole bytes.
pub open spec fn clear_bytes(mode: ColorMode, width: u32, height: u32, ram_width: u32) -> int {
    match mode {
        ColorMode::QuadColor => ceil_div(ram_width as int, 4) * height,
        ColorMode::SevenColor => ceil_div(width * height, 2),
        _ => ceil_div(width as int, 8) * height,
    }
}

/// Primary display driver: the bus, the controller and the panel type, plus the RAM window
/// currently in effect.
///
/// Every operation is planned as a sequence of [`BusOp`]s for the transport to carry out on
/// the bus; requests the panel cannot honour are refused before anything is planned.
pub struct EpdDriver<BUS, CONTROLLER, PANEL> {
    bus: BUS,
    controller: CONTROLLER,
    panel: PhantomData<PANEL>,
    /// Last window handed to `set_window` (initially the full panel), `(x_start, y_start,
    /// x_end, y_end)`: `write_frame` buffers are sized against it.
    window: (u32, u32, u32, u32),
}

impl<BUS, CONTROLLER: EpdController, PANEL: EpdPanel> EpdDriver<BUS, CONTROLLER, PANEL> {
    /// Whether the window in effect lies inside the panel: always the case for a driver built by
    /// [`EpdDriver::new`] and changed only through its methods.
    pub open spec fn window_in_panel(&self) -> bool {
        window_valid(self.window(), PANEL::WIDTH, PANEL::HEIGHT)
    }

    /// The bus.
    pub closed spec fn bus_state(&self) -> BUS {
        self.bus
    }

    /// The controller.
    pub closed spec fn controller_state(&self) -> CONTROLLER {
        self.controller
    }

    /// The RAM window in effect.
    pub closed spec fn window(&self) -> (u32, u32, u32, u32) {
        self.window
    }

    /// The buffer length `write_frame` requires for `channel` in the current window.
    pub open spec fn required_for(&self, channel: ColorChannel) -> int {
        area_bytes(
            PANEL::COLOR_MODE,
            channel,
            window_width(self.window()),
            window_height(self.window()),
        )
    }

    /// Whether the current window's pixel count fits in a `usize`.
    pub open spec fn window_fits(&self) -> bool {
        window_width(self.window()) * window_height(self.window()) <= usize::MAX
    }

    /// Whether the panel's full-frame byte count can be computed in a `usize`.
    pub open spec fn clear_fits() -> bool {
        &&& PANEL::WIDTH * PANEL::HEIGHT <= usize::MAX
        &&& ceil_div(PANEL::RAM_WIDTH as int, 4) * PANEL::HEIGHT <= usize::MAX
    }

    /// A full frame's byte count, visible or as padded in RAM, fits in a `usize`.
    proof fn lemma_clear_fits()
        ensures
            Self::clear_fits(),
    {
        PANEL::lemma_dimensions_fit();
        let ph = PANEL::HEIGHT as int;
        let rw = PANEL::RAM_WIDTH as int;
        assert(0 <= ceil_div(rw, 4) <= rw);
        assert(ceil_div(rw, 4) * ph <= rw * ph) by (nonlinear_arith)
            requires
                0 <= ceil_div(rw, 4) <= rw,
                ph >= 0,
        ;
    }

    /// A window inside the panel has a pixel count that fits in a `usize`.
    proof fn lemma_window_fits(&self)
        requires
            self.window_in_panel(),
        ensures
            self.window_fits(),
    {
        PANEL::lemma_dimensions_fit();
        let w = window_width(self.window());
        let h = window_height(self.window());
        let pw = PANEL::WIDTH as int;
        let ph = PANEL::HEIGHT as int;
        assert(w * h <= pw * ph) by (nonlinear_arith)
            requires
                1 <= w <= pw,
                1 <= h <= ph,
        ;
    }

    /// The window covering the whole panel.
    pub open spec fn full_window() -> (u32, u32, u32, u32) {
        (0, 0, (PANEL::WIDTH - 1) as u32, (PANEL::HEIGHT - 1) as u32)
    }

    /// Creates a new `EpdDriver` wrapping bus and controller, with the full panel as window.
    pub fn new(bus: BUS, controller: CONTROLLER) -> (r: Self)
        ensures
            r.bus_state() == bus,
            r.controller_state() == controller,
            r.window() == Self::full_window(),
            r.window_in_panel(),
    {
        proof {
            PANEL::lemma_dimensions_fit();
        }
        Self {
            bus,
            controller,
            panel: PhantomData,
            window: (0, 0, PANEL::WIDTH - 1, PANEL::HEIGHT - 1),
        }
    }

    /// Access immutable reference to communication bus.
    pub fn bus(&self) -> (r: &BUS)
        ensures
            *r == self.bus_state(),
    {
        &self.bus
    }

    /// Access mutable reference to communication bus.
    pub fn bus_mut(&mut self) -> (r: &mut BUS)
        ensures
            *r == old(self).bus_state(),
            final(self).bus_state() == *final(r),
            final(self).controller_state() == old(self).controller_state(),
            final(self).window() == old(self).window(),
    {
        &mut self.bus
    }

    /// Access immutable reference to controller logic.
    pub fn controller(&self) -> (r: &CONTROLLER)
        ensures
            *r == self.controller_state(),
    {
        &self.controller
    }

    /// Access mutable reference to controller logic.
    pub fn controller_mut(&mut self) -> (r: &mut CONTROLLER)
        ensures
            *r == old(self).controller_state(),
            final(self).controller_state() == *final(r),
            final(self).bus_state() == old(self).bus_state(),
            final(self).window() == old(self).window(),
    {
        &mut self.controller
    }

    /// Access simultaneous mutable references to both communication bus and controller logic.
    pub fn split_mut(&mut self) -> (r: (&mut BUS, &mut CONTROLLER))
        ensures
            *r.0 == old(self).bus_state(),
            *r.1 == old(self).controller_state(),
            final(self).bus_state() == *final(r.0),
            final(self).controller_state() == *final(r.1),
            final(self).window() == old(self).window(),
    {
        (&mut self.bus, &mut self.controller)
    }

    /// Returns display panel width in pixels.
    pub fn width(&self) -> (r: u32)
        ensures
            r == PANEL::WIDTH,
    {
        PANEL::WIDTH
    }

    /// Returns display panel height in pixels.
    pub fn height(&self) -> (r: u32)
        ensures
            r == PANEL::HEIGHT,
    {
        PANEL::HEIGHT
    }

    /// Minimum buffer length `write_frame` requires for `channel` against the active window.
    fn required_bytes(&self, channel: ColorChannel) -> (r: usize)
        requires
            self.window_in_panel(),
        ensures
            r == self.required_for(channel),
    {
        proof {
            self.lemma_window_fits();
        }
        let (x_start, y_start, x_end, y_end) = self.window;
        let width = (x_end - x_start + 1) as usize;
        let height = (y_end - y_start + 1) as usize;
        assert(width * height <= usize::MAX);
        match channel {
            ColorChannel::Color7(_) => {
                let px = width * height;
                px / 2 + if px % 2 != 0 {
                    1
                } else {
                    0
                }
            },
            _ => {
                let row = if PANEL::COLOR_MODE == ColorMode::QuadColor {
                    width / 4 + if width % 4 != 0 {
                        1
                    } else {
                        0
                    }
                } else {
                    width / 8 + if width % 8 != 0 {
                        1
                    } else {
                        0
                    }
                };
                assert(row <= width);
                assert(row * height <= width * height) by (nonlinear_arith)
                    requires
                        row <= width,
                ;
                row * height
            },
        }
    }

    /// Plans the hardware reset, command registers and panel configuration.
    pub fn init(&mut self) -> (ops: Vec<BusOp>)
        requires
            old(self).controller_state().init_ok(),
        ensures
            ops_of(ops@) == old(self).controller_state().init_ops(),
            final(self).controller_state() == old(self).controller_state().after_init(),
            final(self).bus_state() == old(self).bus_state(),
            final(self).window() == old(self).window(),
    {
        self.controller.init_sequence()
    }

    /// Plans setting the display RAM window.
    ///
    /// An inverted range, or one outside the panel's `WIDTH`/`HEIGHT`, is refused with
    /// [`ValidationError::InvalidWindow`], planning nothing and changing nothing.
    pub fn set_window(&mut self, x_start: u32, y_start: u32, x_end: u32, y_end: u32) -> (r: Result<
        Vec<BusOp>,
        ValidationError,
    >)
        requires
            window_valid((x_start, y_start, x_end, y_end), PANEL::WIDTH, PANEL::HEIGHT)
                ==> old(self).controller_state().window_ok(x_start, y_start, x_end, y_end),
        ensures
            ({
                let before = old(self).controller_state();
                let w = (x_start, y_start, x_end, y_end);
                if window_valid(w, PANEL::WIDTH, PANEL::HEIGHT) {
                    &&& r is Ok
                    &&& ops_of(r->Ok_0@) == before.window_ops(x_start, y_start, x_end, y_end)
                    &&& final(self).controller_state() == before.with_window(
                        x_start,
                        y_start,
                        x_end,
                        y_end,
                    )
                    &&& final(self).window() == w
                } else {
                    &&& r == Err::<Vec<BusOp>, ValidationError>(ValidationError::InvalidWindow)
                    &&& final(self).controller_state() == before
                    &&& final(self).window() == old(self).window()
                }
            }),
            old(self).window_in_panel() ==> final(self).window_in_panel(),
            final(self).bus_state() == old(self).bus_state(),
    {
        if x_start > x_end || y_start > y_end || x_end >= PANEL::WIDTH || y_end >= PANEL::HEIGHT {
            return Err(ValidationError::InvalidWindow);
        }
        let ops = self.controller.set_window(x_start, y_start, x_end, y_end);
        self.window = (x_start, y_start, x_end, y_end);
        Ok(ops)
    }

    /// Plans setting the display RAM cursor position.
    pub fn set_cursor(&mut self, x: u32, y: u32) -> (ops: Vec<BusOp>)
        requires
            old(self).controller_state().cursor_ok(x, y),
        ensures
            ops_of(ops@) == old(self).controller_state().cursor_ops(x, y),
            final(self).controller_state() == old(self).controller_state(),
            final(self).bus_state() == old(self).bus_state(),
            final(self).window() == old(self).window(),
    {
        self.controller.set_cursor(x, y)
    }

    /// Plans writing raw frame data into controller RAM.
    ///
    /// A buffer shorter than the channel requires for the active window is refused with
    /// [`ValidationError::BufferTooSmall`], planning nothing.
    pub fn write_frame(&mut self, channel: ColorChannel, data: &[u8]) -> (r: Result<
        Vec<BusOp>,
        ValidationError,
    >)
        requires
            old(self).window_in_panel(),
        ensures
            ({
                let required = old(self).required_for(channel);
                if data.len() < required {
                    r == Err::<Vec<BusOp>, ValidationError>(
                        ValidationError::BufferTooSmall {
                            required: required as usize,
                            provided: data.len(),
                        },
                    )
                } else {
                    &&& r is Ok
                    &&& ops_of(r->Ok_0@) == old(self).controller_state().frame_ops(channel, data@)
                }
            }),
            final(self).controller_state() == old(self).controller_state(),
            final(self).bus_state() == old(self).bus_state(),
            final(self).window() == old(self).window(),
    {
        let required = self.required_bytes(channel);
        if data.len() < required {
            return Err(ValidationError::BufferTooSmall { required, provided: data.len() });
        }
        Ok(self.controller.write_frame(channel, data))
    }

    /// Plans clearing a colour channel's RAM with a fill byte: as many bytes as the panel's
    /// RAM holds for its colour mode.
    pub fn clear_frame(&mut self, channel: ColorChannel, pattern_byte: u8) -> (ops: Vec<BusOp>)
        requires
            old(self).controller_state().pattern_ok(
                pattern_byte,
                clear_bytes(PANEL::COLOR_MODE, PANEL::WIDTH, PANEL::HEIGHT, PANEL::RAM_WIDTH)
                    as usize,
            ),
        ensures
            ops_of(ops@) == old(self).controller_state().pattern_ops(
                channel,
                pattern_byte,
                clear_bytes(PANEL::COLOR_MODE, PANEL::WIDTH, PANEL::HEIGHT, PANEL::RAM_WIDTH)
                    as usize,
            ),
            final(self).controller_state() == old(self).controller_state(),
            final(self).bus_state() == old(self).bus_state(),
            final(self).window() == old(self).window(),
    {
        proof {
            Self::lemma_clear_fits();
        }
        let total_bytes = Self::panel_bytes();
        self.controller.write_frame_pattern(channel, pattern_byte, total_bytes)
    }

    /// Whether [`EpdDriver::clear_frame`] can plan a clear with `pattern_byte`: the controller
    /// can fill the panel's RAM byte count with it.
    pub fn can_clear_frame(&self, pattern_byte: u8) -> (r: bool)
        ensures
            r == self.controller_state().pattern_ok(
                pattern_byte,
                clear_bytes(PANEL::COLOR_MODE, PANEL::WIDTH, PANEL::HEIGHT, PANEL::RAM_WIDTH)
                    as usize,
            ),
    {
        proof {
            Self::lemma_clear_fits();
        }
        let total_bytes = Self::panel_bytes();
        self.controller.can_fill(pattern_byte, total_bytes)
    }

    fn panel_bytes() -> (r: usize)
        requires
            Self::clear_fits(),
        ensures
            r == clear_bytes(PANEL::COLOR_MODE, PANEL::WIDTH, PANEL::HEIGHT, PANEL::RAM_WIDTH),
    {
        let w = PANEL::WIDTH as usize;
        let h = PANEL::HEIGHT as usize;
        match PANEL::COLOR_MODE {
            ColorMode::QuadColor => {
                // Rows are padded in RAM: size them by the RAM width, four pixels a byte.
                let rw = PANEL::RAM_WIDTH as usize;
                let row = rw / 4 + if rw % 4 != 0 {
                    1
                } else {
                    0
                };
                row * h
            },
            ColorMode::SevenColor => {
                let px = w * h;
                px / 2 + if px % 2 != 0 {
                    1
                } else {
                    0
                }
            },
            _ => {
                // A width that is not a multiple of 8 still takes whole bytes per row.
                let row = w / 8 + if w % 8 != 0 {
                    1
                } else {
                    0
                };
                assert(row <= w);
                assert(row * h <= w * h) by (nonlinear_arith)
                    requires
                        row <= w,
                ;
                row * h
            },
        }
    }

    /// Plans the display update refresh sequence.
    pub fn refresh(&mut self) -> (ops: Vec<BusOp>)
        requires
            old(self).controller_state().refresh_ok(),
        ensures
            ops_of(ops@) == old(self).controller_state().refresh_ops(),
            final(self).controller_state() == old(self).controller_state(),
            final(self).bus_state() == old(self).bus_state(),
            final(self).window() == old(self).window(),
    {
        self.controller.trigger_refresh()
    }

    /// Plans showing one frame: `data` written to `channel` in the active window, then the
    /// refresh. A buffer too short for the window is refused as [`EpdDriver::write_frame`]
    /// refuses it, planning nothing.
    pub fn display_frame(&mut self, channel: ColorChannel, data: &[u8]) -> (r: Result<
        Vec<BusOp>,
        ValidationError,
    >)
        requires
            old(self).window_in_panel(),
            old(self).controller_state().refresh_ok(),
        ensures
            ({
                let required = old(self).required_for(channel);
                let before = old(self).controller_state();
                if data.len() < required {
                    r == Err::<Vec<BusOp>, ValidationError>(
                        ValidationError::BufferTooSmall {
                            required: required as usize,
                            provided: data.len(),
                        },
                    )
                } else {
                    &&& r is Ok
                    &&& ops_of(r->Ok_0@) == before.frame_ops(channel, data@) + before.refresh_ops()
                }
            }),
            final(self).controller_state() == old(self).controller_state(),
            final(self).bus_state() == old(self).bus_state(),
            final(self).window() == old(self).window(),
    {
        let mut ops = match self.write_frame(channel, data) {
            Ok(ops) => ops,
            Err(e) => return Err(e),
        };
        let ghost frame = ops@;
        let mut refresh = self.refresh();
        let ghost tail = refresh@;
        ops.append(&mut refresh);
        proof {
            assert(ops_of(frame + tail) =~= ops_of(frame) + ops_of(tail));
        }
        Ok(ops)
    }

    /// Plans putting the controller into its sleep state.
    pub fn sleep(&mut self) -> (ops: Vec<BusOp>)
        ensures
            ops_of(ops@) == old(self).controller_state().sleep_ops(),
            final(self).controller_state() == old(self).controller_state(),
            final(self).bus_state() == old(self).bus_state(),
            final(self).window() == old(self).window(),
    {
        self.controller.sleep()
    }
}

/// Builder for [`EpdDriver`]: holds the controller until a bus is supplied.
pub struct EpdBuilder<CONTROLLER, PANEL> {
    controller: CONTROLLER,
    panel: PhantomData<PANEL>,
}

impl<CONTROLLER, PANEL> EpdBuilder<CONTROLLER, PANEL> {
    /// The controller the driver will be built with.
    pub closed spec fn controller_state(&self) -> CONTROLLER {
        self.controller
    }

    /// Creates a new driver builder with specified controller instance.
    pub fn new(controller: CONTROLLER) -> (r: Self)
        ensures
            r.controller_state() == controller,
    {
        Self { controller, panel: PhantomData }
    }

    /// Consumes the builder and creates the `EpdDriver` for a communication bus.
    pub fn build<BUS>(self, bus: BUS) -> (r: EpdDriver<BUS, CONTROLLER, PANEL>) where
        CONTROLLER: EpdController,
        PANEL: EpdPanel,

        ensures
            r.bus_state() == bus,
            r.controller_state() == self.controller_state(),
            r.window() == EpdDriver::<BUS, CONTROLLER, PANEL>::full_window(),
            r.window_in_panel(),
    {
        EpdDriver::new(bus, self.controller)
    }
}

} // verus!
