# epdsi

Drivers for e-paper display controllers (SSD1677, SSD1680/SSD1681, UC8253, JD79660/JD79661,
ED2208 and the Pervasive Displays COG families), with every byte a controller is sent planned
and proved in Verus.

## Layout

- `src/` is the verified library.
  - `bus.rs`: the bus operations a plan is made of (`BusOp`), their wire transcript (DC low for
    commands, high for data, long fills cut into chunks), and the bounded BUSY waits as small
    state machines (`IdleWait`, `AssertWait`).
  - `bus3.rs`: the bit-banged 3-wire bus of the Pervasive Black/White/Red/Yellow panels: its
    operations and the MSB-first bit levels of a byte.
  - `controllers/`: one planner per controller IC. Each implements `EpdController`, whose
    methods return the exact sequence of bus operations, stated over spec functions of the
    controller's configuration. The Pervasive BWRY OTP read is a verified state machine fed one
    byte at a time.
  - `driver.rs`: `EpdDriver`, which checks windows and buffer sizes against the panel before a
    plan is made.
  - `graphics/`: the 1-bit page buffers with rotation, the Black/White + accent pair, and the
    band geometry of paged rendering.
  - `panels/`: the panel descriptions (size, colour mode, RAM width, VCOM, gate voltage, LUT).
- `app/` carries the plans out over `embedded-hal` (SPI, GPIO, delays), implements
  `embedded-graphics-core`'s `DrawTarget` for the page buffers, and runs the paged-render loop.
- `tests/` checks the plans byte for byte against the controllers' documented sequences.
