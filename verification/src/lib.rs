//! A driver framework for Electronic Paper Displays (EPDs) driven over SPI.
//!
//! Panels ([`EpdPanel`]) describe the glass; controllers ([`EpdController`]) plan each driver
//! IC operation as an exact sequence of bus operations ([`bus::BusOp`]); the driver
//! ([`EpdDriver`]) validates requests against the panel before anything is planned; a transport
//! over [`SpiBusWrapper`] (or, for the OTP handshake of the Pervasive BWRY family, [`Spi3Bus`])
//! carries the operations out. [`graphics`] holds the page buffers and page geometry of
//! low-RAM paged rendering.

pub mod bus;
pub mod bus3;
pub mod controllers;
pub mod driver;
pub mod graphics;
pub mod panels;
pub mod prelude;
pub mod traits;

pub use bus::SpiBusWrapper;
pub use bus3::Spi3Bus;
pub use driver::{EpdBuilder, EpdDriver};
pub use traits::{ColorChannel, ColorMode, EpdController, EpdPanel, SevenColor};
