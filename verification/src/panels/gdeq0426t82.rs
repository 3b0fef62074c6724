//! Panel specification: Good Display GDEQ0426T82 (4.26" 800x480 monochrome), SSD1677.

use vstd::prelude::*;
use crate::traits::{ColorMode, EpdPanel};

verus! {

/// Good Display GDEQ0426T82 (4.26" 800x480 monochrome), SSD1677. It declares no register overrides. BUSY is active high.
#[derive(Debug, Clone, Copy, PartialEq, Eq, Default)]
pub struct GDEQ0426T82;

impl EpdPanel for GDEQ0426T82 {
    /// Panel physical width in pixels.
    const WIDTH: u32 = 800;

    /// Panel physical height in pixels.
    const HEIGHT: u32 = 480;

    /// Panel colour mode (monochrome).
    const COLOR_MODE: ColorMode = ColorMode::BlackWhite;
    /// RAM row width in pixels: the visible width, unpadded.
    const RAM_WIDTH: u32 = Self::WIDTH;

    /// No VCOM override: the panel runs on its OTP VCOM.
    const VCOM: Option<u8> = None;

    /// No gate voltage override.
    const GATE_VOLTAGE: Option<u8> = None;

    /// No custom waveform: the panel runs on its OTP LUT.
    const CUSTOM_LUT: Option<&'static [u8]> = None;

    /// This panel's dimensions, colour mode and register overrides, as declared above.
    proof fn lemma_dimensions_fit()
        ensures
            Self::WIDTH == 800,
            Self::HEIGHT == 480,
            Self::RAM_WIDTH == 800,
            Self::COLOR_MODE == ColorMode::BlackWhite,
            Self::VCOM == None::<u8>,
            Self::GATE_VOLTAGE == None::<u8>,
            Self::CUSTOM_LUT == None::<&'static [u8]>,
    {
    }
}

} // verus!
