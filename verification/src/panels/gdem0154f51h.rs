//! Panel specification: Good Display GDEM0154F51H (1.54" 200x200 four-colour), JD79660AA.

use vstd::prelude::*;
use crate::traits::{ColorMode, EpdPanel};

verus! {

/// Good Display GDEM0154F51H (1.54" 200x200 four-colour), JD79660AA. The width is already byte aligned, so the RAM row is the visible width. BUSY is active low.
#[derive(Debug, Clone, Copy, PartialEq, Eq, Default)]
pub struct GDEM0154F51H;

/// Alias under the part name used by other drivers for the same panel.
#[allow(non_camel_case_types)]
pub type GxEPD2_154c_GDEM0154F51H = GDEM0154F51H;

impl EpdPanel for GDEM0154F51H {
    /// Panel physical width in pixels.
    const WIDTH: u32 = 200;

    /// Panel physical height in pixels.
    const HEIGHT: u32 = 200;

    /// Panel colour mode (Black, White, Red, Yellow; 2 bits per pixel).
    const COLOR_MODE: ColorMode = ColorMode::QuadColor;
    /// RAM row width in pixels: the visible width, unpadded.
    const RAM_WIDTH: u32 = Self::WIDTH;

    /// No VCOM override: the panel runs on its OTP VCOM.
    const VCOM: Option<u8> = None;

    /// No gate voltage override.
    const GATE_VOLTAGE: Option<u8> = None;

    /// No custom waveform: the panel runs on its OTP LUT.
    const CUSTOM_LUT: Option<&'static [u8]> = None;

    /// This panel's dimensions, colour mode and register overrides, as declared above.
    proof fn lemma_dimensions_fit()
        ensures
            Self::WIDTH == 200,
            Self::HEIGHT == 200,
            Self::RAM_WIDTH == 200,
            Self::COLOR_MODE == ColorMode::QuadColor,
            Self::VCOM == None::<u8>,
            Self::GATE_VOLTAGE == None::<u8>,
            Self::CUSTOM_LUT == None::<&'static [u8]>,
    {
    }
}

} // verus!
