//! Panel specification: Pervasive Displays E2266KS0C1 (2.66" 152x296 monochrome), COG Driver C, driven by the BW controller.

use vstd::prelude::*;
use crate::traits::{ColorMode, EpdPanel};

verus! {

/// Pervasive Displays E2266KS0C1 (2.66" 152x296 monochrome), COG Driver C, driven by the BW controller.
#[derive(Debug, Clone, Copy, PartialEq, Eq, Default)]
pub struct E2266KS0C1;

/// Alias under the part name used by other drivers for the same panel.
#[allow(non_camel_case_types)]
pub type EPD_266_KS_0C = E2266KS0C1;

impl EpdPanel for E2266KS0C1 {
    /// Panel physical width in pixels.
    const WIDTH: u32 = 152;

    /// Panel physical height in pixels.
    const HEIGHT: u32 = 296;

    /// Panel colour mode (monochrome).
    const COLOR_MODE: ColorMode = ColorMode::BlackWhite;
    /// RAM row width in pixels: the visible width, unpadded.
    const RAM_WIDTH: u32 = Self::WIDTH;

    /// No VCOM override: the panel runs on its OTP VCOM.
    const VCOM: Option<u8> = None;

    /// No gate voltage override.
    const GATE_VOLTAGE: Option<u8> = None;

    /// No custom waveform: the panel runs on its OTP LUT.
    const CUSTOM_LUT: Option<&'static [u8]> = None;

    /// This panel's dimensions, colour mode and register overrides, as declared above.
    proof fn lemma_dimensions_fit()
        ensures
            Self::WIDTH == 152,
            Self::HEIGHT == 296,
            Self::RAM_WIDTH == 152,
            Self::COLOR_MODE == ColorMode::BlackWhite,
            Self::VCOM == None::<u8>,
            Self::GATE_VOLTAGE == None::<u8>,
            Self::CUSTOM_LUT == None::<&'static [u8]>,
    {
    }
}

} // verus!
