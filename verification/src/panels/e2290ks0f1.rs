//! Panel specification: Pervasive Displays E2290KS0F1 (2.90" 168x384 monochrome), COG Driver F, driven by the BW controller with the Driver F variant.

use vstd::prelude::*;
use crate::traits::{ColorMode, EpdPanel};

verus! {

/// Pervasive Displays E2290KS0F1 (2.90" 168x384 monochrome), COG Driver F, driven by the BW controller with the Driver F variant.
#[derive(Debug, Clone, Copy, PartialEq, Eq, Default)]
pub struct E2290KS0F1;

/// Alias under the part name used by other drivers for the same panel.
#[allow(non_camel_case_types)]
pub type EPD_290_KS_0F = E2290KS0F1;

impl EpdPanel for E2290KS0F1 {
    /// Panel physical width in pixels.
    const WIDTH: u32 = 168;

    /// Panel physical height in pixels.
    const HEIGHT: u32 = 384;

    /// Panel colour mode (monochrome).
    const COLOR_MODE: ColorMode = ColorMode::BlackWhite;
    /// RAM row width in pixels: the visible width, unpadded.
    const RAM_WIDTH: u32 = Self::WIDTH;

    /// No VCOM override: the panel runs on its OTP VCOM.
    const VCOM: Option<u8> = None;

    /// No gate voltage override.
    const GATE_VOLTAGE: Option<u8> = None;

    /// No custom waveform: the panel runs on its OTP LUT.
    const CUSTOM_LUT: Option<&'static [u8]> = None;

    /// This panel's dimensions, colour mode and register overrides, as declared above.
    proof fn lemma_dimensions_fit()
        ensures
            Self::WIDTH == 168,
            Self::HEIGHT == 384,
            Self::RAM_WIDTH == 168,
            Self::COLOR_MODE == ColorMode::BlackWhite,
            Self::VCOM == None::<u8>,
            Self::GATE_VOLTAGE == None::<u8>,
            Self::CUSTOM_LUT == None::<&'static [u8]>,
    {
    }
}

} // verus!
