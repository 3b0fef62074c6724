//! Panel specification: Pervasive Displays E2154QS0F1 (1.54" 152x152 Spectra-4 black/white/red/yellow), COG Driver F, driven by the BWRY controller.

use vstd::prelude::*;
use crate::traits::{ColorMode, EpdPanel};

verus! {

/// Pervasive Displays E2154QS0F1 (1.54" 152x152 Spectra-4 black/white/red/yellow), COG Driver F, driven by the BWRY controller. BUSY is active low.
#[derive(Debug, Clone, Copy, PartialEq, Eq, Default)]
pub struct E2154QS0F1;

/// Alias under the part name used by other drivers for the same panel.
#[allow(non_camel_case_types)]
pub type EPD_154_QS_0F = E2154QS0F1;

impl EpdPanel for E2154QS0F1 {
    /// Panel physical width in pixels.
    const WIDTH: u32 = 152;

    /// Panel physical height in pixels.
    const HEIGHT: u32 = 152;

    /// Panel colour mode (Black, White, Red, Yellow; 2 bits per pixel).
    const COLOR_MODE: ColorMode = ColorMode::QuadColor;
    /// RAM row width in pixels: the visible width, unpadded.
    const RAM_WIDTH: u32 = Self::WIDTH;

    /// No VCOM override: the panel runs on its OTP VCOM.
    const VCOM: Option<u8> = None;

    /// No gate voltage override.
    const GATE_VOLTAGE: Option<u8> = None;

    /// No custom waveform: the panel runs on its OTP LUT.
    const CUSTOM_LUT: Option<&'static [u8]> = None;

    /// This panel's dimensions, colour mode and register overrides, as declared above.
    proof fn lemma_dimensions_fit()
        ensures
            Self::WIDTH == 152,
            Self::HEIGHT == 152,
            Self::RAM_WIDTH == 152,
            Self::COLOR_MODE == ColorMode::QuadColor,
            Self::VCOM == None::<u8>,
            Self::GATE_VOLTAGE == None::<u8>,
            Self::CUSTOM_LUT == None::<&'static [u8]>,
    {
    }
}

} // verus!
