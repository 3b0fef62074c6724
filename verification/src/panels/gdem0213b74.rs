//! Panel specification: Good Display GDEM0213B74 (2.13" 122x250 monochrome), SSD1680.

use vstd::prelude::*;
use crate::traits::{ColorMode, EpdPanel};

verus! {

/// Good Display GDEM0213B74 (2.13" 122x250 monochrome), SSD1680. Rows are 16 bytes in RAM: the width is not a multiple of 8. BUSY is active high.
#[derive(Debug, Clone, Copy, PartialEq, Eq, Default)]
pub struct GDEM0213B74;

/// Alias under the part name used by other drivers for the same panel.
#[allow(non_camel_case_types)]
pub type GxEPD2_213_B74 = GDEM0213B74;

impl EpdPanel for GDEM0213B74 {
    /// Panel physical width in pixels.
    const WIDTH: u32 = 122;

    /// Panel physical height in pixels.
    const HEIGHT: u32 = 250;

    /// Panel colour mode (monochrome).
    const COLOR_MODE: ColorMode = ColorMode::BlackWhite;
    /// RAM row width in pixels: the visible width, unpadded.
    const RAM_WIDTH: u32 = Self::WIDTH;

    /// No VCOM override: the panel runs on its OTP VCOM.
    const VCOM: Option<u8> = None;

    /// No gate voltage override.
    const GATE_VOLTAGE: Option<u8> = None;

    /// No custom waveform: the panel runs on its OTP LUT.
    const CUSTOM_LUT: Option<&'static [u8]> = None;

    /// This panel's dimensions, colour mode and register overrides, as declared above.
    proof fn lemma_dimensions_fit()
        ensures
            Self::WIDTH == 122,
            Self::HEIGHT == 250,
            Self::RAM_WIDTH == 122,
            Self::COLOR_MODE == ColorMode::BlackWhite,
            Self::VCOM == None::<u8>,
            Self::GATE_VOLTAGE == None::<u8>,
            Self::CUSTOM_LUT == None::<&'static [u8]>,
    {
    }
}

} // verus!
