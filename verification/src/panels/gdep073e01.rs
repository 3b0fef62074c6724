//! Panel specification: Good Display GDEP073E01 (7.3" 800x480 Spectra 6), ED2208-GCA.

use vstd::prelude::*;
use crate::traits::{ColorMode, EpdPanel};

verus! {

/// Good Display GDEP073E01 (7.3" 800x480 Spectra 6), ED2208-GCA. Two 4-bit pixels per byte.
#[derive(Debug, Clone, Copy, PartialEq, Eq, Default)]
pub struct GDEP073E01;

/// Alias under the part name used by other drivers for the same panel.
#[allow(non_camel_case_types)]
pub type GxEPD2_730c_GDEP073E01 = GDEP073E01;

impl EpdPanel for GDEP073E01 {
    /// Panel physical width in pixels.
    const WIDTH: u32 = 800;

    /// Panel physical height in pixels.
    const HEIGHT: u32 = 480;

    /// Panel colour mode (Spectra 6, 4 bits per pixel).
    const COLOR_MODE: ColorMode = ColorMode::SevenColor;
    /// RAM row width in pixels: the visible width, unpadded.
    const RAM_WIDTH: u32 = Self::WIDTH;

    /// No VCOM override: the panel runs on its OTP VCOM.
    const VCOM: Option<u8> = None;

    /// No gate voltage override.
    const GATE_VOLTAGE: Option<u8> = None;

    /// No custom waveform: the panel runs on its OTP LUT.
    const CUSTOM_LUT: Option<&'static [u8]> = None;

    /// This panel's dimensions, colour mode and register overrides, as declared above.
    proof fn lemma_dimensions_fit()
        ensures
            Self::WIDTH == 800,
            Self::HEIGHT == 480,
            Self::RAM_WIDTH == 800,
            Self::COLOR_MODE == ColorMode::SevenColor,
            Self::VCOM == None::<u8>,
            Self::GATE_VOLTAGE == None::<u8>,
            Self::CUSTOM_LUT == None::<&'static [u8]>,
    {
    }
}

} // verus!
