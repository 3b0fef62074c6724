//! Panel specification: Good Display GDEY037T03 (3.7" 240x416 monochrome), UC8253 with its default profile.

use vstd::prelude::*;
use crate::traits::{ColorMode, EpdPanel};

verus! {

/// Good Display GDEY037T03 (3.7" 240x416 monochrome), UC8253 with its default profile. BUSY is active low.
#[derive(Debug, Clone, Copy, PartialEq, Eq, Default)]
pub struct GDEY037T03;

/// Alias under the part name used by other drivers for the same panel.
#[allow(non_camel_case_types)]
pub type GxEPD2_370_GDEY037T03 = GDEY037T03;

impl EpdPanel for GDEY037T03 {
    /// Panel physical width in pixels.
    const WIDTH: u32 = 240;

    /// Panel physical height in pixels.
    const HEIGHT: u32 = 416;

    /// Panel colour mode (monochrome).
    const COLOR_MODE: ColorMode = ColorMode::BlackWhite;
    /// RAM row width in pixels: the visible width, unpadded.
    const RAM_WIDTH: u32 = Self::WIDTH;

    /// No VCOM override: the panel runs on its OTP VCOM.
    const VCOM: Option<u8> = None;

    /// No gate voltage override.
    const GATE_VOLTAGE: Option<u8> = None;

    /// No custom waveform: the panel runs on its OTP LUT.
    const CUSTOM_LUT: Option<&'static [u8]> = None;

    /// This panel's dimensions, colour mode and register overrides, as declared above.
    proof fn lemma_dimensions_fit()
        ensures
            Self::WIDTH == 240,
            Self::HEIGHT == 416,
            Self::RAM_WIDTH == 240,
            Self::COLOR_MODE == ColorMode::BlackWhite,
            Self::VCOM == None::<u8>,
            Self::GATE_VOLTAGE == None::<u8>,
            Self::CUSTOM_LUT == None::<&'static [u8]>,
    {
    }
}

} // verus!
