//! Panel specification: Good Display GDEM0154Z90 (1.54" 200x200 black/white/red), SSD1681.

use vstd::prelude::*;
use crate::traits::{ColorMode, EpdPanel};

verus! {

/// Good Display GDEM0154Z90 (1.54" 200x200 black/white/red), SSD1681. It declares no VCOM override: the panel runs on its OTP VCOM.
#[derive(Debug, Clone, Copy, PartialEq, Eq, Default)]
pub struct GDEM0154Z90;

impl EpdPanel for GDEM0154Z90 {
    /// Panel physical width in pixels.
    const WIDTH: u32 = 200;

    /// Panel physical height in pixels.
    const HEIGHT: u32 = 200;

    /// Panel colour mode (Black, White, Red).
    const COLOR_MODE: ColorMode = ColorMode::TriColor;
    /// RAM row width in pixels: the visible width, unpadded.
    const RAM_WIDTH: u32 = Self::WIDTH;

    /// No VCOM override: the panel runs on its OTP VCOM.
    const VCOM: Option<u8> = None;

    /// No gate voltage override.
    const GATE_VOLTAGE: Option<u8> = None;

    /// No custom waveform: the panel runs on its OTP LUT.
    const CUSTOM_LUT: Option<&'static [u8]> = None;

    /// This panel's dimensions, colour mode and register overrides, as declared above.
    proof fn lemma_dimensions_fit()
        ensures
            Self::WIDTH == 200,
            Self::HEIGHT == 200,
            Self::RAM_WIDTH == 200,
            Self::COLOR_MODE == ColorMode::TriColor,
            Self::VCOM == None::<u8>,
            Self::GATE_VOLTAGE == None::<u8>,
            Self::CUSTOM_LUT == None::<&'static [u8]>,
    {
    }
}

} // verus!
