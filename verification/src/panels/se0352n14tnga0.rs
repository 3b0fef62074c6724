//! Panel specification: Waveshare 3.52" e-Paper HAT (B), SE0352N14-TNG-A0 (240x360 black/white/red), UC8253 with the `Se0352n14` profile.

use vstd::prelude::*;
use crate::traits::{ColorMode, EpdPanel};

verus! {

/// Waveshare 3.52" e-Paper HAT (B), SE0352N14-TNG-A0 (240x360 black/white/red), UC8253 with the `Se0352n14` profile. The raster is 240 wide and 360 tall (30 bytes a line). Set bits are ink and 0x00 is white in both planes. BUSY is active low; full refresh only.
#[derive(Debug, Clone, Copy, PartialEq, Eq, Default)]
pub struct SE0352N14TNGA0;

impl EpdPanel for SE0352N14TNGA0 {
    /// Panel physical width in pixels.
    const WIDTH: u32 = 240;

    /// Panel physical height in pixels.
    const HEIGHT: u32 = 360;

    /// Panel colour mode (Black, White, Red).
    const COLOR_MODE: ColorMode = ColorMode::TriColor;
    /// RAM row width in pixels: the visible width, unpadded.
    const RAM_WIDTH: u32 = Self::WIDTH;

    /// No VCOM override: the panel runs on its OTP VCOM.
    const VCOM: Option<u8> = None;

    /// No gate voltage override.
    const GATE_VOLTAGE: Option<u8> = None;

    /// No custom waveform: the panel runs on its OTP LUT.
    const CUSTOM_LUT: Option<&'static [u8]> = None;

    /// This panel's dimensions, colour mode and register overrides, as declared above.
    proof fn lemma_dimensions_fit()
        ensures
            Self::WIDTH == 240,
            Self::HEIGHT == 360,
            Self::RAM_WIDTH == 240,
            Self::COLOR_MODE == ColorMode::TriColor,
            Self::VCOM == None::<u8>,
            Self::GATE_VOLTAGE == None::<u8>,
            Self::CUSTOM_LUT == None::<&'static [u8]>,
    {
    }
}

} // verus!
