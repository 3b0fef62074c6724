//! Panel specification: ZJY122250-0213AJH-E5 / Good Display GDEY0213F51 (2.13" 122x250 four-colour), JD79661.

use vstd::prelude::*;
use crate::traits::{ColorMode, EpdPanel};

verus! {

/// ZJY122250-0213AJH-E5 / Good Display GDEY0213F51 (2.13" 122x250 four-colour), JD79661. Its RAM rows are 128 pixels (32 bytes at 2 bits a pixel), padded past the 122 visible ones. BUSY is active low.
#[allow(non_camel_case_types)]
#[derive(Debug, Clone, Copy, PartialEq, Eq, Default)]
pub struct ZJY122250_0213AJH_E5;

/// Alias under the part name used by other drivers for the same panel.
#[allow(non_camel_case_types)]
pub type GDEY0213F51 = ZJY122250_0213AJH_E5;

impl EpdPanel for ZJY122250_0213AJH_E5 {
    /// Panel physical width in pixels.
    const WIDTH: u32 = 122;

    /// Panel physical height in pixels.
    const HEIGHT: u32 = 250;

    /// Panel colour mode (Black, White, Red, Yellow; 2 bits per pixel).
    const COLOR_MODE: ColorMode = ColorMode::QuadColor;

    /// RAM row width in pixels: the visible width padded to the controller's layout.
    const RAM_WIDTH: u32 = 128;

    /// No VCOM override: the panel runs on its OTP VCOM.
    const VCOM: Option<u8> = None;

    /// No gate voltage override.
    const GATE_VOLTAGE: Option<u8> = None;

    /// No custom waveform: the panel runs on its OTP LUT.
    const CUSTOM_LUT: Option<&'static [u8]> = None;

    /// This panel's dimensions, colour mode and register overrides, as declared above.
    proof fn lemma_dimensions_fit()
        ensures
            Self::WIDTH == 122,
            Self::HEIGHT == 250,
            Self::RAM_WIDTH == 128,
            Self::COLOR_MODE == ColorMode::QuadColor,
            Self::VCOM == None::<u8>,
            Self::GATE_VOLTAGE == None::<u8>,
            Self::CUSTOM_LUT == None::<&'static [u8]>,
    {
    }
}

} // verus!
