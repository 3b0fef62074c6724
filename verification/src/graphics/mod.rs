//! Page buffers and paged rendering.

pub mod buffer;
pub mod paged;

pub use buffer::{DisplayRotation, PageBuffer, PageBufferPair, PlanePolarity, TriColor};
pub use paged::{PageGeometry, page_count, page_geometry};
