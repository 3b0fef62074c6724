//! Driver IC command sets.
//!
//! Each controller plans its operations as sequences of [`BusOp`](crate::bus::BusOp)s, stated
//! exactly by the spec functions of its [`EpdController`](crate::traits::EpdController) impl.

pub mod common;
pub mod ssd168x;

pub use ssd168x::{
    Ssd1680Controller, Ssd1680RefreshMode, Ssd1681Controller, Ssd1681RefreshMode,
    Ssd168xController, Ssd168xRefreshMode, Ssd168xVariant,
};
pub mod ssd1677;

pub use ssd1677::{Ssd1677Controller, Ssd1677RefreshMode};
pub mod uc8253;

pub use uc8253::{Uc8253Controller, Uc8253RefreshMode, Uc8253Variant};
pub mod jd7966x;

pub use jd7966x::{Jd79660Controller, Jd79661Controller, Jd7966xController, Jd7966xVariant};
pub mod ed2208;

pub use ed2208::Ed2208Controller;
pub mod pervasive_bw;

pub use pervasive_bw::{PervasiveBwController, PervasiveDriverVariant, PervasiveRefreshMode};
pub mod pervasive_bwry;

pub use pervasive_bwry::{
    OtpSession, OtpStep, PervasiveBwryController, PervasiveBwryOtpError, PervasiveBwryVariant,
};
