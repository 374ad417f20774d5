//! Temperature-driven fan controller core: fixed-point temperature model,
//! moving-average filtering, a saturating proportional fan curve, and the
//! interrupt-fed sample pipeline that ties them together.

pub mod control;
pub mod degrees;
pub mod dsp;
pub mod fancurve;
pub mod fixed;
pub mod pipeline;
pub mod plugin;
pub mod protocol;
