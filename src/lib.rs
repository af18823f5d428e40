//! Time-domain effects on 16-bit audio samples: amplitude scaling, tremolo
//! and feedback delay, selected by name.
//!
//! All arithmetic is exact integer arithmetic. Real-valued parameters are
//! given as fractions, and every result is brought back to the sample range
//! by one named policy (`quantize`): truncate toward zero, then saturate.
//!
//! The tremolo's depth `|cos|` is evaluated in integers too: the angle is
//! reduced exactly onto `[0, pi/2]`, and the cosine there is a fixed-point
//! Taylor series in units of `2^-60` (see `modulation`), within about
//! `10^-9` of the exact depth. It is exactly one at the start of each
//! wavelength and never leaves `[0, 1]`.

pub mod dispatch;
pub mod effects;
pub mod laws;
pub mod modulation;
pub mod sample;

pub use dispatch::{
    Param, Reason, TransformConfig, TransformError, TransformKind, apply_transform, check_config,
    transform_kind,
};
pub use effects::{delay_samples, xform_delay, xform_null, xform_tremolo};
pub use modulation::{FRAC_ONE, MODULATION_ONE, PI_FRAC, modulation_at};
pub use sample::{Fraction, quantize};
