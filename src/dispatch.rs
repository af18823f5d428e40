use vstd::prelude::*;
use crate::effects::{
    delay_length, delay_output, delay_samples, null_output, tremolo_output, xform_delay,
    xform_null, xform_tremolo,
};
use crate::sample::Fraction;

verus! {

/// The transforms that can be selected by name.
#[derive(Clone, Copy, Debug, PartialEq, Eq, Structural)]
pub enum TransformKind {
    /// Selected by `"tremolo"`.
    Tremolo,
    /// Selected by `"delay"`.
    Delay,
    /// Selected by `"none"`: amplitude scaling only.
    Amplitude,
}

/// A parameter of the configuration.
#[derive(Clone, Copy, Debug, PartialEq, Eq, Structural)]
pub enum Param {
    Amplitude,
    WavelengthSec,
    SampleRate,
}

/// Why a parameter was rejected.
#[derive(Clone, Copy, Debug, PartialEq, Eq, Structural)]
pub enum Reason {
    /// A fraction with a zero denominator.
    ZeroDenominator,
    /// A value that must be positive and is not.
    NotPositive,
    /// A wavelength shorter than one sample, which gives no delay offset.
    UnderOneSample,
}

/// Failure of a transform call. No output is produced in either case.
#[derive(Clone, Debug, PartialEq, Eq)]
pub enum TransformError {
    /// No transform is registered under this name.
    UnknownTransform(String),
    /// A parameter that the selected transform uses is out of its domain.
    InvalidParameter(Param, Reason),
}

/// What a transform call is asked to do.
#[derive(Clone, Debug)]
pub struct TransformConfig {
    /// Selects the transform: `"tremolo"`, `"delay"` or `"none"`.
    pub transform_name: String,
    /// Intensity or mix coefficient of the effect.
    pub amplitude: Fraction,
    /// Time constant in seconds: the modulation rate of the tremolo, the echo
    /// offset of the delay.
    pub wavelength_sec: Fraction,
    /// Samples per second.
    pub sample_rate: u32,
}

/// The transform registered under `name`, matched exactly.
pub open spec fn kind_of(name: Seq<char>) -> Option<TransformKind> {
    if name == "tremolo"@ {
        Some(TransformKind::Tremolo)
    } else if name == "delay"@ {
        Some(TransformKind::Delay)
    } else if name == "none"@ {
        Some(TransformKind::Amplitude)
    } else {
        None
    }
}

/// The first parameter, if any, that makes `cfg` unusable for `kind`.
pub open spec fn config_problem(kind: TransformKind, cfg: TransformConfig) -> Option<(Param, Reason)> {
    if cfg.amplitude.den == 0 {
        Some((Param::Amplitude, Reason::ZeroDenominator))
    } else if kind == TransformKind::Amplitude {
        None
    } else if cfg.sample_rate == 0 {
        Some((Param::SampleRate, Reason::NotPositive))
    } else if cfg.wavelength_sec.den == 0 {
        Some((Param::WavelengthSec, Reason::ZeroDenominator))
    } else if cfg.wavelength_sec.num <= 0 {
        Some((Param::WavelengthSec, Reason::NotPositive))
    } else if kind == TransformKind::Delay && delay_length(cfg.wavelength_sec, cfg.sample_rate as int) == 0 {
        Some((Param::WavelengthSec, Reason::UnderOneSample))
    } else {
        None
    }
}

/// The output of transform `kind` under `cfg` on `input`.
pub open spec fn transform_output(kind: TransformKind, cfg: TransformConfig, input: Seq<i16>) -> Seq<i16> {
    match kind {
        TransformKind::Tremolo => tremolo_output(
            cfg.amplitude,
            cfg.wavelength_sec.den as int,
            cfg.wavelength_sec.num * cfg.sample_rate,
            input,
        ),
        TransformKind::Delay => delay_output(
            cfg.amplitude,
            delay_length(cfg.wavelength_sec, cfg.sample_rate as int),
            input,
        ),
        TransformKind::Amplitude => null_output(cfg.amplitude, input),
    }
}

/// Looks up the transform registered under `name`.
pub fn transform_kind(name: &String) -> (r: Option<TransformKind>)
    ensures
        r == kind_of(name@),
{
    if *name == String::from_str("tremolo") {
        Some(TransformKind::Tremolo)
    } else if *name == String::from_str("delay") {
        Some(TransformKind::Delay)
    } else if *name == String::from_str("none") {
        Some(TransformKind::Amplitude)
    } else {
        None
    }
}

/// Finds the first parameter, if any, that makes `cfg` unusable for `kind`.
pub fn check_config(kind: TransformKind, cfg: &TransformConfig) -> (r: Option<(Param, Reason)>)
    ensures
        r == config_problem(kind, *cfg),
{
    if cfg.amplitude.den == 0 {
        Some((Param::Amplitude, Reason::ZeroDenominator))
    } else if kind == TransformKind::Amplitude {
        None
    } else if cfg.sample_rate == 0 {
        Some((Param::SampleRate, Reason::NotPositive))
    } else if cfg.wavelength_sec.den == 0 {
        Some((Param::WavelengthSec, Reason::ZeroDenominator))
    } else if cfg.wavelength_sec.num <= 0 {
        Some((Param::WavelengthSec, Reason::NotPositive))
    } else if kind == TransformKind::Delay && delay_samples(cfg.wavelength_sec, cfg.sample_rate) == 0 {
        Some((Param::WavelengthSec, Reason::UnderOneSample))
    } else {
        None
    }
}

/// Applies the transform that `cfg` names to `input`.
///
/// Fails with `UnknownTransform` when no transform has that name, and with
/// `InvalidParameter` when a parameter that the transform uses is out of its
/// domain; otherwise returns the transform's output, of the same length as
/// `input`.
pub fn apply_transform(cfg: &TransformConfig, input: &Vec<i16>) -> (r: Result<Vec<i16>, TransformError>)
    ensures
        match kind_of(cfg.transform_name@) {
            None => r is Err && r->Err_0 is UnknownTransform && r->Err_0->UnknownTransform_0@
                == cfg.transform_name@,
            Some(k) => match config_problem(k, *cfg) {
                Some(p) => r == Err::<Vec<i16>, TransformError>(
                    TransformError::InvalidParameter(p.0, p.1),
                ),
                None => r is Ok && r->Ok_0@ == transform_output(k, *cfg, input@),
            },
        },
{
    let kind = match transform_kind(&cfg.transform_name) {
        Some(k) => k,
        None => {
            return Err(TransformError::UnknownTransform(cfg.transform_name.clone()));
        },
    };
    match check_config(kind, cfg) {
        Some((field, reason)) => Err(TransformError::InvalidParameter(field, reason)),
        None => {
            let out = match kind {
                TransformKind::Tremolo => xform_tremolo(
                    cfg.amplitude,
                    cfg.wavelength_sec,
                    cfg.sample_rate,
                    input,
                ),
                TransformKind::Delay => xform_delay(
                    cfg.amplitude,
                    cfg.wavelength_sec,
                    cfg.sample_rate,
                    input,
                ),
                TransformKind::Amplitude => xform_null(cfg.amplitude, input),
            };
            Ok(out)
        },
    }
}

} // verus!
