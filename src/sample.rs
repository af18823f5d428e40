use vstd::prelude::*;

verus! {

/// A rational number `num / den`, used for real-valued parameters.
#[derive(Clone, Copy, Debug, PartialEq, Eq, Structural)]
pub struct Fraction {
    pub num: i32,
    pub den: u32,
}

/// Integer quotient of `n / d` rounded toward zero (for `d > 0`).
pub open spec fn trunc_div(n: int, d: int) -> int {
    if n >= 0 {
        n / d
    } else {
        -((-n) / d)
    }
}

/// Clamps an integer into the range of a 16-bit sample.
pub open spec fn saturate(v: int) -> i16 {
    if v < i16::MIN {
        i16::MIN
    } else if v > i16::MAX {
        i16::MAX
    } else {
        v as i16
    }
}

/// The conversion policy from the exact value `n / d` to a sample:
/// truncation toward zero, then saturation at the ends of the range.
pub open spec fn to_sample(n: int, d: int) -> i16 {
    saturate(trunc_div(n, d))
}

/// Converts the exact value `n / d` to a sample by the conversion policy.
pub fn quantize(n: i128, d: i128) -> (r: i16)
    requires
        d > 0,
        n > i128::MIN,
    ensures
        r == to_sample(n as int, d as int),
{
    let q: i128 = if n >= 0 {
        n / d
    } else {
        -((-n) / d)
    };
    if q < -32768 {
        -32768
    } else if q > 32767 {
        32767
    } else {
        q as i16
    }
}

/// `x` scaled by the amplitude `a`: `a * x`.
pub open spec fn scaled(x: int, a: Fraction) -> i16 {
    to_sample(a.num * x, a.den as int)
}

/// The weighted mix `(1 - a) * x + a * y`.
pub open spec fn mixed(x: int, y: int, a: Fraction) -> i16 {
    to_sample((a.den - a.num) * x + a.num * y, a.den as int)
}

/// Computes `scaled(x, a)`.
pub fn scale(x: i16, a: Fraction) -> (r: i16)
    requires
        a.den > 0,
    ensures
        r == scaled(x as int, a),
{
    assert(-0x1_0000_0000_0000 < (a.num as int) * (x as int) < 0x1_0000_0000_0000)
        by (nonlinear_arith)
        requires
            -0x8000_0000 <= a.num < 0x8000_0000,
            -0x8000 <= x < 0x8000,
    ;
    quantize((a.num as i128) * (x as i128), a.den as i128)
}

/// Computes `mixed(x, y, a)`.
pub fn mix(x: i16, y: i16, a: Fraction) -> (r: i16)
    requires
        a.den > 0,
    ensures
        r == mixed(x as int, y as int, a),
{
    let w: i128 = (a.den as i128) - (a.num as i128);
    assert(-0x1_0000_0000_0000 < w * (x as int) < 0x1_0000_0000_0000
        && -0x1_0000_0000_0000 < (a.num as int) * (y as int) < 0x1_0000_0000_0000)
        by (nonlinear_arith)
        requires
            -0x8000_0000 <= a.num < 0x8000_0000,
            -0x8000_0000 <= w < 0x2_0000_0000,
            -0x8000 <= x < 0x8000,
            -0x8000 <= y < 0x8000,
    ;
    quantize(w * (x as i128) + (a.num as i128) * (y as i128), a.den as i128)
}

} // verus!
