use vstd::prelude::*;
use crate::modulation::{MODULATION_ONE, modulation, modulation_at};
use crate::sample::{Fraction, to_sample, scaled, mixed, scale, mix, quantize};

verus! {

/// Output of the amplitude transform: every sample scaled by `a`.
pub open spec fn null_output(a: Fraction, input: Seq<i16>) -> Seq<i16> {
    Seq::new(input.len(), |i: int| scaled(input[i] as int, a))
}

/// One tremolo sample: `a * x * m + (1 - a) * x`, where `m` is the
/// modulation depth in units of `MODULATION_ONE`, by the conversion policy.
pub open spec fn tremolo_sample(x: int, a: Fraction, m: int) -> i16 {
    to_sample(x * (a.num * m + (a.den - a.num) * MODULATION_ONE), a.den * MODULATION_ONE)
}

/// Output of the tremolo transform, with one wavelength lasting
/// `period / step` samples.
pub open spec fn tremolo_output(a: Fraction, step: int, period: int, input: Seq<i16>) -> Seq<i16> {
    Seq::new(input.len(), |i: int| tremolo_sample(input[i] as int, a, modulation(i, step, period)))
}

/// Number of samples in a wavelength of `w` seconds at `rate` samples per
/// second, rounded down.
pub open spec fn delay_length(w: Fraction, rate: int) -> int {
    (w.num * rate) / (w.den as int)
}

/// Sample `i` of the delay output: dry up to index `d`, and from there on
/// mixed with the output `d` samples earlier.
pub open spec fn delay_at(a: Fraction, d: int, input: Seq<i16>, i: int) -> i16
    decreases i,
    when d > 0
{
    if i <= d {
        input[i]
    } else {
        mixed(input[i] as int, delay_at(a, d, input, i - d) as int, a)
    }
}

/// Output of the delay transform with an offset of `d` samples.
pub open spec fn delay_output(a: Fraction, d: int, input: Seq<i16>) -> Seq<i16> {
    Seq::new(input.len(), |i: int| delay_at(a, d, input, i))
}

/// Amplitude transform: scales every sample by `amplitude`.
pub fn xform_null(amplitude: Fraction, input: &Vec<i16>) -> (out: Vec<i16>)
    requires
        amplitude.den > 0,
    ensures
        out@ == null_output(amplitude, input@),
{
    let mut out: Vec<i16> = Vec::with_capacity(input.len());
    let mut i: usize = 0;
    while i < input.len()
        invariant
            amplitude.den > 0,
            i <= input.len(),
            out@.len() == i,
            forall|j: int| 0 <= j < i ==> out@[j] == scaled(input@[j] as int, amplitude),
        decreases input.len() - i,
    {
        out.push(scale(input[i], amplitude));
        i = i + 1;
    }
    assert(out@ =~= null_output(amplitude, input@));
    out
}

/// Computes `tremolo_sample(x, a, m)`.
fn tremolo_mix(x: i16, a: Fraction, m: u64) -> (r: i16)
    requires
        a.den > 0,
        m <= MODULATION_ONE,
    ensures
        r == tremolo_sample(x as int, a, m as int),
{
    let one: i128 = MODULATION_ONE as i128;
    let w: i128 = (a.den as i128) - (a.num as i128);
    assert(-0x1_0000_0000_0000_0000 < (a.num as int) * (m as int) < 0x1_0000_0000_0000_0000
        && -0x1_0000_0000_0000_0000 < w * one < 0x1_0000_0000_0000_0000) by (nonlinear_arith)
        requires
            -0x8000_0000 <= a.num < 0x8000_0000,
            -0x8000_0000 <= w < 0x2_0000_0000,
            0 <= m <= one,
            one == 0x4000_0000,
    ;
    let gain: i128 = (a.num as i128) * (m as i128) + w * one;
    assert(-0x1_0000_0000_0000_0000_0000_0000 < gain * (x as int) < 0x1_0000_0000_0000_0000_0000_0000
        && 0 < (a.den as int) * one < 0x1_0000_0000_0000_0000) by (nonlinear_arith)
        requires
            gain == (a.num as int) * (m as int) + ((a.den as int) - (a.num as int)) * one,
            -0x8000_0000 <= a.num < 0x8000_0000,
            0 < a.den < 0x1_0000_0000,
            0 <= m <= one,
            one == 0x4000_0000,
            -0x8000 <= x < 0x8000,
    ;
    quantize(gain * (x as i128), (a.den as i128) * one)
}

/// Tremolo transform: `amplitude * x * depth + (1 - amplitude) * x`, where
/// the depth of sample `i` is `|cos(pi * i / (wavelength_sec * sample_rate))|`,
/// evaluated by the fixed-point cosine series of `modulation` (within about
/// `10^-9` of the exact value) in units of `MODULATION_ONE`.
pub fn xform_tremolo(amplitude: Fraction, wavelength_sec: Fraction, sample_rate: u32, input: &Vec<i16>) -> (out: Vec<i16>)
    requires
        amplitude.den > 0,
        wavelength_sec.num > 0,
        wavelength_sec.den > 0,
        sample_rate > 0,
    ensures
        out@ == tremolo_output(
            amplitude,
            wavelength_sec.den as int,
            wavelength_sec.num * sample_rate,
            input@,
        ),
{
    assert(0 < (wavelength_sec.num as int) * (sample_rate as int) < 0x1_0000_0000_0000_0000)
        by (nonlinear_arith)
        requires
            0 < wavelength_sec.num < 0x8000_0000,
            0 < sample_rate < 0x1_0000_0000,
    ;
    let period: u64 = (wavelength_sec.num as u64) * (sample_rate as u64);
    let step: u32 = wavelength_sec.den;
    let mut out: Vec<i16> = Vec::with_capacity(input.len());
    let mut i: usize = 0;
    while i < input.len()
        invariant
            amplitude.den > 0,
            period > 0,
            period == wavelength_sec.num * sample_rate,
            step == wavelength_sec.den,
            i <= input.len(),
            out@.len() == i,
            forall|j: int|
                0 <= j < i ==> out@[j] == tremolo_sample(
                    input@[j] as int,
                    amplitude,
                    modulation(j, step as int, period as int),
                ),
        decreases input.len() - i,
    {
        let m: u64 = modulation_at(i, step, period);
        out.push(tremolo_mix(input[i], amplitude, m));
        i = i + 1;
    }
    assert(out@ =~= tremolo_output(amplitude, step as int, period as int, input@));
    out
}

/// Number of samples in a wavelength of `wavelength_sec` seconds at
/// `sample_rate` samples per second, rounded down.
pub fn delay_samples(wavelength_sec: Fraction, sample_rate: u32) -> (d: u64)
    requires
        wavelength_sec.num >= 0,
        wavelength_sec.den > 0,
    ensures
        d == delay_length(wavelength_sec, sample_rate as int),
{
    assert(0 <= (wavelength_sec.num as int) * (sample_rate as int) < 0x1_0000_0000_0000_0000)
        by (nonlinear_arith)
        requires
            0 <= wavelength_sec.num < 0x8000_0000,
            0 <= sample_rate < 0x1_0000_0000,
    ;
    (wavelength_sec.num as u64) * (sample_rate as u64) / (wavelength_sec.den as u64)
}

/// Delay transform: feedback echo with an offset of `delay_samples`
/// samples. Sample `i` is passed through while `i <= d`; after that it is
/// `(1 - amplitude) * x + amplitude * out[i - d]`, reading the output
/// already produced.
pub fn xform_delay(amplitude: Fraction, wavelength_sec: Fraction, sample_rate: u32, input: &Vec<i16>) -> (out: Vec<i16>)
    requires
        amplitude.den > 0,
        wavelength_sec.num > 0,
        wavelength_sec.den > 0,
        delay_length(wavelength_sec, sample_rate as int) > 0,
    ensures
        out@ == delay_output(amplitude, delay_length(wavelength_sec, sample_rate as int), input@),
{
    let d: u64 = delay_samples(wavelength_sec, sample_rate);
    let mut out: Vec<i16> = Vec::with_capacity(input.len());
    let mut i: usize = 0;
    while i < input.len()
        invariant
            amplitude.den > 0,
            d > 0,
            i <= input.len(),
            out@.len() == i,
            forall|j: int| 0 <= j < i ==> out@[j] == delay_at(amplitude, d as int, input@, j),
        decreases input.len() - i,
    {
        let y: i16 = if (i as u64) > d {
            let back: usize = i - (d as usize);
            mix(input[i], out[back], amplitude)
        } else {
            input[i]
        };
        out.push(y);
        i = i + 1;
    }
    assert(out@ =~= delay_output(amplitude, d as int, input@));
    out
}

} // verus!
