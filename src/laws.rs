use vstd::prelude::*;
use crate::dispatch::{TransformConfig, TransformKind, config_problem, kind_of, transform_output};
use crate::effects::{delay_at, delay_length, tremolo_sample};
use crate::modulation::{MODULATION_ONE, lemma_modulation_at_start, lemma_modulation_bounds, modulation};
use crate::sample::{mixed, saturate, scaled, trunc_div};

verus! {

/// Magnitude of an integer.
pub open spec fn magnitude(v: int) -> int {
    if v < 0 {
        -v
    } else {
        v
    }
}

/// Dividing an exact multiple gives the factor back.
proof fn lemma_trunc_div_exact(x: int, d: int)
    requires
        d > 0,
    ensures
        trunc_div(x * d, d) == x,
{
    if x >= 0 {
        vstd::arithmetic::div_mod::lemma_div_multiples_vanish(x, d);
        assert(d * x == x * d) by (nonlinear_arith);
    } else {
        vstd::arithmetic::div_mod::lemma_div_multiples_vanish(-x, d);
        assert(-(x * d) == d * (-x)) by (nonlinear_arith);
    }
}

/// Scaling by a factor between zero and one never grows the magnitude.
proof fn lemma_trunc_div_shrinks(x: int, g: int, d: int)
    requires
        d > 0,
        0 <= g <= d,
    ensures
        x >= 0 ==> 0 <= trunc_div(x * g, d) <= x,
        x < 0 ==> x <= trunc_div(x * g, d) <= 0,
{
    let m = magnitude(x);
    assert(0 <= m * g <= m * d) by (nonlinear_arith)
        requires
            m >= 0,
            0 <= g <= d,
    ;
    vstd::arithmetic::div_mod::lemma_div_is_ordered(m * g, m * d, d);
    vstd::arithmetic::div_mod::lemma_div_multiples_vanish(m, d);
    assert(d * m == m * d) by (nonlinear_arith);
    vstd::arithmetic::div_mod::lemma_div_pos_is_pos(m * g, d);
    if x < 0 {
        assert(-(x * g) == m * g) by (nonlinear_arith)
            requires
                m == -x,
        ;
    } else {
        assert(x * g == m * g);
    }
}

/// Every transform returns as many samples as it was given.
pub proof fn law_length_preserved(kind: TransformKind, cfg: TransformConfig, input: Seq<i16>)
    requires
        config_problem(kind, cfg) is None,
    ensures
        transform_output(kind, cfg, input).len() == input.len(),
{
}

/// The amplitude transform at amplitude zero silences every sample.
pub proof fn law_amplitude_zero_silences(cfg: TransformConfig, input: Seq<i16>)
    requires
        config_problem(TransformKind::Amplitude, cfg) is None,
        cfg.amplitude.num == 0,
    ensures
        forall|i: int|
            0 <= i < input.len() ==> #[trigger] transform_output(
                TransformKind::Amplitude,
                cfg,
                input,
            )[i] == 0,
{
    assert forall|i: int| 0 <= i < input.len() implies #[trigger] transform_output(
        TransformKind::Amplitude,
        cfg,
        input,
    )[i] == 0 by {
        assert(0 * (input[i] as int) == 0);
        assert(scaled(input[i] as int, cfg.amplitude) == 0);
    }
}

/// The amplitude transform at amplitude one returns its input unchanged.
pub proof fn law_amplitude_one_identity(cfg: TransformConfig, input: Seq<i16>)
    requires
        config_problem(TransformKind::Amplitude, cfg) is None,
        cfg.amplitude.num == cfg.amplitude.den,
    ensures
        transform_output(TransformKind::Amplitude, cfg, input) == input,
{
    let out = transform_output(TransformKind::Amplitude, cfg, input);
    assert forall|i: int| 0 <= i < input.len() implies out[i] == input[i] by {
        let x = input[i] as int;
        let d = cfg.amplitude.den as int;
        assert(d * x == x * d) by (nonlinear_arith);
        lemma_trunc_div_exact(x, d);
    }
    assert(out =~= input);
}

/// The first tremolo sample equals the first input sample, whatever the
/// amplitude: the modulation starts at full depth.
pub proof fn law_tremolo_first_sample(cfg: TransformConfig, input: Seq<i16>)
    requires
        config_problem(TransformKind::Tremolo, cfg) is None,
        input.len() > 0,
    ensures
        transform_output(TransformKind::Tremolo, cfg, input)[0] == input[0],
{
    let a = cfg.amplitude;
    let step = cfg.wavelength_sec.den as int;
    let period = cfg.wavelength_sec.num * cfg.sample_rate;
    let wn = cfg.wavelength_sec.num as int;
    let rate = cfg.sample_rate as int;
    assert(wn * rate > 0) by (nonlinear_arith)
        requires
            wn > 0,
            rate > 0,
    ;
    lemma_modulation_at_start(step, period);
    let x = input[0] as int;
    let one = MODULATION_ONE as int;
    let d = a.den * one;
    assert(x * (a.num * one + (a.den - a.num) * one) == x * d) by (nonlinear_arith)
        requires
            d == a.den * one,
    ;
    lemma_trunc_div_exact(x, d);
    assert(tremolo_sample(x, a, MODULATION_ONE as int) == input[0]);
}

/// With an amplitude between zero and one (one included), no tremolo
/// sample exceeds its input sample in magnitude.
pub proof fn law_tremolo_never_louder(cfg: TransformConfig, input: Seq<i16>, i: int)
    requires
        config_problem(TransformKind::Tremolo, cfg) is None,
        0 <= cfg.amplitude.num <= cfg.amplitude.den,
        0 <= i < input.len(),
    ensures
        magnitude(transform_output(TransformKind::Tremolo, cfg, input)[i] as int) <= magnitude(
            input[i] as int,
        ),
{
    let a = cfg.amplitude;
    let step = cfg.wavelength_sec.den as int;
    let period = cfg.wavelength_sec.num * cfg.sample_rate;
    let wn = cfg.wavelength_sec.num as int;
    let rate = cfg.sample_rate as int;
    assert(wn * rate > 0) by (nonlinear_arith)
        requires
            wn > 0,
            rate > 0,
    ;
    lemma_modulation_bounds(i, step, period);
    let m = modulation(i, step, period);
    let g = a.num * m + (a.den - a.num) * MODULATION_ONE;
    let one = MODULATION_ONE as int;
    let d = a.den * one;
    assert(0 <= g <= d) by (nonlinear_arith)
        requires
            0 <= a.num <= a.den,
            0 <= m <= one,
            g == a.num * m + (a.den - a.num) * one,
            d == a.den * one,
    ;
    let x = input[i] as int;
    lemma_trunc_div_shrinks(x, g, d);
    let v = trunc_div(x * g, d);
    assert(i16::MIN <= v <= i16::MAX);
    assert(saturate(v) == v);
}

/// The delay passes every sample up to and including index `delay_length`
/// through unchanged.
pub proof fn law_delay_dry(cfg: TransformConfig, input: Seq<i16>, i: int)
    requires
        config_problem(TransformKind::Delay, cfg) is None,
        0 <= i < input.len(),
        i <= delay_length(cfg.wavelength_sec, cfg.sample_rate as int),
    ensures
        transform_output(TransformKind::Delay, cfg, input)[i] == input[i],
{
}

/// The first wet sample of the delay mixes its input with the input
/// `delay_length` samples earlier, which is still dry.
pub proof fn law_delay_first_wet(cfg: TransformConfig, input: Seq<i16>)
    requires
        config_problem(TransformKind::Delay, cfg) is None,
        delay_length(cfg.wavelength_sec, cfg.sample_rate as int) + 1 < input.len(),
    ensures
        ({
            let d = delay_length(cfg.wavelength_sec, cfg.sample_rate as int);
            transform_output(TransformKind::Delay, cfg, input)[d + 1] == mixed(
                input[d + 1] as int,
                input[1] as int,
                cfg.amplitude,
            )
        }),
{
    let d = delay_length(cfg.wavelength_sec, cfg.sample_rate as int);
    assert(delay_at(cfg.amplitude, d, input, 1) == input[1]);
}

/// A name that is not registered selects no transform.
pub proof fn law_reverb_is_unknown()
    ensures
        kind_of("reverb"@) is None,
{
    reveal_strlit("reverb");
    reveal_strlit("tremolo");
    reveal_strlit("delay");
    reveal_strlit("none");
    assert("reverb"@[0] != "tremolo"@[0]);
    assert("reverb"@[0] != "delay"@[0]);
    assert("reverb"@[0] != "none"@[0]);
}

} // verus!
