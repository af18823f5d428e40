use vstd::prelude::*;

verus! {

/// Fixed-point unit of the modulation depth: `MODULATION_ONE` stands for 1.
pub const MODULATION_ONE: u64 = 1073741824;

/// Fixed-point unit of angles and of the cosine series: `FRAC_ONE` stands
/// for 1. It is `MODULATION_ONE * MODULATION_ONE`.
pub const FRAC_ONE: u64 = 1152921504606846976;

/// `pi` in units of `FRAC_ONE`, rounded to the nearest integer.
pub const PI_FRAC: u64 = 3622009729038561421;

/// Number of factors in the cosine series: terms up to `theta^14 / 14!`.
pub const SERIES_TERMS: u32 = 7;

/// Folds a phase remainder `k` in `[0, q)` onto `[0, q / 2]`, using the
/// symmetry `|cos(pi * t)| == |cos(pi * (1 - t))|`.
pub open spec fn folded(k: int, q: int) -> int {
    if 2 * k <= q {
        k
    } else {
        q - k
    }
}

/// Angle of sample `i` in `[0, PI_FRAC / 2]`, where one wavelength lasts
/// `period / step` samples: `pi` times the fractional part of
/// `i * step / period`, folded onto `[0, 1/2]`, in units of `FRAC_ONE`
/// (rounded down).
pub open spec fn folded_angle(i: int, step: int, period: int) -> int {
    folded((i * step) % period, period) * PI_FRAC / period
}

/// Horner evaluation of the Taylor series of the cosine from factor `k` on,
/// for `t = theta^2` in units of `FRAC_ONE`:
/// `1 - t / ((2k+1)(2k+2)) * (1 - t / ((2k+3)(2k+4)) * (...))`.
pub open spec fn cos_series(t: int, k: nat) -> int
    decreases SERIES_TERMS - k,
{
    if k >= SERIES_TERMS {
        FRAC_ONE as int
    } else {
        FRAC_ONE - t * cos_series(t, k + 1) / (FRAC_ONE * ((2 * k + 1) * (2 * k + 2)))
    }
}

/// `cos(theta)` for `theta` in units of `FRAC_ONE`, clamped to `[0, 1]`.
/// On `[0, pi/2]` the series is cut after `theta^14 / 14!`, whose error is
/// below `theta^16 / 16!`, under `10^-10`; the rounding of each step adds
/// a few units of `2^-60`.
pub open spec fn cos_frac(theta: int) -> int {
    let c = cos_series((theta * theta) as int / (FRAC_ONE as int), 0);
    if c < 0 {
        0
    } else if c > FRAC_ONE {
        FRAC_ONE as int
    } else {
        c
    }
}

/// Modulation depth of sample `i` in units of `MODULATION_ONE`, rounded
/// down: the series value of `|cos(pi * i * step / period)|`, within about
/// `10^-9` of the exact depth.
pub open spec fn modulation(i: int, step: int, period: int) -> int {
    cos_frac(folded_angle(i, step, period)) / (MODULATION_ONE as int)
}

proof fn lemma_folded_angle_bounds(i: int, step: int, period: int)
    requires
        i >= 0,
        step >= 0,
        period > 0,
    ensures
        0 <= folded_angle(i, step, period) <= PI_FRAC / 2,
{
    let k = (i * step) % period;
    assert(i * step >= 0) by (nonlinear_arith)
        requires
            i >= 0,
            step >= 0,
    ;
    let p = folded(k, period);
    assert(0 <= 2 * p <= period);
    assert(0 <= p * PI_FRAC / period <= PI_FRAC / 2) by (nonlinear_arith)
        requires
            0 <= 2 * p <= period,
            period > 0,
            PI_FRAC == 3622009729038561421,
    ;
}

/// The modulation depth lies between zero and one.
pub proof fn lemma_modulation_bounds(i: int, step: int, period: int)
    requires
        i >= 0,
        step >= 0,
        period > 0,
    ensures
        0 <= modulation(i, step, period) <= MODULATION_ONE,
{
    let c = cos_frac(folded_angle(i, step, period));
    assert(0 <= c <= FRAC_ONE);
    assert(0 <= c / (MODULATION_ONE as int) <= MODULATION_ONE) by (nonlinear_arith)
        requires
            0 <= c <= FRAC_ONE,
            FRAC_ONE == 1152921504606846976,
            MODULATION_ONE == 1073741824,
    ;
}

proof fn lemma_cos_series_at_zero(k: nat)
    ensures
        cos_series(0, k) == FRAC_ONE,
    decreases SERIES_TERMS - k,
{
    if k < SERIES_TERMS {
        lemma_cos_series_at_zero(k + 1);
        let c = FRAC_ONE * ((2 * k + 1) * (2 * k + 2));
        assert(c > 0) by (nonlinear_arith)
            requires
                c == FRAC_ONE * ((2 * k + 1) * (2 * k + 2)),
                k >= 0,
                FRAC_ONE > 0,
        ;
        assert(0 * cos_series(0, k + 1) == 0);
        assert(0int / c == 0);
        assert(cos_series(0, k) == FRAC_ONE - 0int / c);
    }
}

/// At the first sample the modulation is at full depth.
pub proof fn lemma_modulation_at_start(step: int, period: int)
    requires
        step >= 0,
        period > 0,
    ensures
        modulation(0, step, period) == MODULATION_ONE,
{
    assert(0 * step == 0);
    assert(0int % period == 0);
    assert(folded(0, period) == 0);
    assert(0 * PI_FRAC / period == 0);
    assert(0int * 0 / (FRAC_ONE as int) == 0);
    lemma_cos_series_at_zero(0);
    assert(cos_frac(0) == FRAC_ONE);
    assert(FRAC_ONE / MODULATION_ONE == MODULATION_ONE) by (nonlinear_arith)
        requires
            FRAC_ONE == 1152921504606846976,
            MODULATION_ONE == 1073741824,
    ;
}

/// One Horner step of `cos_series`: `FRAC_ONE - t * h / (FRAC_ONE * c)`.
fn series_step(t: i128, h: i128, c: i128) -> (r: i128)
    requires
        0 <= t <= 3 * FRAC_ONE,
        0 <= h <= FRAC_ONE,
        2 <= c <= 182,
    ensures
        r == FRAC_ONE - t * h / (FRAC_ONE * c),
        -(FRAC_ONE as int) / 2 <= r <= FRAC_ONE,
        c >= 12 ==> 0 <= r <= FRAC_ONE,
{
    let one: i128 = FRAC_ONE as i128;
    assert(0 <= t * h <= 3 * FRAC_ONE * FRAC_ONE) by (nonlinear_arith)
        requires
            0 <= t <= 3 * FRAC_ONE,
            0 <= h <= FRAC_ONE,
    ;
    assert(0 < one * c < 0x1_0000_0000_0000_0000_0000_0000) by (nonlinear_arith)
        requires
            one == 1152921504606846976,
            2 <= c <= 182,
    ;
    let q: i128 = t * h / (one * c);
    proof {
        let x = t * h;
        let d = one * c;
        vstd::arithmetic::div_mod::lemma_fundamental_div_mod(x as int, d as int);
        vstd::arithmetic::div_mod::lemma_mod_pos_bound(x as int, d as int);
        vstd::arithmetic::div_mod::lemma_div_pos_is_pos(x as int, d as int);
        assert(d * q <= 3 * one * one);
        assert(one * (c * q) <= one * (3 * one)) by (nonlinear_arith)
            requires
                d * q <= 3 * one * one,
                d == one * c,
        ;
        assert(c * q <= 3 * one) by (nonlinear_arith)
            requires
                one * (c * q) <= one * (3 * one),
                one > 0,
        ;
        assert(2 * q <= 3 * one) by (nonlinear_arith)
            requires
                c * q <= 3 * one,
                c >= 2,
                q >= 0,
        ;
        if c >= 12 {
            assert(12 * q <= 3 * one) by (nonlinear_arith)
                requires
                    c * q <= 3 * one,
                    c >= 12,
                    q >= 0,
            ;
        }
    }
    one - q
}

/// Computes `modulation(i, step, period)`.
pub fn modulation_at(i: usize, step: u32, period: u64) -> (r: u64)
    requires
        period > 0,
    ensures
        r == modulation(i as int, step as int, period as int),
        r <= MODULATION_ONE,
{
    proof {
        lemma_modulation_bounds(i as int, step as int, period as int);
        lemma_folded_angle_bounds(i as int, step as int, period as int);
    }
    let q: u128 = period as u128;
    assert((i as int) * (step as int) < 0x1_0000_0000_0000_0000_0000_0000) by (nonlinear_arith)
        requires
            0 <= i < 0x1_0000_0000_0000_0000,
            0 <= step < 0x1_0000_0000,
    ;
    let k: u128 = ((i as u128) * (step as u128)) % q;
    let p: u128 = if 2 * k <= q {
        k
    } else {
        q - k
    };
    let pi: u128 = PI_FRAC as u128;
    assert(p * pi <= 0x1_0000_0000_0000_0000 * pi) by (nonlinear_arith)
        requires
            p <= 0x1_0000_0000_0000_0000,
            pi >= 0,
    ;
    let theta: u128 = p * pi / q;
    proof {
    let bound: int = 1811004864519280710;
    assert(theta * theta <= bound * bound) by (nonlinear_arith)
        requires
            0 <= theta <= bound,
    ;
    assert(bound * bound <= 3 * (FRAC_ONE as int) * (FRAC_ONE as int));
    vstd::arithmetic::div_mod::lemma_div_is_ordered(
        (theta * theta) as int,
        3 * (FRAC_ONE as int) * (FRAC_ONE as int),
        FRAC_ONE as int,
    );
    vstd::arithmetic::div_mod::lemma_div_multiples_vanish(3 * (FRAC_ONE as int), FRAC_ONE as int);
    assert((FRAC_ONE as int) * (3 * (FRAC_ONE as int)) == 3 * (FRAC_ONE as int) * (FRAC_ONE as int));
    }
    let t: i128 = (theta * theta / (FRAC_ONE as u128)) as i128;
    let mut h: i128 = FRAC_ONE as i128;
    let mut n: u32 = SERIES_TERMS;
    while n > 0
        invariant
            n <= SERIES_TERMS,
            0 <= t <= 3 * FRAC_ONE,
            t == (theta * theta) as int / (FRAC_ONE as int),
            h == cos_series(t as int, n as nat),
            -(FRAC_ONE as int) / 2 <= h <= FRAC_ONE,
            n >= 1 ==> 0 <= h,
        decreases n,
    {
        n = n - 1;
        let nn: i128 = n as i128;
        assert(0 <= (2 * nn + 1) * (2 * nn + 2) <= 182) by (nonlinear_arith)
            requires
                0 <= nn < 7,
        ;
        let c: i128 = (2 * nn + 1) * (2 * nn + 2);
        assert(2 <= c <= 182) by (nonlinear_arith)
            requires
                c == (2 * nn + 1) * (2 * nn + 2),
                0 <= nn < 7,
        ;
        assert(nn >= 1 ==> c >= 12) by (nonlinear_arith)
            requires
                c == (2 * nn + 1) * (2 * nn + 2),
                nn >= 0,
        ;
        h = series_step(t, h, c);
    }
    let clamped: i128 = if h < 0 {
        0
    } else {
        h
    };
    (clamped / (MODULATION_ONE as i128)) as u64
}

} // verus!
