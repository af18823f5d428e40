use wav_transform::{
    apply_transform, check_config, delay_samples, modulation_at, quantize, transform_kind,
    xform_delay, xform_null, xform_tremolo, Fraction, Param, Reason, TransformConfig,
    TransformError, TransformKind, MODULATION_ONE,
};

fn frac(num: i32, den: u32) -> Fraction {
    Fraction { num, den }
}

fn config(name: &str, amplitude: Fraction, wavelength_sec: Fraction, sample_rate: u32) -> TransformConfig {
    TransformConfig {
        transform_name: name.to_string(),
        amplitude,
        wavelength_sec,
        sample_rate,
    }
}

#[test]
fn delay_scenario_two_sample_offset() {
    let cfg = config("delay", frac(1, 2), frac(1, 22050), 44100);
    let input: Vec<i16> = vec![100, 200, 300, 400, 500];
    let out = apply_transform(&cfg, &input).unwrap();
    assert_eq!(out, vec![100, 200, 300, 300, 400]);
}

#[test]
fn delay_feedback_reads_output_not_input() {
    // offset 1: y[i] = (x[i] + y[i-1]) / 2 from index 2 on
    let cfg = config("delay", frac(1, 2), frac(1, 44100), 44100);
    let input: Vec<i16> = vec![0, 100, 0, 0, 0];
    let out = apply_transform(&cfg, &input).unwrap();
    assert_eq!(out, vec![0, 100, 50, 25, 12]);
}

#[test]
fn delay_dry_region_is_input() {
    let cfg = config("delay", frac(9, 10), frac(3, 44100), 44100);
    let input: Vec<i16> = vec![5, -6, 7, -8, 1000, 30];
    let out = apply_transform(&cfg, &input).unwrap();
    assert_eq!(&out[..4], &input[..4]);
}

#[test]
fn delay_first_wet_sample_mixes_dry_input() {
    // d = 3: out[4] = 0.1 * 1000 + 0.9 * input[1]
    let cfg = config("delay", frac(9, 10), frac(3, 44100), 44100);
    let input: Vec<i16> = vec![5, -60, 7, -8, 1000, 30];
    let out = apply_transform(&cfg, &input).unwrap();
    assert_eq!(out[4], 46);
}

#[test]
fn unknown_transform_is_an_error() {
    let cfg = config("reverb", frac(1, 2), frac(1, 10), 44100);
    let input: Vec<i16> = vec![1, 2, 3];
    let r = apply_transform(&cfg, &input);
    assert_eq!(r, Err(TransformError::UnknownTransform("reverb".to_string())));
}

#[test]
fn names_are_case_sensitive() {
    let cfg = config("Delay", frac(1, 2), frac(1, 10), 44100);
    let r = apply_transform(&cfg, &vec![1]);
    assert_eq!(r, Err(TransformError::UnknownTransform("Delay".to_string())));
    assert_eq!(transform_kind(&"tremolo".to_string()), Some(TransformKind::Tremolo));
    assert_eq!(transform_kind(&"delay".to_string()), Some(TransformKind::Delay));
    assert_eq!(transform_kind(&"none".to_string()), Some(TransformKind::Amplitude));
    assert_eq!(transform_kind(&"".to_string()), None);
}

#[test]
fn amplitude_zero_silences() {
    let cfg = config("none", frac(0, 1), frac(1, 10), 44100);
    let out = apply_transform(&cfg, &vec![1, -1, 32767, -32768]).unwrap();
    assert_eq!(out, vec![0, 0, 0, 0]);
}

#[test]
fn amplitude_one_is_identity() {
    let cfg = config("none", frac(7, 7), frac(1, 10), 44100);
    let input: Vec<i16> = vec![1, -1, 32767, -32768, 0];
    assert_eq!(apply_transform(&cfg, &input).unwrap(), input);
}

#[test]
fn amplitude_truncates_toward_zero() {
    let out = xform_null(frac(1, 2), &vec![-3, 3, 32767, -32768]);
    assert_eq!(out, vec![-1, 1, 16383, -16384]);
}

#[test]
fn amplitude_saturates() {
    let out = xform_null(frac(2, 1), &vec![20000, -20000, 100]);
    assert_eq!(out, vec![32767, -32768, 200]);
    let out = xform_null(frac(-1, 1), &vec![-32768, 5]);
    assert_eq!(out, vec![32767, -5]);
}

#[test]
fn none_ignores_wavelength_and_rate() {
    let cfg = config("none", frac(1, 1), frac(0, 0), 0);
    assert_eq!(apply_transform(&cfg, &vec![4, 5]).unwrap(), vec![4, 5]);
}

#[test]
fn tremolo_exact_values() {
    // a wavelength of four samples: depths 1, cos(pi/4), 0, cos(pi/4), 1, ...
    let input: Vec<i16> = vec![1000, 1000, 1000, 1000, -1000, -1000];
    let out = xform_tremolo(frac(1, 2), frac(4, 44100), 44100, &input);
    assert_eq!(out, vec![1000, 853, 500, 853, -1000, -853]);
    let input: Vec<i16> = vec![-32768, 32767, 1000, 1000, -1000, -777];
    let out = xform_tremolo(frac(3, 10), frac(4, 44100), 44100, &input);
    assert_eq!(out, vec![-32768, 29887, 700, 912, -1000, -708]);
}

#[test]
fn tremolo_first_sample_is_input() {
    for a in [frac(0, 1), frac(1, 3), frac(1, 1), frac(5, 2), frac(-4, 3)] {
        let cfg = config("tremolo", a, frac(1, 5), 44100);
        let out = apply_transform(&cfg, &vec![-12345, 17, 9]).unwrap();
        assert_eq!(out[0], -12345);
    }
}

#[test]
fn tremolo_full_amplitude_never_louder() {
    let input: Vec<i16> = vec![1000, 1000, 1000, 1000, -1000, -32768, 32767, -5, 3];
    let cfg = config("tremolo", frac(1, 1), frac(4, 44100), 44100);
    let out = apply_transform(&cfg, &input).unwrap();
    assert_eq!(&out[..6], &[1000, 707, 0, 707, -1000, -23170]);
    for (y, x) in out.iter().zip(input.iter()) {
        assert!((*y as i32).abs() <= (*x as i32).abs());
    }
}

#[test]
fn every_transform_preserves_length() {
    let input: Vec<i16> = (0..1000).map(|i| (i * 37 % 2000 - 1000) as i16).collect();
    for name in ["tremolo", "delay", "none"] {
        let cfg = config(name, frac(2, 3), frac(1, 100), 44100);
        assert_eq!(apply_transform(&cfg, &input).unwrap().len(), input.len());
        assert_eq!(apply_transform(&cfg, &Vec::new()).unwrap(), Vec::<i16>::new());
    }
}

#[test]
fn invalid_parameters_are_reported() {
    let input: Vec<i16> = vec![1, 2, 3];
    let cases = [
        (config("none", frac(1, 0), frac(1, 10), 44100), Param::Amplitude, Reason::ZeroDenominator),
        (config("tremolo", frac(1, 2), frac(1, 10), 0), Param::SampleRate, Reason::NotPositive),
        (config("delay", frac(1, 2), frac(1, 0), 44100), Param::WavelengthSec, Reason::ZeroDenominator),
        (config("tremolo", frac(1, 2), frac(0, 10), 44100), Param::WavelengthSec, Reason::NotPositive),
        (config("delay", frac(1, 2), frac(-1, 10), 44100), Param::WavelengthSec, Reason::NotPositive),
        (config("delay", frac(1, 2), frac(1, 88200), 44100), Param::WavelengthSec, Reason::UnderOneSample),
    ];
    for (cfg, field, reason) in cases {
        assert_eq!(apply_transform(&cfg, &input), Err(TransformError::InvalidParameter(field, reason)));
    }
    // the tremolo has no offset, so a wavelength under one sample is fine
    let cfg = config("tremolo", frac(1, 2), frac(1, 88200), 44100);
    assert_eq!(check_config(TransformKind::Tremolo, &cfg), None);
    assert!(apply_transform(&cfg, &input).is_ok());
}

#[test]
fn delay_offset_rounds_down() {
    assert_eq!(delay_samples(frac(1, 22050), 44100), 2);
    assert_eq!(delay_samples(frac(1, 2), 44100), 22050);
    assert_eq!(delay_samples(frac(1, 3), 10), 3);
    assert_eq!(delay_samples(frac(1, 88200), 44100), 0);
}

#[test]
fn delay_direct_call_matches_dispatch() {
    let input: Vec<i16> = vec![100, 200, 300, 400, 500];
    assert_eq!(xform_delay(frac(1, 2), frac(1, 22050), 44100, &input), vec![100, 200, 300, 300, 400]);
}

#[test]
fn modulation_depths() {
    assert_eq!(modulation_at(0, 44100, 176400), MODULATION_ONE);
    assert_eq!(modulation_at(1, 44100, 176400), 759250124);
    assert_eq!(modulation_at(2, 44100, 176400), 0);
    assert_eq!(modulation_at(3, 44100, 176400), 759250124);
    assert_eq!(modulation_at(4, 44100, 176400), MODULATION_ONE);
    assert!(modulation_at(usize::MAX, u32::MAX, u64::MAX / 2) <= MODULATION_ONE);
}

#[test]
fn modulation_follows_cosine() {
    // wavelength of 1000 samples: depth of sample i is |cos(pi * i / 1000)|
    for i in [0usize, 1, 123, 250, 333, 499, 500, 501, 777, 999, 1000, 1234, 98765] {
        let depth = modulation_at(i, 1, 1000) as f64 / MODULATION_ONE as f64;
        let exact = (std::f64::consts::PI * i as f64 / 1000.0).cos().abs();
        assert!((depth - exact).abs() < 1e-8, "sample {}: {} vs {}", i, depth, exact);
    }
}

#[test]
fn tremolo_matches_float_formula() {
    let input: Vec<i16> = vec![1000, -1000, 1000, 2000, 30000, -30000, 12345, -4321];
    let wavelength_sec = 7.0 / 44100.0;
    let out = xform_tremolo(frac(1, 2), frac(7, 44100), 44100, &input);
    for (i, x) in input.iter().enumerate() {
        let x = *x as f64;
        let rad = i as f64 * std::f64::consts::PI / (wavelength_sec * 44100.0);
        let expected = (0.5 * x * rad.cos().abs() + 0.5 * x) as i16;
        assert_eq!(out[i], expected, "sample {}", i);
    }
}

#[test]
fn quantize_policy() {
    assert_eq!(quantize(7, 2), 3);
    assert_eq!(quantize(-7, 2), -3);
    assert_eq!(quantize(1_000_000, 1), 32767);
    assert_eq!(quantize(-1_000_000, 1), -32768);
    assert_eq!(quantize(-65536, 2), -32768);
}
