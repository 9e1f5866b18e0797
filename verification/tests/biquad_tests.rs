use biquad::{Biquad, Coefficients, DirectForm1, DirectForm2Transposed, Errors, Hertz, Type,
    Q_BUTTERWORTH};

fn bits(x: f32) -> u32 {
    x.to_bits()
}

fn val(b: u32) -> f32 {
    f32::from_bits(b)
}

fn close(a: f32, b: f32) -> bool {
    (a - b).abs() <= 1e-4 * b.abs().max(1e-3)
}

#[test]
fn test_frequency() {
    let f1 = Hertz::hz(bits(10.0));
    let f2 = Hertz::khz(bits(10.0));
    let f3 = Hertz::mhz(bits(10.0));
    let f4 = Hertz::dt(bits(10.0));

    assert_eq!(f1, Hertz::from_hz(bits(10.0)).unwrap());
    assert_eq!(f2, Hertz::from_hz(bits(10000.0)).unwrap());
    assert_eq!(f3, Hertz::from_hz(bits(10000000.0)).unwrap());
    assert_eq!(f4, Hertz::from_hz(bits(0.1)).unwrap());

    assert!(f1 < f2);
    assert!(f3 > f2);
    assert!(f1 == f1);
    assert!(f1 != f2);
}

#[test]
fn test_hertz_from() {
    assert_eq!(
        Hertz::from_dt(bits(1.0)).unwrap(),
        Hertz::from_hz(bits(1.0)).unwrap()
    );
}

#[test]
fn test_coefficients_normal() {
    let f0 = Hertz::hz(bits(10.0));
    let fs = Hertz::khz(bits(1.0));

    let coeffs = Coefficients::from_params(Type::LowPass, fs, f0, Q_BUTTERWORTH);

    match coeffs {
        Ok(_) => {}
        Err(_) => {
            panic!("Coefficients creation failed!");
        }
    }
}

#[test]
fn test_coefficients_fail_flipped_frequencies() {
    let f0 = Hertz::hz(bits(10.0));
    let fs = Hertz::khz(bits(1.0));

    let coeffs = Coefficients::from_params(Type::LowPass, f0, fs, Q_BUTTERWORTH);

    match coeffs {
        Ok(_) => {
            panic!("Should not come here");
        }
        Err(e) => {
            assert_eq!(e, Errors::OutsideNyquist);
        }
    }
}

#[test]
fn test_coefficients_fail_negative_q() {
    let f0 = Hertz::hz(bits(10.0));
    let fs = Hertz::khz(bits(1.0));

    let coeffs = Coefficients::from_params(Type::LowPass, fs, f0, bits(-1.0));

    match coeffs {
        Ok(_) => {
            panic!("Should not come here");
        }
        Err(e) => {
            assert_eq!(e, Errors::NegativeQ);
        }
    }
}

#[test]
fn test_biquad_zeros() {
    let f0 = Hertz::hz(bits(10.0));
    let fs = Hertz::khz(bits(1.0));

    let coeffs = Coefficients::from_params(Type::LowPass, fs, f0, Q_BUTTERWORTH).unwrap();

    let mut biquad1 = DirectForm1::new(coeffs);
    let mut biquad2 = DirectForm2Transposed::new(coeffs);

    let input_vec = vec![0.0f32, 0.0, 0.0, 0.0, 0.0, 0.0, 0.0, 0.0, 0.0];
    let mut output_vec1 = Vec::new();
    let mut output_vec2 = Vec::new();

    for elem in input_vec {
        output_vec1.push(biquad1.run(bits(elem)));
        output_vec2.push(biquad2.run(bits(elem)));
    }
}

#[test]
fn from_hz_accepts_every_non_negative_magnitude() {
    for v in [0.0f32, 1.0, 0.5, 10.0, 48000.0, 3.4e38] {
        let h = Hertz::from_hz(bits(v)).unwrap();
        assert_eq!(val(h.to_bits()), v);
    }
    for v in [-0.5f32, -1.0, -10.0, -3.4e38] {
        assert_eq!(Hertz::from_hz(bits(v)), Err(Errors::NegativeFrequency));
    }
}

#[test]
fn from_dt_of_zero_period_is_infinite() {
    let h = Hertz::from_dt(bits(0.0)).unwrap();
    assert!(val(h.to_bits()).is_infinite());
    assert_eq!(Hertz::from_dt(bits(-1.0)), Err(Errors::NegativeFrequency));
}

#[test]
fn frequency_order_follows_magnitude() {
    let z1 = Hertz::from_hz(bits(0.0)).unwrap();
    let z2 = Hertz::from_hz(bits(-0.0)).unwrap();
    assert!(z1 == z2);
    assert!(Hertz::hz(bits(1.0)) < Hertz::hz(bits(2.0)));
    assert!(!(Hertz::hz(bits(2.0)) < Hertz::hz(bits(2.0))));
    assert!(Hertz::khz(bits(1.0)) == Hertz::hz(bits(1000.0)));
    assert!(Hertz::mhz(bits(1.0)) == Hertz::hz(bits(1000000.0)));
}

#[test]
fn butterworth_q_is_inverse_root_two() {
    assert_eq!(Q_BUTTERWORTH, core::f32::consts::FRAC_1_SQRT_2.to_bits());
}

#[test]
fn every_type_succeeds_below_nyquist() {
    let f0 = Hertz::hz(bits(10.0));
    let fs = Hertz::khz(bits(1.0));
    let g = bits(6.0);
    let types = [
        Type::LowPass,
        Type::HighPass,
        Type::BandPass,
        Type::Notch,
        Type::AllPass,
        Type::LowShelf(g),
        Type::HighShelf(g),
        Type::PeakingEQ(g),
    ];
    for t in types {
        assert!(Coefficients::from_params(t, fs, f0, Q_BUTTERWORTH).is_ok());
    }
    for t in types {
        assert_eq!(
            Coefficients::from_params(t, f0, fs, Q_BUTTERWORTH),
            Err(Errors::OutsideNyquist)
        );
        assert_eq!(
            Coefficients::from_params(t, fs, f0, bits(0.0)),
            Err(Errors::NegativeQ)
        );
    }
}

#[test]
fn lowpass_matches_reference_formulas() {
    let fs = 1000.0f32;
    let f0 = 10.0f32;
    let q = core::f32::consts::FRAC_1_SQRT_2;
    let w0 = 2.0 * core::f32::consts::PI * f0 / fs;
    let s = w0.sin();
    let c = w0.cos();
    let alpha = s / (2.0 * q);
    let b1 = 1.0 - c;
    let b0 = b1 / 2.0;
    let a0 = 1.0 + alpha;

    let got = Coefficients::from_params(
        Type::LowPass,
        Hertz::hz(bits(fs)),
        Hertz::hz(bits(f0)),
        bits(q),
    )
    .unwrap();

    assert!(close(val(got.b0), b0 / a0));
    assert!(close(val(got.b1), b1 / a0));
    assert!(close(val(got.b2), b0 / a0));
    assert!(close(val(got.a1), -2.0 * c / a0));
    assert!(close(val(got.a2), (1.0 - alpha) / a0));
}

#[test]
fn bandpass_matches_reference_formulas() {
    let fs = 48000.0f32;
    let f0 = 1000.0f32;
    let q = 2.0f32;
    let w0 = 2.0 * core::f32::consts::PI * f0 / fs;
    let s = w0.sin();
    let c = w0.cos();
    let alpha = s / (2.0 * q);
    let a0 = 1.0 + alpha;

    let got = Coefficients::from_params(
        Type::BandPass,
        Hertz::hz(bits(fs)),
        Hertz::hz(bits(f0)),
        bits(q),
    )
    .unwrap();

    assert!(close(val(got.b0), (s / 2.0) / a0));
    assert_eq!(val(got.b1), 0.0);
    assert!(close(val(got.b2), -(s / 2.0) / a0));
    assert!(close(val(got.a1), -2.0 * c / a0));
    assert!(close(val(got.a2), (1.0 - alpha) / a0));
}

#[test]
fn highshelf_matches_reference_formulas() {
    let fs = 48000.0f32;
    let f0 = 8000.0f32;
    let q = 1.0f32;
    let gain_db = 6.0f32;
    let w0 = 2.0 * core::f32::consts::PI * f0 / fs;
    let s = w0.sin();
    let c = w0.cos();
    let alpha = s / (2.0 * q);
    let a = 10.0f32.powf(gain_db / 40.0);
    let saa = 2.0 * a.sqrt() * alpha;
    let b0 = a * ((a + 1.0) + (a - 1.0) * c + saa);
    let b1 = -2.0 * a * ((a - 1.0) + (a + 1.0) * c);
    let b2 = a * ((a + 1.0) + (a - 1.0) * c - saa);
    let a0 = (a + 1.0) - (a - 1.0) * c + saa;
    let a1 = 2.0 * ((a - 1.0) - (a + 1.0) * c);
    let a2 = (a + 1.0) - (a - 1.0) * c - saa;

    let got = Coefficients::from_params(
        Type::HighShelf(bits(gain_db)),
        Hertz::hz(bits(fs)),
        Hertz::hz(bits(f0)),
        bits(q),
    )
    .unwrap();

    assert!(close(val(got.b0), b0 / a0));
    assert!(close(val(got.b1), b1 / a0));
    assert!(close(val(got.b2), b2 / a0));
    assert!(close(val(got.a1), a1 / a0));
    assert!(close(val(got.a2), a2 / a0));
}

#[test]
fn lowpass_near_nyquist_matches_reference_formulas() {
    let fs = 48000.0f32;
    let f0 = 20000.0f32;
    let q = core::f32::consts::FRAC_1_SQRT_2;
    let w0 = 2.0 * core::f32::consts::PI * f0 / fs;
    let s = w0.sin();
    let c = w0.cos();
    let alpha = s / (2.0 * q);
    let b1 = 1.0 - c;
    let b0 = b1 / 2.0;
    let a0 = 1.0 + alpha;

    let got = Coefficients::from_params(
        Type::LowPass,
        Hertz::hz(bits(fs)),
        Hertz::hz(bits(f0)),
        bits(q),
    )
    .unwrap();

    assert!(close(val(got.b0), b0 / a0));
    assert!(close(val(got.b1), b1 / a0));
    assert!(close(val(got.a1), -2.0 * c / a0));
    assert!(close(val(got.a2), (1.0 - alpha) / a0));
}

#[test]
fn lowshelf_with_cut_matches_reference_formulas() {
    let fs = 48000.0f32;
    let f0 = 200.0f32;
    let q = 0.9f32;
    let gain_db = -6.0f32;
    let w0 = 2.0 * core::f32::consts::PI * f0 / fs;
    let s = w0.sin();
    let c = w0.cos();
    let alpha = s / (2.0 * q);
    let a = 10.0f32.powf(gain_db / 40.0);
    let saa = 2.0 * a.sqrt() * alpha;
    let b0 = a * ((a + 1.0) - (a - 1.0) * c + saa);
    let b1 = 2.0 * a * ((a - 1.0) - (a + 1.0) * c);
    let b2 = a * ((a + 1.0) - (a - 1.0) * c - saa);
    let a0 = (a + 1.0) + (a - 1.0) * c + saa;
    let a1 = -2.0 * ((a - 1.0) + (a + 1.0) * c);
    let a2 = (a + 1.0) + (a - 1.0) * c - saa;

    let got = Coefficients::from_params(
        Type::LowShelf(bits(gain_db)),
        Hertz::hz(bits(fs)),
        Hertz::hz(bits(f0)),
        bits(q),
    )
    .unwrap();

    assert!(close(val(got.b0), b0 / a0));
    assert!(close(val(got.b1), b1 / a0));
    assert!(close(val(got.b2), b2 / a0));
    assert!(close(val(got.a1), a1 / a0));
    assert!(close(val(got.a2), a2 / a0));
}

#[test]
fn peaking_at_zero_gain_is_identity() {
    let got = Coefficients::from_params(
        Type::PeakingEQ(bits(0.0)),
        Hertz::khz(bits(1.0)),
        Hertz::hz(bits(100.0)),
        Q_BUTTERWORTH,
    )
    .unwrap();
    assert_eq!(val(got.b0), 1.0);
    assert_eq!(got.b1, got.a1);
    assert_eq!(got.b2, got.a2);
}

#[test]
fn zero_input_produces_zero_output() {
    let coeffs = Coefficients::from_params(
        Type::HighPass,
        Hertz::khz(bits(1.0)),
        Hertz::hz(bits(10.0)),
        Q_BUTTERWORTH,
    )
    .unwrap();
    let mut d1 = DirectForm1::new(coeffs);
    let mut d2 = DirectForm2Transposed::new(coeffs);
    for _ in 0..20 {
        assert_eq!(val(d1.run(bits(0.0))), 0.0);
        assert_eq!(val(d2.run(bits(0.0))), 0.0);
    }
}

#[test]
fn zero_input_response_is_all_zero() {
    let coeffs = Coefficients::from_params(
        Type::AllPass,
        Hertz::khz(bits(8.0)),
        Hertz::hz(bits(440.0)),
        bits(1.5),
    )
    .unwrap();
    let mut d1 = DirectForm1::new(coeffs);
    let mut d2 = DirectForm2Transposed::new(coeffs);
    for outs in [
        biquad::zero_input_response(&mut d1, 16),
        biquad::zero_input_response(&mut d2, 16),
    ] {
        assert_eq!(outs.len(), 16);
        for o in outs {
            assert_eq!(val(o), 0.0);
        }
    }
}

#[test]
fn realizations_agree_within_rounding() {
    let coeffs = Coefficients::from_params(
        Type::LowPass,
        Hertz::khz(bits(1.0)),
        Hertz::hz(bits(50.0)),
        Q_BUTTERWORTH,
    )
    .unwrap();
    let mut d1 = DirectForm1::new(coeffs);
    let mut d2 = DirectForm2Transposed::new(coeffs);
    let inputs = [0.5f32, -0.3, 1.0, 0.0, 0.25, -1.0, 0.7, 0.1, 0.1, 0.1];
    let mut first = true;
    for x in inputs {
        let o1 = val(d1.run(bits(x)));
        let o2 = val(d2.run(bits(x)));
        if first {
            assert_eq!(o1, o2);
            first = false;
        }
        assert!((o1 - o2).abs() <= 1e-5);
    }
}

#[test]
fn retuning_keeps_delay_memory() {
    let c1 = Coefficients::from_params(
        Type::LowPass,
        Hertz::khz(bits(1.0)),
        Hertz::hz(bits(50.0)),
        Q_BUTTERWORTH,
    )
    .unwrap();
    let c2 = Coefficients::from_params(
        Type::HighPass,
        Hertz::khz(bits(1.0)),
        Hertz::hz(bits(200.0)),
        bits(2.0),
    )
    .unwrap();

    let mut d1 = DirectForm1::new(c1);
    d1.run(bits(1.0));
    d1.update_coefficients(c2);
    let after = val(d1.run(bits(0.0)));
    assert!(after != 0.0);

    let mut d2 = DirectForm2Transposed::new(c1);
    d2.run(bits(1.0));
    d2.update_coefficients(c2);
    let after2 = val(d2.run(bits(0.0)));
    assert!(after2 != 0.0);
}

fn feed<B: Biquad>(b: &mut B, xs: &[f32]) -> f32 {
    let mut last = 0.0f32;
    for x in xs {
        last = f32::from_bits(b.run(x.to_bits()));
    }
    last
}

#[test]
fn realizations_are_interchangeable_through_the_trait() {
    let coeffs = Coefficients::from_params(
        Type::Notch,
        Hertz::khz(bits(1.0)),
        Hertz::hz(bits(60.0)),
        bits(4.0),
    )
    .unwrap();
    let xs = [1.0f32, 0.5, -0.5, 0.0];
    let y1 = feed(&mut DirectForm1::new(coeffs), &xs);
    let y2 = feed(&mut DirectForm2Transposed::new(coeffs), &xs);
    assert!((y1 - y2).abs() <= 1e-5);
}
