use cepstrum_extractor::cepstrum::{ceps_with_scratch, first_half};
use cepstrum_extractor::conversions::real_to_complex;
use cepstrum_extractor::num_complex::Complex;
use cepstrum_extractor::{CepstrumError, CepstrumExtractor, Nonlinearity};

fn noise(len: usize) -> Vec<f64> {
    let mut state: u64 = 0x2545_f491_4f6c_dd1d;
    (0..len)
        .map(|_| {
            state ^= state << 13;
            state ^= state >> 7;
            state ^= state << 17;
            (state >> 11) as f64 / (1u64 << 53) as f64 * 2.0 - 1.0
        })
        .collect()
}

fn with_echo(signal: &[f64], shift: usize) -> Vec<f64> {
    (0..signal.len()).map(|i| if i >= shift { signal[i] + signal[i - shift] } else { signal[i] }).collect()
}

fn wave(len: usize) -> Vec<Complex<f64>> {
    (0..len).map(|i| Complex::new(1.0 + (i as f64 * 0.7).sin(), 0.5 * (i as f64 * 1.3).cos())).collect()
}

fn close(a: Complex<f64>, b: Complex<f64>, tolerance: f64) -> bool {
    (a.re - b.re).abs() <= tolerance && (a.im - b.im).abs() <= tolerance
}

#[test]
fn new_extractor_has_one_instance() {
    let extractor: CepstrumExtractor<f64> = CepstrumExtractor::new(128);
    assert_eq!(extractor.len(), 128);
    assert_eq!(extractor.instance_count(), 1);
}

#[test]
fn extend_instances_grows_and_never_shrinks() {
    let mut extractor: CepstrumExtractor<f32> = CepstrumExtractor::new(10);
    extractor.extend_instances(5);
    assert_eq!(extractor.instance_count(), 5);
    extractor.extend_instances(2);
    assert_eq!(extractor.instance_count(), 5);
    extractor.extend_instances(5);
    assert_eq!(extractor.instance_count(), 5);
    extractor.extend_instances(0);
    assert_eq!(extractor.instance_count(), 5);
    assert_eq!(extractor.len(), 10);
}

#[test]
fn cepstrum_in_place_keeps_the_length() {
    for len in [1usize, 2, 7, 10, 128] {
        let mut extractor: CepstrumExtractor<f64> = CepstrumExtractor::new(len);
        let mut real = wave(len);
        assert_eq!(extractor.rceps_mut(&mut real), Ok(()));
        assert_eq!(real.len(), len);
        let mut complex = wave(len);
        assert_eq!(extractor.cceps_mut(&mut complex), Ok(()));
        assert_eq!(complex.len(), len);
    }
}

#[test]
fn cepstrum_to_vec_has_half_the_length() {
    for len in [1usize, 2, 7, 10, 128] {
        let mut extractor: CepstrumExtractor<f64> = CepstrumExtractor::new(len);
        extractor.extend_instances(2);
        let signal = wave(len);
        assert_eq!(extractor.rceps_to_vec(&signal).unwrap().len(), len / 2);
        assert_eq!(extractor.cceps_to_vec(&signal).unwrap().len(), len / 2);
        assert_eq!(extractor.rceps_with_instance_to_vec(&signal, 1).unwrap().len(), len / 2);
        assert_eq!(extractor.cceps_with_instance_to_vec(&signal, 1).unwrap().len(), len / 2);
        assert_eq!(signal, wave(len));
    }
}

#[test]
fn to_vec_is_the_first_half_of_in_place() {
    let mut extractor: CepstrumExtractor<f64> = CepstrumExtractor::new(10);
    let signal = wave(10);
    let mut real = signal.clone();
    extractor.rceps_mut(&mut real).unwrap();
    assert_eq!(extractor.rceps_to_vec(&signal).unwrap(), real[..5].to_vec());
    let mut complex = signal.clone();
    extractor.cceps_mut(&mut complex).unwrap();
    assert_eq!(extractor.cceps_to_vec(&signal).unwrap(), complex[..5].to_vec());
}

#[test]
fn real_cepstrum_of_zeros_is_zeros() {
    for len in [1usize, 2, 3, 10, 128, 131] {
        let mut extractor: CepstrumExtractor<f64> = CepstrumExtractor::new(len);
        let mut signal = vec![Complex::new(0.0, 0.0); len];
        assert_eq!(extractor.rceps_mut(&mut signal), Ok(()));
        assert_eq!(signal.len(), len);
        assert!(signal.iter().all(|x| x.re == 0.0 && x.im == 0.0));
    }
    let mut extractor: CepstrumExtractor<f32> = CepstrumExtractor::new(16);
    let zeros = vec![Complex::new(0.0f32, 0.0f32); 16];
    let cepstrum = extractor.rceps_to_vec(&zeros).unwrap();
    assert_eq!(cepstrum, vec![Complex::new(0.0f32, 0.0f32); 8]);
}

#[test]
fn real_cepstrum_of_two_samples() {
    let mut extractor: CepstrumExtractor<f64> = CepstrumExtractor::new(2);
    let mut signal = vec![Complex::new(3.0, 0.0), Complex::new(1.0, 0.0)];
    assert_eq!(extractor.rceps_mut(&mut signal), Ok(()));
    assert!(close(signal[0], Complex::new(8f64.ln(), 0.0), 1e-15));
    assert!(close(signal[1], Complex::new(2f64.ln(), 0.0), 1e-15));
}

#[test]
fn real_cepstrum_takes_the_log_of_the_magnitude() {
    let mut extractor: CepstrumExtractor<f64> = CepstrumExtractor::new(1);
    let mut signal = vec![Complex::new(3.0, -4.0)];
    assert_eq!(extractor.rceps_mut(&mut signal), Ok(()));
    assert!(close(signal[0], Complex::new(5f64.ln(), 0.0), 1e-15));
}

#[test]
fn complex_cepstrum_takes_the_principal_log() {
    let mut extractor: CepstrumExtractor<f64> = CepstrumExtractor::new(1);
    let mut signal = vec![Complex::new(-1.0, 0.0)];
    assert_eq!(extractor.cceps_mut(&mut signal), Ok(()));
    assert!(close(signal[0], Complex::new(0.0, std::f64::consts::PI), 1e-15));

    let mut signal = vec![Complex::new(3.0, -4.0)];
    assert_eq!(extractor.cceps_mut(&mut signal), Ok(()));
    assert!(close(signal[0], Complex::new(5f64.ln(), (-4f64).atan2(3.0)), 1e-15));
}

#[test]
fn zero_real_part_bypasses_the_logarithm() {
    let mut extractor: CepstrumExtractor<f64> = CepstrumExtractor::new(1);

    let mut real = vec![Complex::new(0.0, 2.0)];
    assert_eq!(extractor.rceps_mut(&mut real), Ok(()));
    assert_eq!(real, vec![Complex::new(0.0, 0.0)]);

    let mut complex = vec![Complex::new(0.0, 2.0)];
    assert_eq!(extractor.cceps_mut(&mut complex), Ok(()));
    assert_eq!(complex, vec![Complex::new(0.0, 2.0)]);

    let mut negative_zero = vec![Complex::new(-0.0, 2.0)];
    assert_eq!(extractor.cceps_mut(&mut negative_zero), Ok(()));
    assert_eq!(negative_zero[0].im, 2.0);
    assert_eq!(negative_zero[0].re, 0.0);
}

#[test]
fn real_and_complex_cepstrum_differ_on_nonzero_phase() {
    let mut extractor: CepstrumExtractor<f64> = CepstrumExtractor::new(8);
    let signal = wave(8);
    let mut real = signal.clone();
    extractor.rceps_mut(&mut real).unwrap();
    let mut complex = signal.clone();
    extractor.cceps_mut(&mut complex).unwrap();
    assert_ne!(real, complex);
    assert!(real.iter().zip(complex.iter()).any(|(r, c)| !close(*r, *c, 1e-6)));
}

#[test]
fn kind_selects_the_pipeline() {
    let mut extractor: CepstrumExtractor<f64> = CepstrumExtractor::new(8);
    let signal = wave(8);

    let mut by_kind = signal.clone();
    extractor._ceps_with_instance_mut(&mut by_kind, Nonlinearity::RealLogMagnitude, 0).unwrap();
    let mut by_name = signal.clone();
    extractor.rceps_with_instance_mut(&mut by_name, 0).unwrap();
    assert_eq!(by_kind, by_name);

    let mut by_kind = signal.clone();
    extractor._ceps_with_instance_mut(&mut by_kind, Nonlinearity::ComplexPrincipalLog, 0).unwrap();
    let mut by_name = signal.clone();
    extractor.cceps_with_instance_mut(&mut by_name, 0).unwrap();
    assert_eq!(by_kind, by_name);
}

#[test]
fn instance_out_of_range_is_rejected_and_nothing_is_written() {
    let mut extractor: CepstrumExtractor<f64> = CepstrumExtractor::new(8);
    extractor.extend_instances(3);
    let signal = wave(8);
    for instance in [3usize, 4, usize::MAX] {
        let mut buffer = signal.clone();
        assert_eq!(extractor.rceps_with_instance_mut(&mut buffer, instance), Err(CepstrumError::IndexOutOfRange));
        assert_eq!(buffer, signal);
        assert_eq!(extractor.cceps_with_instance_mut(&mut buffer, instance), Err(CepstrumError::IndexOutOfRange));
        assert_eq!(buffer, signal);
        assert_eq!(
            extractor._ceps_with_instance_mut(&mut buffer, Nonlinearity::RealLogMagnitude, instance),
            Err(CepstrumError::IndexOutOfRange)
        );
        assert_eq!(buffer, signal);
        assert_eq!(
            extractor.rceps_with_instance_to_vec(&signal, instance),
            Err(CepstrumError::IndexOutOfRange)
        );
        assert_eq!(
            extractor.cceps_with_instance_to_vec(&signal, instance),
            Err(CepstrumError::IndexOutOfRange)
        );
    }
    let mut buffer = signal.clone();
    assert_eq!(extractor.rceps_with_instance_mut(&mut buffer, 2), Ok(()));
}

#[test]
fn wrong_length_is_rejected_and_nothing_is_written() {
    let mut extractor: CepstrumExtractor<f64> = CepstrumExtractor::new(8);
    for len in [0usize, 1, 7, 9, 16] {
        let signal = wave(len);
        let mut buffer = signal.clone();
        assert_eq!(extractor.rceps_mut(&mut buffer), Err(CepstrumError::LengthMismatch));
        assert_eq!(buffer, signal);
        assert_eq!(extractor.cceps_mut(&mut buffer), Err(CepstrumError::LengthMismatch));
        assert_eq!(buffer, signal);
        assert_eq!(extractor.rceps_with_instance_mut(&mut buffer, 0), Err(CepstrumError::LengthMismatch));
        assert_eq!(buffer, signal);
        assert_eq!(extractor.cceps_with_instance_mut(&mut buffer, 0), Err(CepstrumError::LengthMismatch));
        assert_eq!(buffer, signal);
        assert_eq!(extractor.rceps_to_vec(&signal), Err(CepstrumError::LengthMismatch));
        assert_eq!(extractor.cceps_to_vec(&signal), Err(CepstrumError::LengthMismatch));
        assert_eq!(extractor.rceps_with_instance_to_vec(&signal, 0), Err(CepstrumError::LengthMismatch));
        assert_eq!(extractor.cceps_with_instance_to_vec(&signal, 0), Err(CepstrumError::LengthMismatch));
    }
}

#[test]
fn out_of_range_instance_wins_over_wrong_length() {
    let mut extractor: CepstrumExtractor<f64> = CepstrumExtractor::new(4);
    let signal = wave(3);
    let mut buffer = signal.clone();
    assert_eq!(extractor.rceps_with_instance_mut(&mut buffer, 1), Err(CepstrumError::IndexOutOfRange));
    assert_eq!(buffer, signal);
    assert_eq!(extractor.cceps_with_instance_to_vec(&signal, 1), Err(CepstrumError::IndexOutOfRange));
}

#[test]
fn set_len_changes_the_accepted_length() {
    let mut extractor: CepstrumExtractor<f64> = CepstrumExtractor::new(8);
    extractor.extend_instances(2);
    extractor.set_len(8);
    assert_eq!(extractor.len(), 8);
    extractor.set_len(12);
    assert_eq!(extractor.len(), 12);
    assert_eq!(extractor.instance_count(), 2);
    assert_eq!(extractor.rceps_to_vec(&wave(8)), Err(CepstrumError::LengthMismatch));
    let resized = extractor.rceps_with_instance_to_vec(&wave(12), 1).unwrap();
    let mut fresh: CepstrumExtractor<f64> = CepstrumExtractor::new(12);
    assert_eq!(resized, fresh.rceps_to_vec(&wave(12)).unwrap());
}

#[test]
fn every_instance_gives_the_result_of_a_single_instance_extractor() {
    const INSTANCES: usize = 5;
    const WIN_LEN: usize = 128;
    let signal = real_to_complex(&with_echo(&noise(WIN_LEN * INSTANCES * 2), 20));

    let mut shared: CepstrumExtractor<f64> = CepstrumExtractor::new(WIN_LEN);
    shared.extend_instances(INSTANCES);
    let mut single: CepstrumExtractor<f64> = CepstrumExtractor::new(WIN_LEN);

    for (i, chunk) in signal.chunks_exact(WIN_LEN).enumerate() {
        let instance = i % INSTANCES;
        let real = shared.rceps_with_instance_to_vec(chunk, instance).unwrap();
        assert_eq!(real, single.rceps_to_vec(chunk).unwrap());
        let complex = shared.cceps_with_instance_to_vec(chunk, instance).unwrap();
        assert_eq!(complex, single.cceps_to_vec(chunk).unwrap());
    }
}

#[test]
fn echo_shows_as_a_peak_at_its_delay() {
    const SHIFT: usize = 20;
    const WIN_LEN: usize = 128;
    const WIN_START: usize = 1000;
    let signal = with_echo(&noise(WIN_START + WIN_LEN), SHIFT);

    let mut extractor: CepstrumExtractor<f64> = CepstrumExtractor::new(WIN_LEN);
    let mut cepstrum = real_to_complex(&signal[WIN_START..WIN_START + WIN_LEN]);
    assert_eq!(extractor.rceps_mut(&mut cepstrum), Ok(()));

    let peak = (1..WIN_LEN / 2)
        .max_by(|a, b| cepstrum[*a].re.partial_cmp(&cepstrum[*b].re).unwrap())
        .unwrap();
    assert_eq!(peak, SHIFT);
    assert!(cepstrum[SHIFT].re > 15.0);
}

#[test]
fn first_half_keeps_the_first_samples() {
    let samples: Vec<Complex<f64>> = (0..5).map(|i| Complex::new(i as f64, -(i as f64))).collect();
    assert_eq!(first_half(samples.clone()), samples[..2].to_vec());
    assert_eq!(first_half(samples[..4].to_vec()), samples[..2].to_vec());
    assert_eq!(first_half(samples[..1].to_vec()), Vec::new());
    assert_eq!(first_half(Vec::<Complex<f64>>::new()), Vec::new());
}

#[test]
fn to_vec_is_the_first_half_for_every_instance_and_kind() {
    let mut extractor: CepstrumExtractor<f64> = CepstrumExtractor::new(9);
    extractor.extend_instances(2);
    let signal = wave(9);
    let mut real = signal.clone();
    extractor.rceps_with_instance_mut(&mut real, 1).unwrap();
    assert_eq!(extractor.rceps_with_instance_to_vec(&signal, 1).unwrap(), first_half(real));
    let mut complex = signal.clone();
    extractor.cceps_with_instance_mut(&mut complex, 1).unwrap();
    assert_eq!(extractor.cceps_with_instance_to_vec(&signal, 1).unwrap(), first_half(complex));
}

#[test]
fn pipeline_over_a_plan_and_a_scratch_buffer() {
    let mut extractor: CepstrumExtractor<f64> = CepstrumExtractor::new(12);
    let signal = wave(12);
    let zero = extractor.zero_sample();
    assert_eq!(zero, Complex::new(0.0, 0.0));
    assert_eq!(extractor.plan().len(), 12);

    for kind in [Nonlinearity::RealLogMagnitude, Nonlinearity::ComplexPrincipalLog] {
        let mut expected = signal.clone();
        extractor._ceps_with_instance_mut(&mut expected, kind, 0).unwrap();

        let mut scratch = vec![Complex::new(7.0, -7.0); extractor.plan().required_scratch_len() + 3];
        let mut with_scratch = signal.clone();
        assert_eq!(ceps_with_scratch(extractor.plan(), kind, &zero, &mut with_scratch, &mut scratch), Ok(()));
        assert_eq!(with_scratch, expected);
        assert_eq!(scratch.len(), extractor.plan().required_scratch_len() + 3);
    }
}

#[test]
fn pipeline_over_a_scratch_buffer_refuses_a_wrong_length() {
    let extractor: CepstrumExtractor<f64> = CepstrumExtractor::new(12);
    let zero = extractor.zero_sample();
    let fill = Complex::new(7.0, -7.0);
    for len in [0usize, 11, 13, 24] {
        let signal = wave(len);
        let mut buffer = signal.clone();
        let mut scratch = vec![fill; extractor.plan().required_scratch_len()];
        assert_eq!(
            ceps_with_scratch(extractor.plan(), Nonlinearity::RealLogMagnitude, &zero, &mut buffer, &mut scratch),
            Err(CepstrumError::LengthMismatch)
        );
        assert_eq!(buffer, signal);
        assert!(scratch.iter().all(|x| *x == fill));
    }
}

#[test]
fn check_reports_what_the_operations_report() {
    let mut extractor: CepstrumExtractor<f64> = CepstrumExtractor::new(4);
    extractor.extend_instances(2);
    assert_eq!(extractor.check(4, 0), Ok(()));
    assert_eq!(extractor.check(4, 1), Ok(()));
    assert_eq!(extractor.check(4, 2), Err(CepstrumError::IndexOutOfRange));
    assert_eq!(extractor.check(3, 1), Err(CepstrumError::LengthMismatch));
    assert_eq!(extractor.check(3, 2), Err(CepstrumError::IndexOutOfRange));
}
