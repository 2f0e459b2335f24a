use cepstrum_extractor::fft::CepFft;
use cepstrum_extractor::num_complex::Complex;
use cepstrum_extractor::plan::TransformPlan;
use cepstrum_extractor::CepstrumError;

const LEN: usize = 10;

fn ramp(len: usize) -> Vec<Complex<f64>> {
    (0..len).map(|i| Complex::new(1.5 + i as f64, 0.25 * i as f64 - 2.0)).collect()
}

fn close(a: Complex<f64>, b: Complex<f64>, tolerance: f64) -> bool {
    (a.re - b.re).abs() <= tolerance && (a.im - b.im).abs() <= tolerance
}

#[test]
fn check_scratches() {
    let mut inst: CepFft<f32> = CepFft::new(LEN);

    assert_eq!(inst.instance_count(), 1);

    inst.extend_scratches(10);

    assert_eq!(inst.instance_count(), 10);

    inst.extend_scratches(9);

    assert_eq!(inst.instance_count(), 10);

    assert!((0..inst.instance_count())
        .all(|i| inst.scratch_buffer_len(i) == Ok(inst.scratch_len()) && inst.scratch_buffer_len(i) == Ok(LEN)));

    inst.set_len(LEN * 2);

    assert!((0..inst.instance_count())
        .all(|i| inst.scratch_buffer_len(i) == Ok(inst.scratch_len()) && inst.scratch_buffer_len(i) == Ok(LEN * 2)));
}

#[test]
fn new_engine_has_one_instance() {
    let inst: CepFft<f64> = CepFft::new(128);
    assert_eq!(inst.len(), 128);
    assert_eq!(inst.instance_count(), 1);
    assert_eq!(inst.scratch_buffer_len(0), Ok(inst.scratch_len()));
    assert_eq!(inst.scratch_buffer_len(1), Err(CepstrumError::IndexOutOfRange));
    assert_eq!(inst.zero_sample(), Complex::new(0.0, 0.0));
}

#[test]
fn growth_never_shrinks() {
    let mut inst: CepFft<f64> = CepFft::new(8);
    inst.extend_scratches(0);
    assert_eq!(inst.instance_count(), 1);
    inst.extend_scratches(1);
    assert_eq!(inst.instance_count(), 1);
    inst.extend_scratches(7);
    assert_eq!(inst.instance_count(), 7);
    inst.extend_scratches(7);
    assert_eq!(inst.instance_count(), 7);
    inst.extend_scratches(3);
    assert_eq!(inst.instance_count(), 7);
    inst.extend_scratches(8);
    assert_eq!(inst.instance_count(), 8);
    assert!((0..8).all(|i| inst.scratch_buffer_len(i) == Ok(inst.scratch_len())));
}

#[test]
fn plan_reports_its_length_and_scratch() {
    for len in [1usize, 2, 3, 10, 128, 131] {
        let plan: TransformPlan<f64> = TransformPlan::construct(len);
        assert_eq!(plan.len(), len);
        let mut buffer = ramp(len);
        let mut scratch = vec![Complex::new(0.0, 0.0); plan.required_scratch_len()];
        plan.apply_forward(&mut buffer, &mut scratch);
        plan.apply_inverse(&mut buffer, &mut scratch);
        assert_eq!(buffer.len(), len);
        assert_eq!(scratch.len(), plan.required_scratch_len());
    }
}

#[test]
fn forward_of_an_impulse_is_flat() {
    let mut inst: CepFft<f64> = CepFft::new(8);
    let mut buffer = vec![Complex::new(0.0, 0.0); 8];
    buffer[0] = Complex::new(1.0, 0.0);
    assert_eq!(inst.do_fft(&mut buffer, 0), Ok(()));
    assert!(buffer.iter().all(|x| *x == Complex::new(1.0, 0.0)));
}

#[test]
fn forward_of_a_constant_is_an_impulse() {
    let mut inst: CepFft<f64> = CepFft::new(4);
    let mut buffer = vec![Complex::new(2.0, 0.0); 4];
    assert_eq!(inst.do_fft(&mut buffer, 0), Ok(()));
    assert_eq!(buffer[0], Complex::new(8.0, 0.0));
    assert!(buffer[1..].iter().all(|x| *x == Complex::new(0.0, 0.0)));
}

#[test]
fn inverse_differs_from_forward() {
    let mut inst: CepFft<f64> = CepFft::new(4);
    let mut forward = vec![Complex::new(0.0, 0.0); 4];
    forward[1] = Complex::new(1.0, 0.0);
    let mut inverse = forward.clone();
    assert_eq!(inst.do_fft(&mut forward, 0), Ok(()));
    assert_eq!(inst.do_ifft(&mut inverse, 0), Ok(()));
    assert!(close(forward[1], Complex::new(0.0, -1.0), 1e-15));
    assert!(close(inverse[1], Complex::new(0.0, 1.0), 1e-15));
}

#[test]
fn forward_then_inverse_scales_by_the_length() {
    for len in [1usize, 2, 3, 5, 8, 10, 17, 64, 128, 131] {
        let mut inst: CepFft<f64> = CepFft::new(len);
        let signal = ramp(len);
        let mut buffer = signal.clone();
        assert_eq!(inst.do_fft(&mut buffer, 0), Ok(()));
        assert_eq!(inst.do_ifft(&mut buffer, 0), Ok(()));
        assert_eq!(buffer.len(), len);
        for (got, sample) in buffer.iter().zip(signal.iter()) {
            assert!(close(*got, *sample * len as f64, 1e-9 * len as f64));
        }
    }
}

#[test]
fn transform_rejects_an_instance_out_of_range() {
    let mut inst: CepFft<f64> = CepFft::new(4);
    inst.extend_scratches(2);
    let signal = ramp(4);
    let mut buffer = signal.clone();
    assert_eq!(inst.do_fft(&mut buffer, 2), Err(CepstrumError::IndexOutOfRange));
    assert_eq!(buffer, signal);
    assert_eq!(inst.do_ifft(&mut buffer, usize::MAX), Err(CepstrumError::IndexOutOfRange));
    assert_eq!(buffer, signal);
    assert_eq!(inst.do_fft(&mut buffer, 1), Ok(()));
}

#[test]
fn transform_rejects_a_wrong_length() {
    let mut inst: CepFft<f64> = CepFft::new(4);
    for len in [0usize, 3, 5, 8] {
        let signal = ramp(len);
        let mut buffer = signal.clone();
        assert_eq!(inst.do_fft(&mut buffer, 0), Err(CepstrumError::LengthMismatch));
        assert_eq!(buffer, signal);
        assert_eq!(inst.do_ifft(&mut buffer, 0), Err(CepstrumError::LengthMismatch));
        assert_eq!(buffer, signal);
    }
}

#[test]
fn instance_is_checked_before_length() {
    let mut inst: CepFft<f64> = CepFft::new(4);
    let signal = ramp(3);
    let mut buffer = signal.clone();
    assert_eq!(inst.do_fft(&mut buffer, 1), Err(CepstrumError::IndexOutOfRange));
    assert_eq!(buffer, signal);
    assert_eq!(inst.check(3, 1), Err(CepstrumError::IndexOutOfRange));
    assert_eq!(inst.check(3, 0), Err(CepstrumError::LengthMismatch));
    assert_eq!(inst.check(4, 1), Err(CepstrumError::IndexOutOfRange));
    assert_eq!(inst.check(4, 0), Ok(()));
}

#[test]
fn set_len_to_the_same_length_changes_nothing() {
    let mut inst: CepFft<f64> = CepFft::new(16);
    inst.extend_scratches(3);
    let scratch_len = inst.scratch_len();
    inst.set_len(16);
    assert_eq!(inst.len(), 16);
    assert_eq!(inst.instance_count(), 3);
    assert_eq!(inst.scratch_len(), scratch_len);
}

#[test]
fn set_len_replans_and_resizes() {
    let mut inst: CepFft<f64> = CepFft::new(16);
    inst.extend_scratches(3);
    inst.set_len(6);
    assert_eq!(inst.len(), 6);
    assert_eq!(inst.instance_count(), 3);
    let fresh: CepFft<f64> = CepFft::new(6);
    assert_eq!(inst.scratch_len(), fresh.scratch_len());
    assert!((0..3).all(|i| inst.scratch_buffer_len(i) == Ok(inst.scratch_len())));

    let mut old_size = ramp(16);
    assert_eq!(inst.do_fft(&mut old_size, 0), Err(CepstrumError::LengthMismatch));
    let mut impulse = vec![Complex::new(0.0, 0.0); 6];
    impulse[0] = Complex::new(1.0, 0.0);
    assert_eq!(inst.do_fft(&mut impulse, 2), Ok(()));
    assert!(impulse.iter().all(|x| close(*x, Complex::new(1.0, 0.0), 1e-15)));

    inst.set_len(131);
    assert_eq!(inst.len(), 131);
    assert!((0..3).all(|i| inst.scratch_buffer_len(i) == Ok(inst.scratch_len())));
    let mut long = ramp(131);
    assert_eq!(inst.do_fft(&mut long, 1), Ok(()));
}

#[test]
fn single_precision_round_trip() {
    let mut inst: CepFft<f32> = CepFft::new(8);
    let signal: Vec<Complex<f32>> = (0..8).map(|i| Complex::new(i as f32, 1.0)).collect();
    let mut buffer = signal.clone();
    assert_eq!(inst.do_fft(&mut buffer, 0), Ok(()));
    assert_eq!(inst.do_ifft(&mut buffer, 0), Ok(()));
    for (got, sample) in buffer.iter().zip(signal.iter()) {
        assert!((got.re - sample.re * 8.0).abs() < 1e-4);
        assert!((got.im - sample.im * 8.0).abs() < 1e-4);
    }
}

#[test]
fn lease_hands_out_the_plan_and_the_scratch_buffer() {
    let mut inst: CepFft<f64> = CepFft::new(6);
    inst.extend_scratches(2);
    let scratch_len = inst.scratch_len();
    assert_eq!(inst.plan().len(), 6);
    assert_eq!(inst.plan().required_scratch_len(), scratch_len);
    {
        let (plan, scratch) = inst.lease(1).unwrap();
        assert_eq!(plan.len(), 6);
        assert_eq!(scratch.len(), scratch_len);
        let mut buffer = ramp(6);
        plan.apply_forward(&mut buffer, scratch);
        plan.apply_inverse(&mut buffer, scratch);
        for (got, sample) in buffer.iter().zip(ramp(6).iter()) {
            assert!(close(*got, *sample * 6.0, 1e-9));
        }
    }
    assert_eq!(inst.lease(2).err(), Some(CepstrumError::IndexOutOfRange));
    assert_eq!(inst.instance_count(), 2);
}
