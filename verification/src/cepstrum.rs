//! The cepstrum extractor: forward transform, nonlinearity, inverse
//! transform, on one instance of a shared engine.

use crate::error::CepstrumError;
use crate::fft::{checked, is_complex_zero, CepFft};
use crate::nonlinearity::{applied_to_all, apply_to_all, Nonlinearity};
use crate::plan::TransformPlan;
use crate::pool::{filled_with, grown_count, resized};
use rustfft::num_complex::Complex;
use rustfft::num_traits::Float;
use rustfft::FftNum;
use vstd::prelude::*;

verus! {

/// Extracts real and complex cepstrums of signals of one fixed length.
///
/// An extractor starts with one instance. Each instance owns a scratch
/// buffer, and an operation touches only the scratch buffer of the instance
/// it is given.
#[verifier::reject_recursive_types(T)]
pub struct CepstrumExtractor<T> {
    fft_instance: CepFft<T>,
}

/// The three steps of the pipeline in a row. The planned forward transform
/// was run on `forward_buffer` with `forward_scratch` and left `spectrum`;
/// the nonlinearity `kind` on every sample of `spectrum` gave what
/// `inverse_buffer` holds at first; and the planned inverse transform was run
/// on `inverse_buffer` with `inverse_scratch`.
pub open spec fn pipeline_steps<T: Float>(
    plan: TransformPlan<T>,
    kind: Nonlinearity,
    zero: Complex<T>,
    forward_buffer: &mut [Complex<T>],
    forward_scratch: &mut [Complex<T>],
    spectrum: Seq<Complex<T>>,
    inverse_buffer: &mut [Complex<T>],
    inverse_scratch: &mut [Complex<T>],
) -> bool {
    &&& plan.forward_ran(forward_buffer, forward_scratch)
    &&& applied_to_all(kind, spectrum, zero, inverse_buffer@)
    &&& plan.inverse_ran(inverse_buffer, inverse_scratch)
}

/// What the pipeline reports of a signal of `signal_len` samples under a
/// plan for `len` samples.
pub open spec fn length_checked(signal_len: nat, len: nat) -> Result<(), CepstrumError> {
    if signal_len == len {
        Ok(())
    } else {
        Err(CepstrumError::LengthMismatch)
    }
}

/// Runs the pipeline on `signal` in place under `plan`, with `scratch` as
/// the scratch buffer of both transforms and `zero` as the zero sample:
/// forward transform, the nonlinearity `kind` on every sample, inverse
/// transform. A signal that has not the plan's length is refused and nothing
/// is touched. Callers that hold a scratch buffer each can run this on one
/// plan at a time.
pub fn ceps_with_scratch<T: Float>(
    plan: &TransformPlan<T>,
    kind: Nonlinearity,
    zero: &Complex<T>,
    signal: &mut [Complex<T>],
    scratch: &mut [Complex<T>],
) -> (result: Result<(), CepstrumError>)
    requires
        old(scratch)@.len() >= plan.spec_required_scratch_len(),
    ensures
        final(signal)@.len() == old(signal)@.len(),
        final(scratch)@.len() == old(scratch)@.len(),
        result == length_checked(old(signal)@.len(), plan.spec_len() as nat),
        result is Err ==> final(signal)@ == old(signal)@ && final(scratch)@ == old(scratch)@,
        result is Ok ==> exists|
            forward_buffer: &mut [Complex<T>],
            forward_scratch: &mut [Complex<T>],
            inverse_buffer: &mut [Complex<T>],
            inverse_scratch: &mut [Complex<T>],
        |
            {
                &&& #[trigger] pipeline_steps(
                    *plan,
                    kind,
                    *zero,
                    forward_buffer,
                    forward_scratch,
                    final(forward_buffer)@,
                    inverse_buffer,
                    inverse_scratch,
                )
                &&& forward_buffer@ == old(signal)@
                &&& final(inverse_buffer)@ == final(signal)@
                &&& forward_scratch@ == old(scratch)@
                &&& inverse_scratch@ == final(forward_scratch)@
                &&& final(inverse_scratch)@ == final(scratch)@
            },
{
    if signal.len() != plan.len() {
        return Err(CepstrumError::LengthMismatch);
    }
    plan.apply_forward(signal, scratch);
    let ghost (forward_buffer, forward_scratch) = choose|b: &mut [Complex<T>], s: &mut [Complex<T>]|
        {
            &&& plan.forward_ran(b, s)
            &&& b@ == old(signal)@
            &&& final(b)@ == signal@
            &&& s@ == old(scratch)@
            &&& final(s)@ == scratch@
        };
    apply_to_all(kind, signal, zero);
    let ghost replaced = signal@;
    let ghost between = scratch@;
    plan.apply_inverse(signal, scratch);
    proof {
        let (inverse_buffer, inverse_scratch) = choose|b: &mut [Complex<T>], s: &mut [Complex<T>]|
            {
                &&& plan.inverse_ran(b, s)
                &&& b@ == replaced
                &&& final(b)@ == signal@
                &&& s@ == between
                &&& final(s)@ == scratch@
            };
        assert(pipeline_steps(
            *plan,
            kind,
            *zero,
            forward_buffer,
            forward_scratch,
            final(forward_buffer)@,
            inverse_buffer,
            inverse_scratch,
        ));
        assert(inverse_scratch@ == final(forward_scratch)@);
    }
    Ok(())
}

/// The first half of `cepstrum`, the part of a cepstrum that carries
/// meaning: its first `len / 2` samples.
pub fn first_half<T>(cepstrum: Vec<Complex<T>>) -> (half: Vec<Complex<T>>)
    ensures
        half@ == cepstrum@.take(cepstrum@.len() as int / 2),
{
    let mut half = cepstrum;
    let len = half.len() / 2;
    half.truncate(len);
    half
}

/// A copy of `signal`.
fn copied<T: Copy>(signal: &[Complex<T>]) -> (copy: Vec<Complex<T>>)
    ensures
        copy@ == signal@,
{
    let mut copy: Vec<Complex<T>> = Vec::with_capacity(signal.len());
    let mut i: usize = 0;
    while i < signal.len()
        invariant
            i <= signal@.len(),
            copy@ == signal@.take(i as int),
        decreases signal@.len() - i,
    {
        copy.push(signal[i]);
        i = i + 1;
    }
    copy
}

impl<T: Copy> CepstrumExtractor<T> {
    /// The number of samples a signal must have.
    pub closed spec fn spec_len(&self) -> usize {
        self.fft_instance.spec_len()
    }

    /// The number of instances.
    pub closed spec fn spec_instance_count(&self) -> nat {
        self.fft_instance.scratches().len()
    }

    /// The scratch buffers, in instance order.
    pub closed spec fn scratches(&self) -> Seq<Seq<Complex<T>>> {
        self.fft_instance.scratches()
    }

    /// The length of every scratch buffer.
    pub closed spec fn spec_scratch_len(&self) -> usize {
        self.fft_instance.spec_scratch_len()
    }

    /// The sample that fresh scratch buffers are filled with.
    pub closed spec fn zero(&self) -> Complex<T> {
        self.fft_instance.zero()
    }

    /// The plan of the two transforms.
    pub closed spec fn spec_plan(&self) -> TransformPlan<T> {
        self.fft_instance.spec_plan()
    }

    /// The engine inside is well formed.
    pub closed spec fn wf(&self) -> bool {
        self.fft_instance.wf()
    }

    /// `self` has the plan, signal length, scratch length, zero sample and
    /// instance count of `before`.
    pub open spec fn same_shape(&self, before: &Self) -> bool {
        &&& self.spec_plan() == before.spec_plan()
        &&& self.spec_len() == before.spec_len()
        &&& self.spec_scratch_len() == before.spec_scratch_len()
        &&& self.zero() == before.zero()
        &&& self.spec_instance_count() == before.spec_instance_count()
    }

    /// Every scratch buffer of `self` but that of instance `instance` is as
    /// it is in `before`.
    pub open spec fn others_untouched(&self, before: &Self, instance: nat) -> bool {
        forall|j: int|
            0 <= j < before.spec_instance_count() && j != instance ==> #[trigger] self.scratches()[j]
                == before.scratches()[j]
    }

    /// A well-formed extractor takes at least one sample, has at least one
    /// instance, and as many scratch buffers as instances, all of one length.
    pub proof fn lemma_wf(&self)
        requires
            self.wf(),
        ensures
            self.spec_len() >= 1,
            self.spec_len() == self.spec_plan().spec_len(),
            self.spec_scratch_len() == self.spec_plan().spec_required_scratch_len(),
            self.spec_instance_count() >= 1,
            self.scratches().len() == self.spec_instance_count(),
            forall|i: int|
                0 <= i < self.scratches().len() ==> (#[trigger] self.scratches()[i]).len()
                    == self.spec_scratch_len(),
    {
    }

    /// The number of samples a signal must have.
    #[verifier::when_used_as_spec(spec_len)]
    pub fn len(&self) -> (len: usize)
        ensures
            len == self.spec_len(),
    {
        self.fft_instance.len()
    }

    /// The plan of the two transforms.
    pub fn plan(&self) -> (plan: &TransformPlan<T>)
        ensures
            *plan == self.spec_plan(),
    {
        self.fft_instance.plan()
    }

    /// The sample that fresh scratch buffers are filled with.
    #[verifier::when_used_as_spec(zero)]
    pub fn zero_sample(&self) -> (zero: Complex<T>)
        ensures
            zero == self.zero(),
    {
        self.fft_instance.zero_sample()
    }

    /// Whether an operation on a signal of `signal_len` samples with
    /// instance `instance` may run.
    pub fn check(&self, signal_len: usize, instance: usize) -> (result: Result<(), CepstrumError>)
        ensures
            result == checked(
                instance as nat,
                self.spec_instance_count(),
                signal_len as nat,
                self.spec_len() as nat,
            ),
    {
        self.fft_instance.check(signal_len, instance)
    }

    /// The number of instances.
    pub fn instance_count(&self) -> (count: usize)
        ensures
            count == self.spec_instance_count(),
    {
        self.fft_instance.instance_count()
    }

    /// Increases the number of instances to `new_count`; does nothing when
    /// there are already that many. The instances that exist keep their
    /// scratch buffers.
    pub fn extend_instances(&mut self, new_count: usize)
        requires
            old(self).wf(),
        ensures
            final(self).wf(),
            final(self).spec_plan() == old(self).spec_plan(),
            final(self).spec_len() == old(self).spec_len(),
            final(self).spec_scratch_len() == old(self).spec_scratch_len(),
            final(self).zero() == old(self).zero(),
            final(self).spec_instance_count() == grown_count(old(self).spec_instance_count(), new_count as nat),
            final(self).scratches() == old(self).scratches() + Seq::new(
                (final(self).spec_instance_count() - old(self).spec_instance_count()) as nat,
                |i: int| filled_with(old(self).spec_scratch_len() as nat, old(self).zero()),
            ),
    {
        self.fft_instance.extend_scratches(new_count);
    }
}

impl<T: FftNum + Float> CepstrumExtractor<T> {
    /// An extractor for signals of `win_len` samples, with a single
    /// instance.
    pub fn new(win_len: usize) -> (extractor: Self)
        requires
            win_len >= 1,
        ensures
            extractor.wf(),
            extractor.spec_len() == win_len,
            extractor.spec_plan().planned_for(win_len),
            is_complex_zero(extractor.zero()),
            extractor.spec_instance_count() == 1,
            extractor.scratches() == seq![
                filled_with(extractor.spec_scratch_len() as nat, extractor.zero()),
            ],
    {
        CepstrumExtractor { fft_instance: CepFft::new(win_len) }
    }

    /// Sets the length of the signals to `len`. With the length the
    /// extractor already has nothing changes; otherwise every scratch buffer
    /// is cut or zero-padded to what the new length asks for.
    pub fn set_len(&mut self, len: usize)
        requires
            old(self).wf(),
            len >= 1,
        ensures
            final(self).wf(),
            final(self).spec_len() == len,
            final(self).zero() == old(self).zero(),
            final(self).spec_instance_count() == old(self).spec_instance_count(),
            len == old(self).spec_len() ==> *final(self) == *old(self),
            len != old(self).spec_len() ==> final(self).spec_plan().planned_for(len),
            final(self).scratches() == Seq::new(
                old(self).spec_instance_count(),
                |i: int| resized(old(self).scratches()[i], final(self).spec_scratch_len() as nat, old(self).zero()),
            ),
    {
        self.fft_instance.set_len(len);
    }
}

impl<T: Float> CepstrumExtractor<T> {
    /// Runs the pipeline on `signal` in place with instance `instance`:
    /// forward transform, the nonlinearity `kind` on every sample, inverse
    /// transform. On an error nothing is touched; otherwise `signal` ends up
    /// as the three steps left it, the scratch buffer of `instance` as the
    /// two transforms left it, and nothing else is written.
    pub fn _ceps_with_instance_mut(
        &mut self,
        signal: &mut [Complex<T>],
        kind: Nonlinearity,
        instance: usize,
    ) -> (result: Result<(), CepstrumError>)
        requires
            old(self).wf(),
        ensures
            final(self).wf(),
            final(self).same_shape(old(self)),
            final(self).others_untouched(old(self), instance as nat),
            final(signal)@.len() == old(signal)@.len(),
            result == checked(
                instance as nat,
                old(self).spec_instance_count(),
                old(signal)@.len(),
                old(self).spec_len() as nat,
            ),
            result is Err ==> final(signal)@ == old(signal)@ && final(self).scratches() == old(self).scratches(),
            result is Ok ==> exists|
                forward_buffer: &mut [Complex<T>],
                forward_scratch: &mut [Complex<T>],
                inverse_buffer: &mut [Complex<T>],
                inverse_scratch: &mut [Complex<T>],
            |
                {
                    &&& #[trigger] pipeline_steps(
                        old(self).spec_plan(),
                        kind,
                        old(self).zero(),
                        forward_buffer,
                        forward_scratch,
                        final(forward_buffer)@,
                        inverse_buffer,
                        inverse_scratch,
                    )
                    &&& forward_buffer@ == old(signal)@
                    &&& final(inverse_buffer)@ == final(signal)@
                    &&& forward_scratch@ == old(self).scratches()[instance as int]
                    &&& inverse_scratch@ == final(forward_scratch)@
                    &&& final(inverse_scratch)@ == final(self).scratches()[instance as int]
                },
    {
        match self.fft_instance.check(signal.len(), instance) {
            Err(e) => Err(e),
            Ok(()) => {
                let zero = self.fft_instance.zero_sample();
                match self.fft_instance.lease(instance) {
                    Err(e) => Err(e),
                    Ok((plan, scratch)) => {
                        let ghost leased = scratch@;
                        let result = ceps_with_scratch(plan, kind, &zero, signal, scratch);
                        proof {
                            let (forward_buffer, forward_scratch, inverse_buffer, inverse_scratch) = choose|
                                forward_buffer: &mut [Complex<T>],
                                forward_scratch: &mut [Complex<T>],
                                inverse_buffer: &mut [Complex<T>],
                                inverse_scratch: &mut [Complex<T>],
                            |
                                {
                                    &&& #[trigger] pipeline_steps(
                                        *plan,
                                        kind,
                                        zero,
                                        forward_buffer,
                                        forward_scratch,
                                        final(forward_buffer)@,
                                        inverse_buffer,
                                        inverse_scratch,
                                    )
                                    &&& forward_buffer@ == old(signal)@
                                    &&& final(inverse_buffer)@ == signal@
                                    &&& forward_scratch@ == leased
                                    &&& inverse_scratch@ == final(forward_scratch)@
                                    &&& final(inverse_scratch)@ == scratch@
                                };
                            assert(pipeline_steps(
                                old(self).spec_plan(),
                                kind,
                                old(self).zero(),
                                forward_buffer,
                                forward_scratch,
                                final(forward_buffer)@,
                                inverse_buffer,
                                inverse_scratch,
                            ));
                            assert(final(inverse_scratch)@ == self.scratches()[instance as int]);
                        }
                        result
                    },
                }
            },
        }
    }

    /// The real cepstrum of `signal`, in place, with instance 0.
    pub fn rceps_mut(&mut self, signal: &mut [Complex<T>]) -> (result: Result<(), CepstrumError>)
        requires
            old(self).wf(),
        ensures
            final(self).wf(),
            final(self).same_shape(old(self)),
            final(self).others_untouched(old(self), 0),
            final(signal)@.len() == old(signal)@.len(),
            result == checked(
                0,
                old(self).spec_instance_count(),
                old(signal)@.len(),
                old(self).spec_len() as nat,
            ),
            result is Err ==> final(signal)@ == old(signal)@ && final(self).scratches() == old(self).scratches(),
            result is Ok ==> exists|
                forward_buffer: &mut [Complex<T>],
                forward_scratch: &mut [Complex<T>],
                inverse_buffer: &mut [Complex<T>],
                inverse_scratch: &mut [Complex<T>],
            |
                {
                    &&& #[trigger] pipeline_steps(
                        old(self).spec_plan(),
                        Nonlinearity::RealLogMagnitude,
                        old(self).zero(),
                        forward_buffer,
                        forward_scratch,
                        final(forward_buffer)@,
                        inverse_buffer,
                        inverse_scratch,
                    )
                    &&& forward_buffer@ == old(signal)@
                    &&& final(inverse_buffer)@ == final(signal)@
                    &&& forward_scratch@ == old(self).scratches()[0]
                    &&& inverse_scratch@ == final(forward_scratch)@
                    &&& final(inverse_scratch)@ == final(self).scratches()[0]
                },
    {
        self.rceps_with_instance_mut(signal, 0)
    }

    /// The real cepstrum of `signal` with instance 0, as a new vector: the
    /// first half of what the pipeline leaves of a copy of `signal`.
    pub fn rceps_to_vec(
        &mut self,
        signal: &[Complex<T>],
    ) -> (result: Result<Vec<Complex<T>>, CepstrumError>)
        requires
            old(self).wf(),
        ensures
            final(self).wf(),
            final(self).same_shape(old(self)),
            final(self).others_untouched(old(self), 0),
            match checked(
                0,
                old(self).spec_instance_count(),
                signal@.len(),
                old(self).spec_len() as nat,
            ) {
                Ok(()) => result is Ok && result->Ok_0@.len() == old(self).spec_len() / 2,
                Err(e) => result == Err::<Vec<Complex<T>>, CepstrumError>(e) && final(self).scratches() == old(
                    self,
                ).scratches(),
            },
            result is Ok ==> exists|
                forward_buffer: &mut [Complex<T>],
                forward_scratch: &mut [Complex<T>],
                inverse_buffer: &mut [Complex<T>],
                inverse_scratch: &mut [Complex<T>],
            |
                {
                    &&& #[trigger] pipeline_steps(
                        old(self).spec_plan(),
                        Nonlinearity::RealLogMagnitude,
                        old(self).zero(),
                        forward_buffer,
                        forward_scratch,
                        final(forward_buffer)@,
                        inverse_buffer,
                        inverse_scratch,
                    )
                    &&& forward_buffer@ == signal@
                    &&& result->Ok_0@ == final(inverse_buffer)@.take(signal@.len() as int / 2)
                    &&& forward_scratch@ == old(self).scratches()[0]
                    &&& inverse_scratch@ == final(forward_scratch)@
                    &&& final(inverse_scratch)@ == final(self).scratches()[0]
                },
    {
        self.rceps_with_instance_to_vec(signal, 0)
    }

    /// The real cepstrum of `signal`, in place, with instance `instance`.
    pub fn rceps_with_instance_mut(
        &mut self,
        signal: &mut [Complex<T>],
        instance: usize,
    ) -> (result: Result<(), CepstrumError>)
        requires
            old(self).wf(),
        ensures
            final(self).wf(),
            final(self).same_shape(old(self)),
            final(self).others_untouched(old(self), instance as nat),
            final(signal)@.len() == old(signal)@.len(),
            result == checked(
                instance as nat,
                old(self).spec_instance_count(),
                old(signal)@.len(),
                old(self).spec_len() as nat,
            ),
            result is Err ==> final(signal)@ == old(signal)@ && final(self).scratches() == old(self).scratches(),
            result is Ok ==> exists|
                forward_buffer: &mut [Complex<T>],
                forward_scratch: &mut [Complex<T>],
                inverse_buffer: &mut [Complex<T>],
                inverse_scratch: &mut [Complex<T>],
            |
                {
                    &&& #[trigger] pipeline_steps(
                        old(self).spec_plan(),
                        Nonlinearity::RealLogMagnitude,
                        old(self).zero(),
                        forward_buffer,
                        forward_scratch,
                        final(forward_buffer)@,
                        inverse_buffer,
                        inverse_scratch,
                    )
                    &&& forward_buffer@ == old(signal)@
                    &&& final(inverse_buffer)@ == final(signal)@
                    &&& forward_scratch@ == old(self).scratches()[instance as int]
                    &&& inverse_scratch@ == final(forward_scratch)@
                    &&& final(inverse_scratch)@ == final(self).scratches()[instance as int]
                },
    {
        self._ceps_with_instance_mut(signal, Nonlinearity::RealLogMagnitude, instance)
    }

    /// The real cepstrum of `signal` with instance `instance`, as a new
    /// vector: the first half of what the pipeline leaves of a copy of
    /// `signal`.
    pub fn rceps_with_instance_to_vec(
        &mut self,
        signal: &[Complex<T>],
        instance: usize,
    ) -> (result: Result<Vec<Complex<T>>, CepstrumError>)
        requires
            old(self).wf(),
        ensures
            final(self).wf(),
            final(self).same_shape(old(self)),
            final(self).others_untouched(old(self), instance as nat),
            match checked(
                instance as nat,
                old(self).spec_instance_count(),
                signal@.len(),
                old(self).spec_len() as nat,
            ) {
                Ok(()) => result is Ok && result->Ok_0@.len() == old(self).spec_len() / 2,
                Err(e) => result == Err::<Vec<Complex<T>>, CepstrumError>(e) && final(self).scratches() == old(
                    self,
                ).scratches(),
            },
            result is Ok ==> exists|
                forward_buffer: &mut [Complex<T>],
                forward_scratch: &mut [Complex<T>],
                inverse_buffer: &mut [Complex<T>],
                inverse_scratch: &mut [Complex<T>],
            |
                {
                    &&& #[trigger] pipeline_steps(
                        old(self).spec_plan(),
                        Nonlinearity::RealLogMagnitude,
                        old(self).zero(),
                        forward_buffer,
                        forward_scratch,
                        final(forward_buffer)@,
                        inverse_buffer,
                        inverse_scratch,
                    )
                    &&& forward_buffer@ == signal@
                    &&& result->Ok_0@ == final(inverse_buffer)@.take(signal@.len() as int / 2)
                    &&& forward_scratch@ == old(self).scratches()[instance as int]
                    &&& inverse_scratch@ == final(forward_scratch)@
                    &&& final(inverse_scratch)@ == final(self).scratches()[instance as int]
                },
    {
        self.ceps_to_vec(signal, Nonlinearity::RealLogMagnitude, instance)
    }

    /// The complex cepstrum of `signal`, in place, with instance 0.
    pub fn cceps_mut(&mut self, signal: &mut [Complex<T>]) -> (result: Result<(), CepstrumError>)
        requires
            old(self).wf(),
        ensures
            final(self).wf(),
            final(self).same_shape(old(self)),
            final(self).others_untouched(old(self), 0),
            final(signal)@.len() == old(signal)@.len(),
            result == checked(
                0,
                old(self).spec_instance_count(),
                old(signal)@.len(),
                old(self).spec_len() as nat,
            ),
            result is Err ==> final(signal)@ == old(signal)@ && final(self).scratches() == old(self).scratches(),
            result is Ok ==> exists|
                forward_buffer: &mut [Complex<T>],
                forward_scratch: &mut [Complex<T>],
                inverse_buffer: &mut [Complex<T>],
                inverse_scratch: &mut [Complex<T>],
            |
                {
                    &&& #[trigger] pipeline_steps(
                        old(self).spec_plan(),
                        Nonlinearity::ComplexPrincipalLog,
                        old(self).zero(),
                        forward_buffer,
                        forward_scratch,
                        final(forward_buffer)@,
                        inverse_buffer,
                        inverse_scratch,
                    )
                    &&& forward_buffer@ == old(signal)@
                    &&& final(inverse_buffer)@ == final(signal)@
                    &&& forward_scratch@ == old(self).scratches()[0]
                    &&& inverse_scratch@ == final(forward_scratch)@
                    &&& final(inverse_scratch)@ == final(self).scratches()[0]
                },
    {
        self.cceps_with_instance_mut(signal, 0)
    }

    /// The complex cepstrum of `signal` with instance 0, as a new vector:
    /// the first half of what the pipeline leaves of a copy of `signal`.
    pub fn cceps_to_vec(
        &mut self,
        signal: &[Complex<T>],
    ) -> (result: Result<Vec<Complex<T>>, CepstrumError>)
        requires
            old(self).wf(),
        ensures
            final(self).wf(),
            final(self).same_shape(old(self)),
            final(self).others_untouched(old(self), 0),
            match checked(
                0,
                old(self).spec_instance_count(),
                signal@.len(),
                old(self).spec_len() as nat,
            ) {
                Ok(()) => result is Ok && result->Ok_0@.len() == old(self).spec_len() / 2,
                Err(e) => result == Err::<Vec<Complex<T>>, CepstrumError>(e) && final(self).scratches() == old(
                    self,
                ).scratches(),
            },
            result is Ok ==> exists|
                forward_buffer: &mut [Complex<T>],
                forward_scratch: &mut [Complex<T>],
                inverse_buffer: &mut [Complex<T>],
                inverse_scratch: &mut [Complex<T>],
            |
                {
                    &&& #[trigger] pipeline_steps(
                        old(self).spec_plan(),
                        Nonlinearity::ComplexPrincipalLog,
                        old(self).zero(),
                        forward_buffer,
                        forward_scratch,
                        final(forward_buffer)@,
                        inverse_buffer,
                        inverse_scratch,
                    )
                    &&& forward_buffer@ == signal@
                    &&& result->Ok_0@ == final(inverse_buffer)@.take(signal@.len() as int / 2)
                    &&& forward_scratch@ == old(self).scratches()[0]
                    &&& inverse_scratch@ == final(forward_scratch)@
                    &&& final(inverse_scratch)@ == final(self).scratches()[0]
                },
    {
        self.cceps_with_instance_to_vec(signal, 0)
    }

    /// The complex cepstrum of `signal`, in place, with instance `instance`.
    pub fn cceps_with_instance_mut(
        &mut self,
        signal: &mut [Complex<T>],
        instance: usize,
    ) -> (result: Result<(), CepstrumError>)
        requires
            old(self).wf(),
        ensures
            final(self).wf(),
            final(self).same_shape(old(self)),
            final(self).others_untouched(old(self), instance as nat),
            final(signal)@.len() == old(signal)@.len(),
            result == checked(
                instance as nat,
                old(self).spec_instance_count(),
                old(signal)@.len(),
                old(self).spec_len() as nat,
            ),
            result is Err ==> final(signal)@ == old(signal)@ && final(self).scratches() == old(self).scratches(),
            result is Ok ==> exists|
                forward_buffer: &mut [Complex<T>],
                forward_scratch: &mut [Complex<T>],
                inverse_buffer: &mut [Complex<T>],
                inverse_scratch: &mut [Complex<T>],
            |
                {
                    &&& #[trigger] pipeline_steps(
                        old(self).spec_plan(),
                        Nonlinearity::ComplexPrincipalLog,
                        old(self).zero(),
                        forward_buffer,
                        forward_scratch,
                        final(forward_buffer)@,
                        inverse_buffer,
                        inverse_scratch,
                    )
                    &&& forward_buffer@ == old(signal)@
                    &&& final(inverse_buffer)@ == final(signal)@
                    &&& forward_scratch@ == old(self).scratches()[instance as int]
                    &&& inverse_scratch@ == final(forward_scratch)@
                    &&& final(inverse_scratch)@ == final(self).scratches()[instance as int]
                },
    {
        self._ceps_with_instance_mut(signal, Nonlinearity::ComplexPrincipalLog, instance)
    }

    /// The complex cepstrum of `signal` with instance `instance`, as a new
    /// vector: the first half of what the pipeline leaves of a copy of
    /// `signal`.
    pub fn cceps_with_instance_to_vec(
        &mut self,
        signal: &[Complex<T>],
        instance: usize,
    ) -> (result: Result<Vec<Complex<T>>, CepstrumError>)
        requires
            old(self).wf(),
        ensures
            final(self).wf(),
            final(self).same_shape(old(self)),
            final(self).others_untouched(old(self), instance as nat),
            match checked(
                instance as nat,
                old(self).spec_instance_count(),
                signal@.len(),
                old(self).spec_len() as nat,
            ) {
                Ok(()) => result is Ok && result->Ok_0@.len() == old(self).spec_len() / 2,
                Err(e) => result == Err::<Vec<Complex<T>>, CepstrumError>(e) && final(self).scratches() == old(
                    self,
                ).scratches(),
            },
            result is Ok ==> exists|
                forward_buffer: &mut [Complex<T>],
                forward_scratch: &mut [Complex<T>],
                inverse_buffer: &mut [Complex<T>],
                inverse_scratch: &mut [Complex<T>],
            |
                {
                    &&& #[trigger] pipeline_steps(
                        old(self).spec_plan(),
                        Nonlinearity::ComplexPrincipalLog,
                        old(self).zero(),
                        forward_buffer,
                        forward_scratch,
                        final(forward_buffer)@,
                        inverse_buffer,
                        inverse_scratch,
                    )
                    &&& forward_buffer@ == signal@
                    &&& result->Ok_0@ == final(inverse_buffer)@.take(signal@.len() as int / 2)
                    &&& forward_scratch@ == old(self).scratches()[instance as int]
                    &&& inverse_scratch@ == final(forward_scratch)@
                    &&& final(inverse_scratch)@ == final(self).scratches()[instance as int]
                },
    {
        self.ceps_to_vec(signal, Nonlinearity::ComplexPrincipalLog, instance)
    }

    /// The cepstrum of `signal` under `kind` with instance `instance`, as a
    /// new vector: the first half of what the pipeline leaves of a copy of
    /// `signal`. The signal is checked before it is copied.
    fn ceps_to_vec(
        &mut self,
        signal: &[Complex<T>],
        kind: Nonlinearity,
        instance: usize,
    ) -> (result: Result<Vec<Complex<T>>, CepstrumError>)
        requires
            old(self).wf(),
        ensures
            final(self).wf(),
            final(self).same_shape(old(self)),
            final(self).others_untouched(old(self), instance as nat),
            match checked(
                instance as nat,
                old(self).spec_instance_count(),
                signal@.len(),
                old(self).spec_len() as nat,
            ) {
                Ok(()) => result is Ok && result->Ok_0@.len() == old(self).spec_len() / 2,
                Err(e) => result == Err::<Vec<Complex<T>>, CepstrumError>(e) && final(self).scratches() == old(
                    self,
                ).scratches(),
            },
            result is Ok ==> exists|
                forward_buffer: &mut [Complex<T>],
                forward_scratch: &mut [Complex<T>],
                inverse_buffer: &mut [Complex<T>],
                inverse_scratch: &mut [Complex<T>],
            |
                {
                    &&& #[trigger] pipeline_steps(
                        old(self).spec_plan(),
                        kind,
                        old(self).zero(),
                        forward_buffer,
                        forward_scratch,
                        final(forward_buffer)@,
                        inverse_buffer,
                        inverse_scratch,
                    )
                    &&& forward_buffer@ == signal@
                    &&& result->Ok_0@ == final(inverse_buffer)@.take(signal@.len() as int / 2)
                    &&& forward_scratch@ == old(self).scratches()[instance as int]
                    &&& inverse_scratch@ == final(forward_scratch)@
                    &&& final(inverse_scratch)@ == final(self).scratches()[instance as int]
                },
    {
        match self.fft_instance.check(signal.len(), instance) {
            Err(e) => Err(e),
            Ok(()) => {
                let mut copy = copied(signal);
                match self._ceps_with_instance_mut(copy.as_mut_slice(), kind, instance) {
                    Err(e) => Err(e),
                    Ok(()) => Ok(first_half(copy)),
                }
            },
        }
    }
}

} // verus!
