//! The transform engine: one plan and the scratch buffers that back it.

use crate::error::CepstrumError;
use crate::plan::TransformPlan;
use crate::pool::{filled_with, grown_count, lemma_resized_to_own_len, resized, ScratchPool};
use rustfft::num_complex::Complex;
use rustfft::num_traits::{Float, Zero};
use rustfft::FftNum;
use vstd::prelude::*;

verus! {

/// What a transform call on a signal of `signal_len` samples with scratch
/// instance `instance` reports, for an engine of `instance_count` instances
/// and transform length `len`: the instance index is checked first, then the
/// signal length.
pub open spec fn checked(instance: nat, instance_count: nat, signal_len: nat, len: nat) -> Result<
    (),
    CepstrumError,
> {
    if instance >= instance_count {
        Err(CepstrumError::IndexOutOfRange)
    } else if signal_len != len {
        Err(CepstrumError::LengthMismatch)
    } else {
        Ok(())
    }
}

/// An instance index that is not below the instance count is reported as
/// out of range, whatever the signal's length.
pub proof fn lemma_index_out_of_range(instance: nat, instance_count: nat, signal_len: nat, len: nat)
    requires
        instance >= instance_count,
    ensures
        checked(instance, instance_count, signal_len, len) == Err::<(), CepstrumError>(
            CepstrumError::IndexOutOfRange,
        ),
{
}

/// With an instance index in range, a signal whose length differs from the
/// transform length is reported as a length mismatch.
pub proof fn lemma_length_mismatch(instance: nat, instance_count: nat, signal_len: nat, len: nat)
    requires
        instance < instance_count,
        signal_len != len,
    ensures
        checked(instance, instance_count, signal_len, len) == Err::<(), CepstrumError>(
            CepstrumError::LengthMismatch,
        ),
{
}

/// A call is let through exactly when the instance index is in range and
/// the signal has the transform length.
pub proof fn lemma_checked_ok(instance: nat, instance_count: nat, signal_len: nat, len: nat)
    ensures
        checked(instance, instance_count, signal_len, len) is Ok <==> instance < instance_count && signal_len
            == len,
{
}

/// Calls `Complex::zero()` (the `num_traits::Zero` of `num_complex`). The
/// contract claims nothing of the sample that comes back.
#[verifier::external_body]
fn complex_zero<T: FftNum>() -> (zero: Complex<T>) {
    Complex::zero()
}

/// `zero` is the sample that `Complex::zero()` gave.
pub closed spec fn is_complex_zero<T: FftNum>(zero: Complex<T>) -> bool {
    call_ensures(complex_zero::<T>, (), zero)
}

/// Forward and inverse transforms of one length, with one scratch buffer
/// per instance.
#[verifier::reject_recursive_types(T)]
pub struct CepFft<T> {
    plan: TransformPlan<T>,
    pool: ScratchPool<Complex<T>>,
}

impl<T: Copy> CepFft<T> {
    /// The number of samples a signal must have.
    pub closed spec fn spec_len(&self) -> usize {
        self.plan.spec_len()
    }

    /// The length of every scratch buffer.
    pub closed spec fn spec_scratch_len(&self) -> usize {
        self.pool.spec_required_len()
    }

    /// The scratch buffers, in instance order.
    pub closed spec fn scratches(&self) -> Seq<Seq<Complex<T>>> {
        self.pool@
    }

    /// The sample that fresh scratch buffers are filled with.
    pub closed spec fn zero(&self) -> Complex<T> {
        self.pool.spec_fill()
    }

    /// The plan of the two transforms.
    pub closed spec fn spec_plan(&self) -> TransformPlan<T> {
        self.plan
    }

    /// The engine transforms at least one sample, as many as its plan is
    /// for; it has at least one instance; and every scratch buffer has the
    /// length the plan asks for.
    pub open spec fn wf(&self) -> bool {
        &&& self.spec_len() >= 1
        &&& self.spec_len() == self.spec_plan().spec_len()
        &&& self.scratches().len() >= 1
        &&& forall|i: int|
            0 <= i < self.scratches().len() ==> (#[trigger] self.scratches()[i]).len() == self.spec_scratch_len()
        &&& self.spec_scratch_len() == self.spec_plan().spec_required_scratch_len()
    }

    /// `self` has the plan, transform length, scratch length, zero sample
    /// and instance count of `before`.
    pub open spec fn same_shape(&self, before: &Self) -> bool {
        &&& self.spec_plan() == before.spec_plan()
        &&& self.spec_len() == before.spec_len()
        &&& self.spec_scratch_len() == before.spec_scratch_len()
        &&& self.zero() == before.zero()
        &&& self.scratches().len() == before.scratches().len()
    }

    /// Every scratch buffer of `self` but that of instance `i` is as it is
    /// in `before`.
    pub open spec fn others_untouched(&self, before: &Self, i: nat) -> bool {
        forall|j: int|
            0 <= j < before.scratches().len() && j != i ==> #[trigger] self.scratches()[j] == before.scratches()[j]
    }

    /// The number of samples a signal must have.
    #[verifier::when_used_as_spec(spec_len)]
    pub fn len(&self) -> (len: usize)
        ensures
            len == self.spec_len(),
    {
        self.plan.len()
    }

    /// The length of every scratch buffer.
    #[verifier::when_used_as_spec(spec_scratch_len)]
    pub fn scratch_len(&self) -> (len: usize)
        ensures
            len == self.spec_scratch_len(),
    {
        self.pool.required_len()
    }

    /// The sample that fresh scratch buffers are filled with.
    #[verifier::when_used_as_spec(zero)]
    pub fn zero_sample(&self) -> (zero: Complex<T>)
        ensures
            zero == self.zero(),
    {
        self.pool.fill()
    }

    /// The number of instances.
    pub fn instance_count(&self) -> (count: usize)
        ensures
            count == self.scratches().len(),
    {
        self.pool.count()
    }

    /// The length of the scratch buffer of instance `i`.
    pub fn scratch_buffer_len(&self, i: usize) -> (len: Result<usize, CepstrumError>)
        ensures
            i < self.scratches().len() ==> len == Ok::<usize, CepstrumError>(self.scratches()[i as int].len() as usize),
            i >= self.scratches().len() ==> len == Err::<usize, CepstrumError>(CepstrumError::IndexOutOfRange),
    {
        self.pool.buffer_len(i)
    }

    /// Grows the engine to `new_count` instances; does nothing when it
    /// already has that many. Existing scratch buffers stay as they are, and
    /// each new one is filled with the zero sample.
    pub fn extend_scratches(&mut self, new_count: usize)
        requires
            old(self).wf(),
        ensures
            final(self).wf(),
            final(self).spec_plan() == old(self).spec_plan(),
            final(self).spec_len() == old(self).spec_len(),
            final(self).spec_scratch_len() == old(self).spec_scratch_len(),
            final(self).zero() == old(self).zero(),
            final(self).scratches().len() == grown_count(old(self).scratches().len(), new_count as nat),
            final(self).scratches() == old(self).scratches() + Seq::new(
                (final(self).scratches().len() - old(self).scratches().len()) as nat,
                |i: int| filled_with(old(self).spec_scratch_len() as nat, old(self).zero()),
            ),
    {
        self.pool.extend(new_count);
    }

    /// The plan of the two transforms.
    pub fn plan(&self) -> (plan: &TransformPlan<T>)
        ensures
            *plan == self.spec_plan(),
    {
        &self.plan
    }

    /// Hands out the plan together with the scratch buffer of instance `i`,
    /// for exclusive use until the borrow ends. Whatever the holder writes
    /// into the buffer is what the engine holds afterwards; nothing else in
    /// the engine changes.
    pub fn lease(&mut self, i: usize) -> (lease: Result<(&TransformPlan<T>, &mut [Complex<T>]), CepstrumError>)
        ensures
            final(self).same_shape(old(self)),
            final(self).others_untouched(old(self), i as nat),
            i >= old(self).scratches().len() ==> lease is Err && lease->Err_0 == CepstrumError::IndexOutOfRange
                && final(self).scratches() == old(self).scratches(),
            i < old(self).scratches().len() ==> lease is Ok && *lease->Ok_0.0 == old(self).spec_plan()
                && lease->Ok_0.1@ == old(self).scratches()[i as int] && final(self).scratches() == old(
                self,
            ).scratches().update(i as int, final(lease->Ok_0.1)@),
    {
        match self.pool.acquire(i) {
            Err(e) => Err(e),
            Ok(scratch) => Ok((&self.plan, scratch)),
        }
    }

    /// Whether a transform of a signal of `signal_len` samples with instance
    /// `i` may run.
    pub fn check(&self, signal_len: usize, i: usize) -> (result: Result<(), CepstrumError>)
        ensures
            result == checked(i as nat, self.scratches().len(), signal_len as nat, self.spec_len() as nat),
    {
        if i >= self.pool.count() {
            Err(CepstrumError::IndexOutOfRange)
        } else if signal_len != self.plan.len() {
            Err(CepstrumError::LengthMismatch)
        } else {
            Ok(())
        }
    }
}

impl<T: Float> CepFft<T> {
    /// Transforms `input` forward in place with the scratch buffer of
    /// instance `i`. On an error nothing is touched; otherwise `input` and
    /// that one scratch buffer end up as the run of the planned forward
    /// transform on them left them, and nothing else is written.
    pub fn do_fft(&mut self, input: &mut [Complex<T>], i: usize) -> (result: Result<(), CepstrumError>)
        requires
            old(self).wf(),
        ensures
            final(self).wf(),
            final(self).same_shape(old(self)),
            final(self).others_untouched(old(self), i as nat),
            final(input)@.len() == old(input)@.len(),
            result == checked(
                i as nat,
                old(self).scratches().len(),
                old(input)@.len(),
                old(self).spec_len() as nat,
            ),
            result is Err ==> final(input)@ == old(input)@ && final(self).scratches() == old(self).scratches(),
            result is Ok ==> exists|b: &mut [Complex<T>], s: &mut [Complex<T>]|
                {
                    &&& #[trigger] old(self).spec_plan().forward_ran(b, s)
                    &&& b@ == old(input)@
                    &&& final(b)@ == final(input)@
                    &&& s@ == old(self).scratches()[i as int]
                    &&& final(s)@ == final(self).scratches()[i as int]
                },
    {
        match self.check(input.len(), i) {
            Err(e) => Err(e),
            Ok(()) => {
                match self.pool.acquire(i) {
                    Err(e) => Err(e),
                    Ok(scratch) => {
                        self.plan.apply_forward(input, scratch);
                        Ok(())
                    },
                }
            },
        }
    }

    /// Transforms `input` backward in place with the scratch buffer of
    /// instance `i`. On an error nothing is touched; otherwise `input` and
    /// that one scratch buffer end up as the run of the planned inverse
    /// transform on them left them, and nothing else is written.
    pub fn do_ifft(&mut self, input: &mut [Complex<T>], i: usize) -> (result: Result<(), CepstrumError>)
        requires
            old(self).wf(),
        ensures
            final(self).wf(),
            final(self).same_shape(old(self)),
            final(self).others_untouched(old(self), i as nat),
            final(input)@.len() == old(input)@.len(),
            result == checked(
                i as nat,
                old(self).scratches().len(),
                old(input)@.len(),
                old(self).spec_len() as nat,
            ),
            result is Err ==> final(input)@ == old(input)@ && final(self).scratches() == old(self).scratches(),
            result is Ok ==> exists|b: &mut [Complex<T>], s: &mut [Complex<T>]|
                {
                    &&& #[trigger] old(self).spec_plan().inverse_ran(b, s)
                    &&& b@ == old(input)@
                    &&& final(b)@ == final(input)@
                    &&& s@ == old(self).scratches()[i as int]
                    &&& final(s)@ == final(self).scratches()[i as int]
                },
    {
        match self.check(input.len(), i) {
            Err(e) => Err(e),
            Ok(()) => {
                match self.pool.acquire(i) {
                    Err(e) => Err(e),
                    Ok(scratch) => {
                        self.plan.apply_inverse(input, scratch);
                        Ok(())
                    },
                }
            },
        }
    }
}

impl<T: FftNum + Float> CepFft<T> {
    /// An engine for signals of `len` samples with a single instance, whose
    /// scratch buffer is filled with the zero sample.
    pub fn new(len: usize) -> (fft: Self)
        requires
            len >= 1,
        ensures
            fft.wf(),
            fft.spec_len() == len,
            fft.spec_plan().planned_for(len),
            is_complex_zero(fft.zero()),
            fft.scratches() == seq![filled_with(fft.spec_scratch_len() as nat, fft.zero())],
    {
        let plan = TransformPlan::construct(len);
        let pool = ScratchPool::new(plan.required_scratch_len(), complex_zero());
        CepFft { plan, pool }
    }

    /// Makes the engine transform signals of `len` samples. With the length
    /// it already has nothing changes; otherwise the transforms are planned
    /// anew and every scratch buffer is cut or zero-padded to what the new
    /// plan asks for.
    pub fn set_len(&mut self, len: usize)
        requires
            old(self).wf(),
            len >= 1,
        ensures
            final(self).wf(),
            final(self).spec_len() == len,
            final(self).zero() == old(self).zero(),
            len == old(self).spec_len() ==> *final(self) == *old(self),
            len != old(self).spec_len() ==> final(self).spec_plan().planned_for(len),
            final(self).scratches() == Seq::new(
                old(self).scratches().len(),
                |i: int| resized(old(self).scratches()[i], final(self).spec_scratch_len() as nat, old(self).zero()),
            ),
    {
        if len == self.plan.len() {
            proof {
                let kept = Seq::new(
                    self.scratches().len(),
                    |i: int| resized(self.scratches()[i], self.spec_scratch_len() as nat, self.zero()),
                );
                assert forall|i: int| 0 <= i < self.scratches().len() implies self.scratches()[i] == kept[i] by {
                    lemma_resized_to_own_len(self.scratches()[i], self.zero());
                }
                assert(self.scratches() =~= kept);
            }
            return ;
        }
        self.plan = TransformPlan::construct(len);
        self.pool.resize_all(self.plan.required_scratch_len());
    }
}

} // verus!
