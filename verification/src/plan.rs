//! The planned forward and inverse transforms of one fixed length.

use rustfft::num_complex::Complex;
use rustfft::num_traits::Float;
use rustfft::{FftNum, FftPlanner};
use vstd::prelude::*;

verus! {

/// `num_complex::Complex`, declared with its two public fields: the real
/// part `re` and the imaginary part `im`.
#[verifier::external_type_specification]
#[verifier::reject_recursive_types(T)]
pub struct ExComplex<T>(Complex<T>);

/// One planned `rustfft` transform, ready to run in place on a buffer with a
/// scratch buffer. It is kept behind a boxed closure, so that a plan can be
/// named without a bound on the number type; what it holds is hidden from
/// the verifier.
#[verifier::external_body]
#[verifier::reject_recursive_types(T)]
pub struct Transform<T> {
    run: Box<dyn Fn(&mut [Complex<T>], &mut [Complex<T>]) + Send + Sync>,
}

/// A forward and an inverse transform for buffers of exactly `len` samples,
/// with the scratch space that each needs to run in place. A plan is made by
/// `construct` alone, so one exists only for a floating-point number type.
#[verifier::reject_recursive_types(T)]
pub struct TransformPlan<T> {
    len: usize,
    forward_scratch_len: usize,
    inverse_scratch_len: usize,
    forward: Transform<T>,
    inverse: Transform<T>,
}

/// Plans both transforms with a fresh `rustfft::FftPlanner`
/// (`plan_fft_forward`, `plan_fft_inverse`) and records beside each the
/// scratch length it reports through `get_inplace_scratch_len`.
/// Trusted: the plan is for `len` samples. The number type is bounded by
/// `Float`, because the planner converts counts into it and gives up on a
/// type that cannot hold them.
#[verifier::external_body]
fn plan_transforms<T: FftNum + Float>(len: usize) -> (plan: TransformPlan<T>)
    requires
        len >= 1,
    ensures
        plan.len == len,
{
    let mut planner = FftPlanner::<T>::new();
    let forward = planner.plan_fft_forward(len);
    let inverse = planner.plan_fft_inverse(len);
    TransformPlan {
        len,
        forward_scratch_len: forward.get_inplace_scratch_len(),
        inverse_scratch_len: inverse.get_inplace_scratch_len(),
        forward: Transform { run: Box::new(move |buffer, scratch| forward.process_with_scratch(buffer, scratch)) },
        inverse: Transform { run: Box::new(move |buffer, scratch| inverse.process_with_scratch(buffer, scratch)) },
    }
}

/// Runs `Fft::process_with_scratch` of the planned forward transform.
/// Trusted: given a buffer of the planned length and at least the recorded
/// scratch space, the call returns; on a floating-point number type its
/// arithmetic cannot overflow. Which samples it leaves in `buffer` and in
/// `scratch` is not specified.
#[verifier::external_body]
fn run_forward<T: Float>(plan: &TransformPlan<T>, buffer: &mut [Complex<T>], scratch: &mut [Complex<T>])
    requires
        old(buffer)@.len() == plan.len,
        old(scratch)@.len() >= plan.forward_scratch_len,
    ensures
        final(buffer)@.len() == old(buffer)@.len(),
        final(scratch)@.len() == old(scratch)@.len(),
{
    (plan.forward.run)(buffer, scratch);
}

/// Runs `Fft::process_with_scratch` of the planned inverse transform.
/// Trusted as for the forward transform, with the inverse's scratch space.
#[verifier::external_body]
fn run_inverse<T: Float>(plan: &TransformPlan<T>, buffer: &mut [Complex<T>], scratch: &mut [Complex<T>])
    requires
        old(buffer)@.len() == plan.len,
        old(scratch)@.len() >= plan.inverse_scratch_len,
    ensures
        final(buffer)@.len() == old(buffer)@.len(),
        final(scratch)@.len() == old(scratch)@.len(),
{
    (plan.inverse.run)(buffer, scratch);
}

impl<T> TransformPlan<T> {
    /// The number of samples the transforms take.
    pub closed spec fn spec_len(&self) -> usize {
        self.len
    }

    /// The scratch space that is enough for either transform.
    pub closed spec fn spec_required_scratch_len(&self) -> usize {
        if self.forward_scratch_len >= self.inverse_scratch_len {
            self.forward_scratch_len
        } else {
            self.inverse_scratch_len
        }
    }

    /// The number of samples the transforms take.
    #[verifier::when_used_as_spec(spec_len)]
    pub fn len(&self) -> (len: usize)
        ensures
            len == self.spec_len(),
    {
        self.len
    }

    /// The scratch space that is enough for either transform.
    #[verifier::when_used_as_spec(spec_required_scratch_len)]
    pub fn required_scratch_len(&self) -> (len: usize)
        ensures
            len == self.spec_required_scratch_len(),
    {
        if self.forward_scratch_len >= self.inverse_scratch_len {
            self.forward_scratch_len
        } else {
            self.inverse_scratch_len
        }
    }
}

impl<T: Float> TransformPlan<T> {
    /// The planned forward transform was run on `buffer` with `scratch`:
    /// what `buffer` holds at the end is what that run left in it.
    pub closed spec fn forward_ran(&self, buffer: &mut [Complex<T>], scratch: &mut [Complex<T>]) -> bool {
        call_ensures(run_forward::<T>, (self, buffer, scratch), ())
    }

    /// The planned inverse transform was run on `buffer` with `scratch`:
    /// what `buffer` holds at the end is what that run left in it.
    pub closed spec fn inverse_ran(&self, buffer: &mut [Complex<T>], scratch: &mut [Complex<T>]) -> bool {
        call_ensures(run_inverse::<T>, (self, buffer, scratch), ())
    }

    /// Transforms `buffer` forward in place, using `scratch`: both end up as
    /// the run of the planned forward transform on them left them.
    pub fn apply_forward(&self, buffer: &mut [Complex<T>], scratch: &mut [Complex<T>])
        requires
            old(buffer)@.len() == self.spec_len(),
            old(scratch)@.len() >= self.spec_required_scratch_len(),
        ensures
            final(buffer)@.len() == old(buffer)@.len(),
            final(scratch)@.len() == old(scratch)@.len(),
            exists|b: &mut [Complex<T>], s: &mut [Complex<T>]|
                {
                    &&& #[trigger] self.forward_ran(b, s)
                    &&& b@ == old(buffer)@
                    &&& final(b)@ == final(buffer)@
                    &&& s@ == old(scratch)@
                    &&& final(s)@ == final(scratch)@
                },
    {
        run_forward(self, buffer, scratch);
        proof {
            let (b, s) = choose|b: &mut [Complex<T>], s: &mut [Complex<T>]|
                {
                    &&& call_ensures(run_forward::<T>, (self, b, s), ())
                    &&& b@ == old(buffer)@
                    &&& final(b)@ == buffer@
                    &&& s@ == old(scratch)@
                    &&& final(s)@ == scratch@
                };
            assert(self.forward_ran(b, s));
        }
    }

    /// Transforms `buffer` backward in place, using `scratch`: both end up
    /// as the run of the planned inverse transform on them left them.
    pub fn apply_inverse(&self, buffer: &mut [Complex<T>], scratch: &mut [Complex<T>])
        requires
            old(buffer)@.len() == self.spec_len(),
            old(scratch)@.len() >= self.spec_required_scratch_len(),
        ensures
            final(buffer)@.len() == old(buffer)@.len(),
            final(scratch)@.len() == old(scratch)@.len(),
            exists|b: &mut [Complex<T>], s: &mut [Complex<T>]|
                {
                    &&& #[trigger] self.inverse_ran(b, s)
                    &&& b@ == old(buffer)@
                    &&& final(b)@ == final(buffer)@
                    &&& s@ == old(scratch)@
                    &&& final(s)@ == final(scratch)@
                },
    {
        run_inverse(self, buffer, scratch);
        proof {
            let (b, s) = choose|b: &mut [Complex<T>], s: &mut [Complex<T>]|
                {
                    &&& call_ensures(run_inverse::<T>, (self, b, s), ())
                    &&& b@ == old(buffer)@
                    &&& final(b)@ == buffer@
                    &&& s@ == old(scratch)@
                    &&& final(s)@ == scratch@
                };
            assert(self.inverse_ran(b, s));
        }
    }
}

impl<T: FftNum + Float> TransformPlan<T> {
    /// `self` is the plan that planning the two transforms for `len` samples
    /// gave, with the scratch lengths that were reported for them.
    pub closed spec fn planned_for(&self, len: usize) -> bool {
        call_ensures(plan_transforms::<T>, (len,), *self)
    }

    /// Plans the transforms for `len` samples.
    pub fn construct(len: usize) -> (plan: Self)
        requires
            len >= 1,
        ensures
            plan.spec_len() == len,
            plan.planned_for(len),
    {
        plan_transforms(len)
    }
}

} // verus!
