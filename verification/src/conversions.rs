//! Conversions between real and complex samples.

use rustfft::num_complex::Complex;
use rustfft::num_traits::Num;
use vstd::prelude::*;

verus! {

/// The real parts of `samples`, in order.
pub open spec fn real_parts<T>(samples: Seq<Complex<T>>) -> Seq<T> {
    Seq::new(samples.len(), |i: int| samples[i].re)
}

/// Turns a slice of complex numbers into real numbers.
pub trait ComplexToReal<T> {
    /// The real parts of the samples, in order.
    spec fn spec_real_parts(&self) -> Seq<T>;

    /// A vector of the real parts of the samples, in order.
    fn to_real_vec(&self) -> (reals: Vec<T>)
        ensures
            reals@ == self.spec_real_parts(),
    ;
}

/// Calls `Complex::from` on a real number, which `num_complex` defines as
/// the complex number with that real part and `T::zero()` beside it.
/// Trusted: the real part is the number given.
#[verifier::external_body]
fn complex_from<T: Copy + Num>(re: T) -> (sample: Complex<T>)
    ensures
        sample.re == re,
{
    Complex::from(re)
}

/// `sample` is the complex number that `Complex::from` made of the real
/// number `re`.
pub closed spec fn is_complex_from<T: Copy + Num>(re: T, sample: Complex<T>) -> bool {
    call_ensures(complex_from::<T>, (re,), sample)
}

/// The complex number that `Complex::from` makes of the real number `re`.
pub(crate) fn from_real<T: Copy + Num>(re: T) -> (sample: Complex<T>)
    ensures
        sample.re == re,
        is_complex_from(re, sample),
{
    complex_from(re)
}

/// A vector of the complex numbers that `Complex::from` makes of the numbers
/// of `this`, in order; their real parts are the numbers of `this`.
pub fn real_to_complex<T: Copy + Num>(this: &[T]) -> (samples: Vec<Complex<T>>)
    ensures
        real_parts(samples@) == this@,
        forall|i: int| 0 <= i < this@.len() ==> is_complex_from(this@[i], #[trigger] samples@[i]),
{
    let mut samples: Vec<Complex<T>> = Vec::with_capacity(this.len());
    let mut i: usize = 0;
    while i < this.len()
        invariant
            i <= this@.len(),
            samples@.len() == i,
            forall|j: int| 0 <= j < i ==> (#[trigger] samples@[j]).re == this@[j],
            forall|j: int| 0 <= j < i ==> is_complex_from(this@[j], #[trigger] samples@[j]),
        decreases this@.len() - i,
    {
        samples.push(from_real(this[i]));
        i = i + 1;
    }
    assert(real_parts(samples@) =~= this@);
    samples
}

/// A vector of the real parts of `this`, in order.
pub fn complex_to_real<T: Copy>(this: &[Complex<T>]) -> (reals: Vec<T>)
    ensures
        reals@ == real_parts(this@),
{
    let mut reals: Vec<T> = Vec::with_capacity(this.len());
    let mut i: usize = 0;
    while i < this.len()
        invariant
            i <= this@.len(),
            reals@ == real_parts(this@.take(i as int)),
        decreases this@.len() - i,
    {
        reals.push(this[i].re);
        assert(reals@ =~= real_parts(this@.take(i + 1)));
        i = i + 1;
    }
    assert(this@.take(this@.len() as int) =~= this@);
    reals
}

impl<T: Copy> ComplexToReal<T> for [Complex<T>] {
    open spec fn spec_real_parts(&self) -> Seq<T> {
        real_parts(self@)
    }

    fn to_real_vec(&self) -> (reals: Vec<T>) {
        complex_to_real(self)
    }
}

} // verus!
