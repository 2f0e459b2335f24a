//! The Hamming window: sample `i` of `len` is weighed by
//! `0.54 − 0.46 · cos(2π·i / (len − 1))`.

use crate::conversions::{from_real, is_complex_from, real_parts};
use crate::windows::{
    from_count, is_count, is_difference, is_phase_cosine, is_product, is_quotient, minus, over, phase_cosine, times,
};
use rustfft::num_complex::Complex;
use rustfft::num_traits::{AsPrimitive, Float, FloatConst};
use vstd::prelude::*;

verus! {

/// The counts from which the two constants of the window are formed:
/// `offset` is `27 / 50` and `swing` is `23 / 50`, each a quotient of the
/// counts as numbers.
pub open spec fn hamming_constants<T>(offset: T, swing: T) -> bool {
    exists|high: T, low: T, whole: T| #[trigger]
        hamming_constant_steps(high, low, whole, offset, swing)
}

/// `high`, `low` and `whole` are the counts 27, 23 and 50 as numbers,
/// `offset` is `high / whole` and `swing` is `low / whole`.
pub open spec fn hamming_constant_steps<T>(high: T, low: T, whole: T, offset: T, swing: T) -> bool {
    &&& is_count(27, high)
    &&& is_count(23, low)
    &&& is_count(50, whole)
    &&& is_quotient(high, whole, offset)
    &&& is_quotient(low, whole, swing)
}

/// The steps from the cosine of a phase to its Hamming weight: with the
/// constants `offset` and `swing`, `scaled` is `swing * cosine` and `weight`
/// is `offset - scaled`.
pub open spec fn hamming_weight_steps<T>(cosine: T, offset: T, swing: T, scaled: T, weight: T) -> bool {
    &&& hamming_constants(offset, swing)
    &&& is_product(swing, cosine, scaled)
    &&& is_difference(offset, scaled, weight)
}

/// `weight` is the Hamming weight `0.54 − 0.46 · cosine`.
pub open spec fn is_hamming_weight<T>(cosine: T, weight: T) -> bool {
    exists|offset: T, swing: T, scaled: T| #[trigger] hamming_weight_steps(cosine, offset, swing, scaled, weight)
}

/// `cosine` is the cosine of the phase of sample `i` in a window of `len`
/// samples, `weight` is its Hamming weight, and `weighed` is `sample` times
/// that weight.
pub open spec fn hamming_weighed_by<T: Float + FloatConst>(
    sample: T,
    i: usize,
    len: usize,
    cosine: T,
    weight: T,
    weighed: T,
) -> bool {
    &&& is_phase_cosine(i, len, cosine)
    &&& is_hamming_weight(cosine, weight)
    &&& is_product(sample, weight, weighed)
}

/// `weighed` is `sample` weighed as sample `i` of a Hamming window of `len`
/// samples: `sample · (0.54 − 0.46 · c)`, where `c` is the cosine of the
/// phase `2π·i / (len − 1)`.
pub open spec fn is_hamming_weighed<T: Float + FloatConst>(sample: T, i: usize, len: usize, weighed: T) -> bool {
    exists|cosine: T, weight: T| #[trigger] hamming_weighed_by(sample, i, len, cosine, weight, weighed)
}

/// `windowed` is `before` under a Hamming window: sample `i` is the one
/// that `_hamming` gave for sample `i` of `before` at place `i` of the
/// length of `before`.
pub open spec fn is_hamming_windowed<T: Float + FloatConst + 'static>(before: Seq<T>, windowed: Seq<T>) -> bool where
    usize: AsPrimitive<T>,
 {
    &&& windowed.len() == before.len()
    &&& forall|i: int|
        0 <= i < before.len() ==> {
            &&& call_ensures(_hamming::<T>, (&before[i], i as usize, before.len() as usize), #[trigger] windowed[i])
            &&& is_hamming_weighed(before[i], i as usize, before.len() as usize, windowed[i])
        }
}

/// The Hamming weight `0.54 − 0.46 · cosine` of the cosine of a phase.
pub fn hamming_weight<T: Float + 'static>(cosine: T) -> (weight: T) where usize: AsPrimitive<T>
    ensures
        is_hamming_weight(cosine, weight),
{
    let high: T = from_count(27);
    let low: T = from_count(23);
    let whole: T = from_count(50);
    let offset: T = over(high, whole);
    let swing: T = over(low, whole);
    assert(hamming_constant_steps(high, low, whole, offset, swing));
    let scaled: T = times(swing, cosine);
    let weight: T = minus(offset, scaled);
    assert(hamming_weight_steps(cosine, offset, swing, scaled, weight));
    weight
}

/// `sample` weighed as sample `i` of a Hamming window of `len` samples.
pub fn _hamming<T: Float + FloatConst + 'static>(sample: &T, i: usize, len: usize) -> (weighed: T) where
    usize: AsPrimitive<T>,

    requires
        len >= 1,
    ensures
        is_hamming_weighed(*sample, i, len, weighed),
{
    let cosine: T = phase_cosine(i, len);
    let weight: T = hamming_weight(cosine);
    let weighed: T = times(*sample, weight);
    assert(hamming_weighed_by(*sample, i, len, cosine, weight, weighed));
    weighed
}

/// Applies a Hamming window to `this` in place: sample `i` is replaced by what
/// `_hamming` gives for it at place `i` of the length of `this`.
pub fn hamming<T: Float + FloatConst + 'static>(this: &mut [T]) where usize: AsPrimitive<T>
    ensures
        is_hamming_windowed(old(this)@, final(this)@),
{
    let len = this.len();
    let mut i: usize = 0;
    while i < len
        invariant
            i <= len,
            this@.len() == len,
            len == old(this)@.len(),
            forall|j: int|
                0 <= j < i ==> {
                    &&& call_ensures(_hamming::<T>, (&old(this)@[j], j as usize, len), #[trigger] this@[j])
                    &&& is_hamming_weighed(old(this)@[j], j as usize, len, this@[j])
                },
            forall|j: int| i <= j < len ==> #[trigger] this@[j] == old(this)@[j],
        decreases len - i,
    {
        let weighed = _hamming(&this[i], i, len);
        this[i] = weighed;
        i = i + 1;
    }
}

/// The samples of `this` under a Hamming window, as complex numbers: sample
/// `i` is what `Complex::from` makes of what `_hamming` gives for sample `i` of
/// `this` at place `i` of the length of `this`.
pub fn hamming_complex<T: Float + FloatConst + 'static>(this: &[T]) -> (windowed: Vec<Complex<T>>) where
    usize: AsPrimitive<T>,

    ensures
        is_hamming_windowed(this@, real_parts(windowed@)),
        forall|i: int| 0 <= i < this@.len() ==> is_complex_from(windowed@[i].re, #[trigger] windowed@[i]),
{
    let len = this.len();
    let mut windowed: Vec<Complex<T>> = Vec::with_capacity(len);
    let mut i: usize = 0;
    while i < len
        invariant
            i <= len,
            len == this@.len(),
            windowed@.len() == i,
            forall|j: int|
                0 <= j < i ==> {
                    &&& call_ensures(_hamming::<T>, (&this@[j], j as usize, len), (#[trigger] windowed@[j]).re)
                    &&& is_hamming_weighed(this@[j], j as usize, len, windowed@[j].re)
                    &&& is_complex_from(windowed@[j].re, windowed@[j])
                },
        decreases len - i,
    {
        let weighed = _hamming(&this[i], i, len);
        windowed.push(from_real(weighed));
        i = i + 1;
    }
    windowed
}

/// Applies a Hamming window to the real parts of `this` in place: the real
/// part of sample `i` is replaced by what `_hamming` gives for it at place `i`
/// of the length of `this`; the imaginary parts stay as they are.
pub fn hamming_mut<T: Float + FloatConst + 'static>(this: &mut [Complex<T>]) where usize: AsPrimitive<T>
    ensures
        is_hamming_windowed(real_parts(old(this)@), real_parts(final(this)@)),
        forall|i: int| 0 <= i < old(this)@.len() ==> (#[trigger] final(this)@[i]).im == old(this)@[i].im,
{
    let len = this.len();
    let mut i: usize = 0;
    while i < len
        invariant
            i <= len,
            this@.len() == len,
            len == old(this)@.len(),
            forall|j: int| 0 <= j < len ==> (#[trigger] this@[j]).im == old(this)@[j].im,
            forall|j: int|
                0 <= j < i ==> {
                    &&& call_ensures(_hamming::<T>, (&old(this)@[j].re, j as usize, len), (#[trigger] this@[j]).re)
                    &&& is_hamming_weighed(old(this)@[j].re, j as usize, len, this@[j].re)
                },
            forall|j: int| i <= j < len ==> #[trigger] this@[j] == old(this)@[j],
        decreases len - i,
    {
        let weighed = Complex { re: _hamming(&this[i].re, i, len), im: this[i].im };
        this[i] = weighed;
        i = i + 1;
    }
}

/// The samples of `this` with a Hamming window on their real parts: the real
/// part of sample `i` is what `_hamming` gives for that of `this` at place `i`
/// of the length of `this`; the imaginary parts are those of `this`.
pub fn hamming_windowed<T: Float + FloatConst + 'static>(this: &[Complex<T>]) -> (windowed: Vec<Complex<T>>) where
    usize: AsPrimitive<T>,

    ensures
        is_hamming_windowed(real_parts(this@), real_parts(windowed@)),
        forall|i: int| 0 <= i < this@.len() ==> (#[trigger] windowed@[i]).im == this@[i].im,
{
    let len = this.len();
    let mut windowed: Vec<Complex<T>> = Vec::with_capacity(len);
    let mut i: usize = 0;
    while i < len
        invariant
            i <= len,
            len == this@.len(),
            windowed@.len() == i,
            forall|j: int| 0 <= j < i ==> (#[trigger] windowed@[j]).im == this@[j].im,
            forall|j: int|
                0 <= j < i ==> {
                    &&& call_ensures(_hamming::<T>, (&this@[j].re, j as usize, len), (#[trigger] windowed@[j]).re)
                    &&& is_hamming_weighed(this@[j].re, j as usize, len, windowed@[j].re)
                },
        decreases len - i,
    {
        windowed.push(Complex { re: _hamming(&this[i].re, i, len), im: this[i].im });
        i = i + 1;
    }
    windowed
}

} // verus!
