//! The Hann window: sample `i` of `len` is weighed by
//! `0.5 · (1 − cos(2π·i / (len − 1)))`.

use crate::conversions::{from_real, is_complex_from, real_parts};
use crate::windows::{
    from_count, is_count, is_difference, is_phase_cosine, is_product, is_quotient, minus, over, phase_cosine, times,
};
use rustfft::num_complex::Complex;
use rustfft::num_traits::{AsPrimitive, Float, FloatConst};
use vstd::prelude::*;

verus! {

/// The steps from the cosine of a phase to its Hann weight: `one` and `two`
/// are the counts 1 and 2 as numbers, `half` is `one / two`, `rest` is
/// `one - cosine`, and `weight` is `half * rest`.
pub open spec fn hann_weight_steps<T>(cosine: T, one: T, two: T, half: T, rest: T, weight: T) -> bool {
    &&& is_count(1, one)
    &&& is_count(2, two)
    &&& is_quotient(one, two, half)
    &&& is_difference(one, cosine, rest)
    &&& is_product(half, rest, weight)
}

/// `weight` is the Hann weight `0.5 · (1 − cosine)`.
pub open spec fn is_hann_weight<T>(cosine: T, weight: T) -> bool {
    exists|one: T, two: T, half: T, rest: T| #[trigger] hann_weight_steps(cosine, one, two, half, rest, weight)
}

/// `cosine` is the cosine of the phase of sample `i` in a window of `len`
/// samples, `weight` is its Hann weight, and `weighed` is `sample` times
/// that weight.
pub open spec fn hann_weighed_by<T: Float + FloatConst>(
    sample: T,
    i: usize,
    len: usize,
    cosine: T,
    weight: T,
    weighed: T,
) -> bool {
    &&& is_phase_cosine(i, len, cosine)
    &&& is_hann_weight(cosine, weight)
    &&& is_product(sample, weight, weighed)
}

/// `weighed` is `sample` weighed as sample `i` of a Hann window of `len`
/// samples: `sample · 0.5 · (1 − c)`, where `c` is the cosine of the
/// phase `2π·i / (len − 1)`.
pub open spec fn is_hann_weighed<T: Float + FloatConst>(sample: T, i: usize, len: usize, weighed: T) -> bool {
    exists|cosine: T, weight: T| #[trigger] hann_weighed_by(sample, i, len, cosine, weight, weighed)
}

/// `windowed` is `before` under a Hann window: sample `i` is the one
/// that `_hann` gave for sample `i` of `before` at place `i` of the
/// length of `before`.
pub open spec fn is_hann_windowed<T: Float + FloatConst + 'static>(before: Seq<T>, windowed: Seq<T>) -> bool where
    usize: AsPrimitive<T>,
 {
    &&& windowed.len() == before.len()
    &&& forall|i: int|
        0 <= i < before.len() ==> {
            &&& call_ensures(_hann::<T>, (&before[i], i as usize, before.len() as usize), #[trigger] windowed[i])
            &&& is_hann_weighed(before[i], i as usize, before.len() as usize, windowed[i])
        }
}

/// The Hann weight `0.5 · (1 − cosine)` of the cosine of a phase.
pub fn hann_weight<T: Float + 'static>(cosine: T) -> (weight: T) where usize: AsPrimitive<T>
    ensures
        is_hann_weight(cosine, weight),
{
    let one: T = from_count(1);
    let two: T = from_count(2);
    let half: T = over(one, two);
    let rest: T = minus(one, cosine);
    let weight: T = times(half, rest);
    assert(hann_weight_steps(cosine, one, two, half, rest, weight));
    weight
}

/// `sample` weighed as sample `i` of a Hann window of `len` samples.
pub fn _hann<T: Float + FloatConst + 'static>(sample: &T, i: usize, len: usize) -> (weighed: T) where
    usize: AsPrimitive<T>,

    requires
        len >= 1,
    ensures
        is_hann_weighed(*sample, i, len, weighed),
{
    let cosine: T = phase_cosine(i, len);
    let weight: T = hann_weight(cosine);
    let weighed: T = times(*sample, weight);
    assert(hann_weighed_by(*sample, i, len, cosine, weight, weighed));
    weighed
}

/// Applies a Hann window to `this` in place: sample `i` is replaced by what
/// `_hann` gives for it at place `i` of the length of `this`.
pub fn hann<T: Float + FloatConst + 'static>(this: &mut [T]) where usize: AsPrimitive<T>
    ensures
        is_hann_windowed(old(this)@, final(this)@),
{
    let len = this.len();
    let mut i: usize = 0;
    while i < len
        invariant
            i <= len,
            this@.len() == len,
            len == old(this)@.len(),
            forall|j: int|
                0 <= j < i ==> {
                    &&& call_ensures(_hann::<T>, (&old(this)@[j], j as usize, len), #[trigger] this@[j])
                    &&& is_hann_weighed(old(this)@[j], j as usize, len, this@[j])
                },
            forall|j: int| i <= j < len ==> #[trigger] this@[j] == old(this)@[j],
        decreases len - i,
    {
        let weighed = _hann(&this[i], i, len);
        this[i] = weighed;
        i = i + 1;
    }
}

/// The samples of `this` under a Hann window, as complex numbers: sample
/// `i` is what `Complex::from` makes of what `_hann` gives for sample `i` of
/// `this` at place `i` of the length of `this`.
pub fn hann_complex<T: Float + FloatConst + 'static>(this: &[T]) -> (windowed: Vec<Complex<T>>) where
    usize: AsPrimitive<T>,

    ensures
        is_hann_windowed(this@, real_parts(windowed@)),
        forall|i: int| 0 <= i < this@.len() ==> is_complex_from(windowed@[i].re, #[trigger] windowed@[i]),
{
    let len = this.len();
    let mut windowed: Vec<Complex<T>> = Vec::with_capacity(len);
    let mut i: usize = 0;
    while i < len
        invariant
            i <= len,
            len == this@.len(),
            windowed@.len() == i,
            forall|j: int|
                0 <= j < i ==> {
                    &&& call_ensures(_hann::<T>, (&this@[j], j as usize, len), (#[trigger] windowed@[j]).re)
                    &&& is_hann_weighed(this@[j], j as usize, len, windowed@[j].re)
                    &&& is_complex_from(windowed@[j].re, windowed@[j])
                },
        decreases len - i,
    {
        let weighed = _hann(&this[i], i, len);
        windowed.push(from_real(weighed));
        i = i + 1;
    }
    windowed
}

/// Applies a Hann window to the real parts of `this` in place: the real
/// part of sample `i` is replaced by what `_hann` gives for it at place `i`
/// of the length of `this`; the imaginary parts stay as they are.
pub fn hann_mut<T: Float + FloatConst + 'static>(this: &mut [Complex<T>]) where usize: AsPrimitive<T>
    ensures
        is_hann_windowed(real_parts(old(this)@), real_parts(final(this)@)),
        forall|i: int| 0 <= i < old(this)@.len() ==> (#[trigger] final(this)@[i]).im == old(this)@[i].im,
{
    let len = this.len();
    let mut i: usize = 0;
    while i < len
        invariant
            i <= len,
            this@.len() == len,
            len == old(this)@.len(),
            forall|j: int| 0 <= j < len ==> (#[trigger] this@[j]).im == old(this)@[j].im,
            forall|j: int|
                0 <= j < i ==> {
                    &&& call_ensures(_hann::<T>, (&old(this)@[j].re, j as usize, len), (#[trigger] this@[j]).re)
                    &&& is_hann_weighed(old(this)@[j].re, j as usize, len, this@[j].re)
                },
            forall|j: int| i <= j < len ==> #[trigger] this@[j] == old(this)@[j],
        decreases len - i,
    {
        let weighed = Complex { re: _hann(&this[i].re, i, len), im: this[i].im };
        this[i] = weighed;
        i = i + 1;
    }
}

/// The samples of `this` with a Hann window on their real parts: the real
/// part of sample `i` is what `_hann` gives for that of `this` at place `i`
/// of the length of `this`; the imaginary parts are those of `this`.
pub fn hann_windowed<T: Float + FloatConst + 'static>(this: &[Complex<T>]) -> (windowed: Vec<Complex<T>>) where
    usize: AsPrimitive<T>,

    ensures
        is_hann_windowed(real_parts(this@), real_parts(windowed@)),
        forall|i: int| 0 <= i < this@.len() ==> (#[trigger] windowed@[i]).im == this@[i].im,
{
    let len = this.len();
    let mut windowed: Vec<Complex<T>> = Vec::with_capacity(len);
    let mut i: usize = 0;
    while i < len
        invariant
            i <= len,
            len == this@.len(),
            windowed@.len() == i,
            forall|j: int| 0 <= j < i ==> (#[trigger] windowed@[j]).im == this@[j].im,
            forall|j: int|
                0 <= j < i ==> {
                    &&& call_ensures(_hann::<T>, (&this@[j].re, j as usize, len), (#[trigger] windowed@[j]).re)
                    &&& is_hann_weighed(this@[j].re, j as usize, len, windowed@[j].re)
                },
        decreases len - i,
    {
        windowed.push(Complex { re: _hann(&this[i].re, i, len), im: this[i].im });
        i = i + 1;
    }
    windowed
}

} // verus!
