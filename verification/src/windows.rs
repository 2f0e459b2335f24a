//! Window functions, applied to a signal before it is handed to the
//! extractor.
//!
//! Both windows weigh sample `i` of `len` by a raised cosine of the phase
//! `2π·i / (len − 1)`.
//!
//! Floating-point arithmetic is not assumed to be a function of its
//! operands. The contracts here speak of it through the relations that
//! `vstd` states of the arithmetic operators and of the `as` conversion:
//! a number *is a* product, difference or quotient of two others, or *is a*
//! conversion of a count. Of π and of a cosine they say which call made
//! them.

pub mod hamming;
pub mod hann;

use rustfft::num_traits::{AsPrimitive, Float, FloatConst};
use vstd::float::float_cast_spec;
use vstd::prelude::*;
use vstd::std_specs::ops::{div_ensures, mul_ensures, sub_ensures};

verus! {

/// `value` is `count` converted to the number type, as `as` converts.
pub open spec fn is_count<T>(count: usize, value: T) -> bool {
    float_cast_spec::<usize, T>(count, value)
}

/// `product` is `a * b` in the number type.
pub open spec fn is_product<T>(a: T, b: T, product: T) -> bool {
    mul_ensures::<T>(a, b, product)
}

/// `difference` is `a - b` in the number type.
pub open spec fn is_difference<T>(a: T, b: T, difference: T) -> bool {
    sub_ensures::<T>(a, b, difference)
}

/// `quotient` is `a / b` in the number type.
pub open spec fn is_quotient<T>(a: T, b: T, quotient: T) -> bool {
    div_ensures::<T>(a, b, quotient)
}

/// Converts a count to a number with `AsPrimitive::as_`, which `num_traits`
/// defines as the `as` operator. Trusted: the number that comes back is a
/// conversion of the count.
#[verifier::external_body]
pub(crate) fn from_count<T: Copy + 'static>(count: usize) -> (value: T) where usize: AsPrimitive<T>
    ensures
        is_count(count, value),
{
    count.as_()
}

/// Calls `FloatConst::PI`. The contract claims nothing of the number that
/// comes back.
#[verifier::external_body]
pub(crate) fn pi<T: FloatConst>() -> (value: T) {
    T::PI()
}

/// Calls `Float::cos`. The contract claims nothing of the number that comes
/// back.
#[verifier::external_body]
pub(crate) fn cosine<T: Float>(x: T) -> (value: T) {
    x.cos()
}

/// The operator `*` of the number type. Trusted: the number that comes back
/// is a product of the operands.
#[verifier::external_body]
pub(crate) fn times<T: Float>(a: T, b: T) -> (value: T)
    ensures
        is_product(a, b, value),
{
    a * b
}

/// The operator `-` of the number type. Trusted: the number that comes back
/// is a difference of the operands.
#[verifier::external_body]
pub(crate) fn minus<T: Float>(a: T, b: T) -> (value: T)
    ensures
        is_difference(a, b, value),
{
    a - b
}

/// The operator `/` of the number type. Trusted: the number that comes back
/// is a quotient of the operands.
#[verifier::external_body]
pub(crate) fn over<T: Float>(a: T, b: T) -> (value: T)
    ensures
        is_quotient(a, b, value),
{
    a / b
}

/// `value` is the number that `FloatConst::PI` gave.
pub closed spec fn is_pi<T: FloatConst>(value: T) -> bool {
    call_ensures(pi::<T>, (), value)
}

/// `value` is the cosine that was computed of `x`.
pub closed spec fn is_cosine<T: Float>(x: T, value: T) -> bool {
    call_ensures(cosine::<T>, (x,), value)
}

/// The steps to the phase of sample `i` in a window of `len` samples: `pi`
/// is π in the number type, `two`, `place` and `span` are the counts 2, `i`
/// and `len − 1` as numbers, `turn` is `pi * two`, `angle` is
/// `turn * place`, and `phase` is `angle / span`.
pub open spec fn phase_steps<T: FloatConst>(
    i: usize,
    len: usize,
    pi: T,
    two: T,
    turn: T,
    place: T,
    angle: T,
    span: T,
    phase: T,
) -> bool {
    &&& is_pi(pi)
    &&& is_count(2, two)
    &&& is_product(pi, two, turn)
    &&& is_count(i, place)
    &&& is_product(turn, place, angle)
    &&& is_count((len - 1) as usize, span)
    &&& is_quotient(angle, span, phase)
}

/// `phase` is `π · 2 · i / (len − 1)`, evaluated from left to right.
pub open spec fn is_phase<T: FloatConst>(i: usize, len: usize, phase: T) -> bool {
    exists|pi: T, two: T, turn: T, place: T, angle: T, span: T| #[trigger]
        phase_steps(i, len, pi, two, turn, place, angle, span, phase)
}

/// `value` is together with `phase` the cosine of the phase of sample `i`
/// in a window of `len` samples.
pub open spec fn phase_cosine_steps<T: Float + FloatConst>(i: usize, len: usize, phase: T, value: T) -> bool {
    is_phase(i, len, phase) && is_cosine(phase, value)
}

/// `value` is `cos(π · 2 · i / (len − 1))`: the cosine that was computed of
/// the phase of sample `i` in a window of `len` samples.
pub open spec fn is_phase_cosine<T: Float + FloatConst>(i: usize, len: usize, value: T) -> bool {
    exists|phase: T| #[trigger] phase_cosine_steps(i, len, phase, value)
}

/// The phase of sample `i` in a window of `len` samples.
pub(crate) fn phase<T: Float + FloatConst + 'static>(i: usize, len: usize) -> (phase: T) where
    usize: AsPrimitive<T>,

    requires
        len >= 1,
    ensures
        is_phase(i, len, phase),
{
    let pi: T = pi();
    let two: T = from_count(2);
    let turn: T = times(pi, two);
    let place: T = from_count(i);
    let angle: T = times(turn, place);
    let span: T = from_count(len - 1);
    let phase: T = over(angle, span);
    assert(phase_steps(i, len, pi, two, turn, place, angle, span, phase));
    phase
}

/// The cosine of the phase of sample `i` in a window of `len` samples:
/// `cos(π · 2 · i / (len − 1))`.
pub(crate) fn phase_cosine<T: Float + FloatConst + 'static>(i: usize, len: usize) -> (value: T) where
    usize: AsPrimitive<T>,

    requires
        len >= 1,
    ensures
        is_phase_cosine(i, len, value),
{
    let phase: T = phase(i, len);
    let value: T = cosine(phase);
    assert(phase_cosine_steps(i, len, phase, value));
    value
}

} // verus!
