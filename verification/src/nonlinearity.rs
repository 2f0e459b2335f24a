//! The two nonlinearities that stand between the forward and the inverse
//! transform, sample by sample.

use rustfft::num_complex::Complex;
use rustfft::num_traits::Float;
use vstd::prelude::*;

verus! {

/// Which cepstrum is extracted.
#[derive(Clone, Copy, Debug, PartialEq, Eq, Structural)]
pub enum Nonlinearity {
    /// The real cepstrum: the logarithm of the magnitude, phase discarded.
    RealLogMagnitude,
    /// The complex cepstrum: the principal complex logarithm.
    ComplexPrincipalLog,
}

/// What is put in place of one sample of the spectrum.
#[derive(Clone, Copy, Debug, PartialEq, Eq, Structural)]
pub enum Replacement {
    /// The zero sample.
    Zero,
    /// The sample itself.
    Unchanged,
    /// The natural logarithm of the sample's magnitude, as a real number.
    LogMagnitude,
    /// The principal natural logarithm of the sample.
    PrincipalLog,
}

/// The replacement of a sample under `kind`, given whether its real part
/// compares equal to zero. The test is on the real part, not on the
/// magnitude: a sample with a zero real part is never handed to a logarithm.
pub open spec fn replacement(kind: Nonlinearity, re_is_zero: bool) -> Replacement {
    match kind {
        Nonlinearity::RealLogMagnitude => if re_is_zero {
            Replacement::Zero
        } else {
            Replacement::LogMagnitude
        },
        Nonlinearity::ComplexPrincipalLog => if re_is_zero {
            Replacement::Unchanged
        } else {
            Replacement::PrincipalLog
        },
    }
}

/// Chooses the replacement of a sample under `kind`, given whether its real
/// part compares equal to zero.
pub fn choose_replacement(kind: Nonlinearity, re_is_zero: bool) -> (choice: Replacement)
    ensures
        choice == replacement(kind, re_is_zero),
{
    match kind {
        Nonlinearity::RealLogMagnitude => if re_is_zero {
            Replacement::Zero
        } else {
            Replacement::LogMagnitude
        },
        Nonlinearity::ComplexPrincipalLog => if re_is_zero {
            Replacement::Unchanged
        } else {
            Replacement::PrincipalLog
        },
    }
}

/// Calls `num_traits::Zero::is_zero`, which for a floating-point number
/// compares it with zero. The contract claims nothing of the answer.
#[verifier::external_body]
fn is_zero<T: Float>(value: &T) -> (answer: bool) {
    value.is_zero()
}

/// Calls `Complex::norm`, the magnitude of a sample. The contract claims
/// nothing of the number that comes back.
#[verifier::external_body]
fn magnitude<T: Float>(x: &Complex<T>) -> (norm: T) {
    x.norm()
}

/// Calls `num_traits::Float::ln`, the natural logarithm. The contract claims
/// nothing of the number that comes back.
#[verifier::external_body]
fn natural_log<T: Float>(value: T) -> (log: T) {
    value.ln()
}

/// Calls `Complex::ln`, the principal natural logarithm of a sample. The
/// contract claims nothing of the sample that comes back.
#[verifier::external_body]
fn principal_log<T: Float>(x: &Complex<T>) -> (log: Complex<T>) {
    x.ln()
}

/// `answer` is what the test of `value` against zero gave.
pub closed spec fn is_zero_test<T: Float>(value: T, answer: bool) -> bool {
    call_ensures(is_zero::<T>, (&value,), answer)
}

/// `log` is the natural logarithm that was computed of a magnitude that was
/// computed of `x`.
pub closed spec fn is_log_magnitude<T: Float>(x: Complex<T>, log: T) -> bool {
    exists|norm: T| #[trigger]
        call_ensures(magnitude::<T>, (&x,), norm) && call_ensures(natural_log::<T>, (norm,), log)
}

/// `log` is the principal natural logarithm that was computed of `x`.
pub closed spec fn is_principal_log<T: Float>(x: Complex<T>, log: Complex<T>) -> bool {
    call_ensures(principal_log::<T>, (&x,), log)
}

/// `out` is what `choice` puts in place of the sample `x`, where `zero` is
/// the zero sample: the zero sample, `x` itself, the logarithm of the
/// magnitude of `x` as a real number, or the principal logarithm of `x`.
pub open spec fn replaced<T: Float>(x: Complex<T>, choice: Replacement, zero: Complex<T>, out: Complex<T>) -> bool {
    match choice {
        Replacement::Zero => out == zero,
        Replacement::Unchanged => out == x,
        Replacement::LogMagnitude => is_log_magnitude(x, out.re) && out.im == zero.im,
        Replacement::PrincipalLog => is_principal_log(x, out),
    }
}

/// `out` is what the nonlinearity `kind` puts in place of the sample `x`:
/// the replacement that `kind` chooses for what the test of the real part
/// of `x` against zero gave.
pub open spec fn applied<T: Float>(kind: Nonlinearity, x: Complex<T>, zero: Complex<T>, out: Complex<T>) -> bool {
    exists|re_is_zero: bool| #[trigger]
        is_zero_test(x.re, re_is_zero) && replaced(x, replacement(kind, re_is_zero), zero, out)
}

/// `after` is `before` with the nonlinearity `kind` on every sample.
pub open spec fn applied_to_all<T: Float>(
    kind: Nonlinearity,
    before: Seq<Complex<T>>,
    zero: Complex<T>,
    after: Seq<Complex<T>>,
) -> bool {
    &&& after.len() == before.len()
    &&& forall|i: int| 0 <= i < before.len() ==> applied(kind, before[i], zero, #[trigger] after[i])
}

/// Where the test of a sample's real part against zero answers nothing but
/// yes, the nonlinearity puts in its place what it chooses for a zero real
/// part: the zero sample under the real kind, the sample itself under the
/// complex kind. No logarithm is taken.
pub proof fn lemma_zero_real_part<T: Float>(kind: Nonlinearity, x: Complex<T>, zero: Complex<T>, out: Complex<T>)
    requires
        applied(kind, x, zero, out),
        !is_zero_test(x.re, false),
    ensures
        replaced(x, replacement(kind, true), zero, out),
        kind == Nonlinearity::RealLogMagnitude ==> out == zero,
        kind == Nonlinearity::ComplexPrincipalLog ==> out == x,
{
    let re_is_zero = choose|re_is_zero: bool| #[trigger]
        is_zero_test(x.re, re_is_zero) && replaced(x, replacement(kind, re_is_zero), zero, out);
    assert(re_is_zero);
}

/// Where the test of every real part of a spectrum answers nothing but yes,
/// the real nonlinearity leaves nothing but zero samples.
pub proof fn lemma_real_of_zero_real_parts<T: Float>(before: Seq<Complex<T>>, zero: Complex<T>, after: Seq<Complex<T>>)
    requires
        applied_to_all(Nonlinearity::RealLogMagnitude, before, zero, after),
        forall|i: int| 0 <= i < before.len() ==> !is_zero_test(#[trigger] before[i].re, false),
    ensures
        after == Seq::new(before.len(), |i: int| zero),
{
    assert forall|i: int| 0 <= i < after.len() implies after[i] == zero by {
        lemma_zero_real_part(Nonlinearity::RealLogMagnitude, before[i], zero, after[i]);
    }
    assert(after =~= Seq::new(before.len(), |i: int| zero));
}

/// Puts `choice` into effect on the sample `x`; `zero` is the zero sample.
pub fn replace<T: Float>(x: &Complex<T>, choice: Replacement, zero: &Complex<T>) -> (out: Complex<T>)
    ensures
        replaced(*x, choice, *zero, out),
{
    match choice {
        Replacement::Zero => *zero,
        Replacement::Unchanged => *x,
        Replacement::LogMagnitude => {
            let norm = magnitude(x);
            let log = natural_log(norm);
            assert(is_log_magnitude(*x, log)) by {
                assert(call_ensures(magnitude::<T>, (x,), norm));
            }
            Complex { re: log, im: zero.im }
        },
        Replacement::PrincipalLog => principal_log(x),
    }
}

/// The nonlinearity `kind` on one sample of the spectrum.
pub fn apply<T: Float>(kind: Nonlinearity, x: &Complex<T>, zero: &Complex<T>) -> (out: Complex<T>)
    ensures
        applied(kind, *x, *zero, out),
        kind == Nonlinearity::RealLogMagnitude ==> out.im == zero.im,
{
    let re_is_zero = is_zero(&x.re);
    let out = replace(x, choose_replacement(kind, re_is_zero), zero);
    assert(is_zero_test(x.re, re_is_zero));
    out
}

/// The nonlinearity `kind` on every sample of `spectrum`, in place.
pub fn apply_to_all<T: Float>(kind: Nonlinearity, spectrum: &mut [Complex<T>], zero: &Complex<T>)
    ensures
        applied_to_all(kind, old(spectrum)@, *zero, final(spectrum)@),
        kind == Nonlinearity::RealLogMagnitude ==> forall|i: int|
            0 <= i < final(spectrum)@.len() ==> (#[trigger] final(spectrum)@[i]).im == zero.im,
{
    let n = spectrum.len();
    let mut i: usize = 0;
    while i < n
        invariant
            i <= n,
            spectrum@.len() == n,
            n == old(spectrum)@.len(),
            forall|j: int| 0 <= j < i ==> applied(kind, old(spectrum)@[j], *zero, #[trigger] spectrum@[j]),
            forall|j: int| i <= j < n ==> #[trigger] spectrum@[j] == old(spectrum)@[j],
            kind == Nonlinearity::RealLogMagnitude ==> forall|j: int|
                0 <= j < i ==> (#[trigger] spectrum@[j]).im == zero.im,
        decreases n - i,
    {
        let out = apply(kind, &spectrum[i], zero);
        spectrum[i] = out;
        i = i + 1;
    }
}

} // verus!
