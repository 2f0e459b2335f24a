//! Errors reported by the engine before it touches any buffer.

use vstd::prelude::*;

verus! {

/// A violated precondition of a transform or cepstrum operation.
#[derive(Clone, Copy, Debug, PartialEq, Eq, Structural)]
pub enum CepstrumError {
    /// The signal buffer does not hold exactly as many samples as the engine
    /// is configured for.
    LengthMismatch,
    /// The instance index is not below the current instance count.
    IndexOutOfRange,
}

} // verus!
