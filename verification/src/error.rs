//! Why a synthesis attempt aborts.

use vstd::prelude::*;
use halo2_proofs::plonk::Error;

verus! {

/// Why synthesis aborted: the framework failed while laying out the
/// assignment region, or while binding the product cell to the instance
/// column. Nothing is retried; each failure carries the framework's error.
pub enum SynthError {
    /// A region or cell assignment failed inside the framework's layouter.
    Layout(Error),
    /// Binding the product cell to the instance column was refused.
    Equality(Error),
}

impl SynthError {
    /// The framework's error underneath.
    pub open spec fn underlying(self) -> Error {
        match self {
            SynthError::Layout(e) => e,
            SynthError::Equality(e) => e,
        }
    }

    /// Unwraps to the framework's own error type, for handing back to it.
    pub fn into_error(self) -> (r: Error)
        ensures
            r == self.underlying(),
    {
        match self {
            SynthError::Layout(e) => e,
            SynthError::Equality(e) => e,
        }
    }
}

} // verus!
