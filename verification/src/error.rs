use vstd::prelude::*;

verus! {

/// The part of a state-space model that a flat array was meant for.
#[derive(Debug, Clone, Copy, PartialEq, Eq, Structural)]
pub enum Field {
    MatrixA,
    MatrixB,
    MatrixC,
    MatrixD,
    State,
    Input,
}

/// Why a model could not be configured.
#[derive(Debug, Clone, Copy, PartialEq, Eq, Structural)]
pub enum ModelError {
    /// A flat array had `given` entries where `field` holds `expected`.
    DimensionMismatch { field: Field, expected: usize, given: usize },
    /// The denominator of a transfer function has degree below one.
    InvalidOrder,
    /// The numerator of a transfer function has more coefficients than the
    /// denominator.
    ImproperTransferFunction,
}

} // verus!
