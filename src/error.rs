use vstd::prelude::*;

verus! {

/// The ways in which a transformation or a construction can fail.
#[derive(Clone, Copy, Debug, PartialEq, Eq, Structural)]
pub enum Error {
    /// A coordinate or a meshcode lies outside the supported domain.
    OutOfRange,
    /// A corner of the enclosing cell has no published parameter.
    ParameterNotFound,
    /// The backward iteration ran out of its budget before converging.
    NotConverged,
    /// The backward result does not map forward onto its input within the
    /// verification bound.
    VerificationFailed,
    /// A transformer was built without a format.
    FormatNotAssigned,
}

} // verus!
