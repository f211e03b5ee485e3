//! The error taxonomy of the engine.
//!
//! Contract violations (mismatched column counts), failures reported by the
//! external collaborators (range approximation, the dense primitive's status
//! code) and consistency-check failures after decoding are all surfaced as
//! typed errors; no path panics.

use vstd::prelude::*;

verus! {

/// Which of the two input matrices an error refers to.
#[derive(Clone, Copy, Debug, PartialEq, Eq, Structural)]
pub enum MatrixSide {
    Mat1,
    Mat2,
}

/// What internal consistency check a decoded primitive output failed.
#[derive(Clone, Copy, Debug, PartialEq, Eq, Structural)]
pub enum InconsistencyKind {
    /// The rank partition (k, l) does not fit the problem dimensions.
    RankPartition,
    /// A coefficient vector does not have one entry per column.
    CoefficientLength,
    /// The factor matrices are not m-by-m and p-by-p.
    FactorShape,
    /// A decoded coefficient lies outside [0, 1].
    CoefficientRange,
    /// A decoded cosine/sine pair violates s1^2 + s2^2 = 1 within 1e-5.
    CosSinIdentity,
    /// The decoded alpha sequence is not non-increasing.
    AlphaOrder,
    /// The primitive returned a status code its documentation does not define.
    UndocumentedStatus,
    /// A reduced matrix does not have the shape the range bases dictate.
    ReducedShape,
}

/// Everything a solve can fail with.
#[derive(Clone, Copy, Debug, PartialEq, Eq, Structural)]
pub enum GSvdError {
    /// The two input matrices do not share a column count.
    DimensionMismatch,
    /// Range approximation produced no basis for the named matrix.
    RangeApproximationFailed { which: MatrixSide },
    /// The dense primitive reported that its iteration did not converge.
    SolverNonConvergence,
    /// The dense primitive reported an illegal value for its argument with
    /// this (1-based) index.
    InvalidArgument { index: u32 },
    /// The primitive's output broke an invariant its documentation promises.
    InternalInconsistency { kind: InconsistencyKind },
}

/// Maps the dense primitive's status code to the documented outcome: 0 is
/// success, 1 is non-convergence, a negative value `-i` marks argument `i` as
/// illegal, and anything else is outside the documented contract.
pub fn interpret_status(status: i32) -> (r: Result<(), GSvdError>)
    ensures
        r == status_outcome(status),
        r is Ok <==> status == 0,
{
    if status == 0 {
        Ok(())
    } else if status == 1 {
        Err(GSvdError::SolverNonConvergence)
    } else if status < 0 {
        Err(GSvdError::InvalidArgument { index: (-(status as i64)) as u32 })
    } else {
        Err(GSvdError::InternalInconsistency { kind: InconsistencyKind::UndocumentedStatus })
    }
}

/// The outcome `interpret_status` maps each status code to.
pub open spec fn status_outcome(status: i32) -> Result<(), GSvdError> {
    if status == 0 {
        Ok(())
    } else if status == 1 {
        Err(GSvdError::SolverNonConvergence)
    } else if status < 0 {
        Err(GSvdError::InvalidArgument { index: (-status) as u32 })
    } else {
        Err(GSvdError::InternalInconsistency { kind: InconsistencyKind::UndocumentedStatus })
    }
}

} // verus!
