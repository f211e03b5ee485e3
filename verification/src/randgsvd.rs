//! The randomized GSVD engine.
//!
//! A `GSvdApprox` owns a pair of matrices with a common column count and a
//! shared approximation budget. A solve runs in stages, each one a verified
//! decision; the caller performs the floating-point work between them:
//!
//! 1. `approximation_requests` names the two range approximations to run,
//!    both under the same budget so the approximated ranks are comparable.
//! 2. `accept_basis` inspects each approximation outcome: a missing basis
//!    aborts the solve with `RangeApproximationFailed` naming the matrix, so
//!    the dense primitive is never reached; a present basis is checked against
//!    the matrix it approximates and turned into a `BasisApproval`.
//! 3. `reduced_problem` takes the two approvals and the two projected
//!    matrices (basis-transpose times matrix, computed by the caller) and
//!    builds the dense problem — only with both approvals in hand can a
//!    `GSvd`, and hence a primitive call, come out of this stage.
//! 4. `GSvd::do_gsvd` and `GSvdResult::init_from_lapack` finish the solve.

use vstd::prelude::*;
use crate::error::{GSvdError, InconsistencyKind, MatrixSide};
use crate::gsvd::{GSvd, GSvdOptParams, ScalarPrecision};
use crate::matrix::{DenseMatrix, MatrixHandle};

verus! {

/// A precision budget for range approximation: stop when the residual falls
/// below epsilon (carried as a binary64 bit pattern), iterating over blocks,
/// but never exceed the rank cap.
#[derive(Clone, Copy, Debug, PartialEq, Eq, Structural)]
pub struct RangePrecision {
    epsilon_bits: u64,
    block_iter: usize,
    max_rank: usize,
}

impl RangePrecision {
    /// The residual target, as a binary64 bit pattern.
    pub closed spec fn epsilon_bits_spec(self) -> u64 {
        self.epsilon_bits
    }

    /// The number of block iterations.
    pub closed spec fn block_iter_spec(self) -> usize {
        self.block_iter
    }

    /// The rank cap.
    pub closed spec fn max_rank_spec(self) -> usize {
        self.max_rank
    }

    /// Packs a precision budget.
    pub fn new(epsilon_bits: u64, block_iter: usize, max_rank: usize) -> (r: RangePrecision)
        ensures
            r.epsilon_bits_spec() == epsilon_bits,
            r.block_iter_spec() == block_iter,
            r.max_rank_spec() == max_rank,
    {
        RangePrecision { epsilon_bits, block_iter, max_rank }
    }
}

/// A rank budget for range approximation: ask for a fixed target rank with a
/// fixed number of iterations.
#[derive(Clone, Copy, Debug, PartialEq, Eq, Structural)]
pub struct RangeRank {
    target_rank: usize,
    nb_iter: usize,
}

impl RangeRank {
    /// The target rank.
    pub closed spec fn target_rank_spec(self) -> usize {
        self.target_rank
    }

    /// The number of iterations.
    pub closed spec fn nb_iter_spec(self) -> usize {
        self.nb_iter
    }

    /// Packs a rank budget.
    pub fn new(target_rank: usize, nb_iter: usize) -> (r: RangeRank)
        ensures
            r.target_rank_spec() == target_rank,
            r.nb_iter_spec() == nb_iter,
    {
        RangeRank { target_rank, nb_iter }
    }
}

/// The approximation budget governing both matrices of one solve.
#[allow(non_camel_case_types)]
#[derive(Clone, Copy, Debug, PartialEq, Eq, Structural)]
pub enum RangeApproxMode {
    /// Approximate until a precision target is met.
    EPSIL(RangePrecision),
    /// Approximate to a fixed target rank.
    RANK(RangeRank),
}

/// One range approximation the caller must run: which matrix, its dimensions,
/// and the budget to apply.
pub struct ApproxRequest {
    /// Which of the two matrices to approximate.
    pub which: MatrixSide,
    /// The budget to run the approximation under.
    pub mode: RangeApproxMode,
    /// Rows of the matrix to approximate.
    pub rows: usize,
    /// Columns of the matrix to approximate.
    pub cols: usize,
}

/// Evidence that a range-approximation outcome for one matrix was inspected
/// and accepted. Only `accept_basis` creates these, so a dense problem — and
/// with it a primitive call — can only follow two successful approximations.
pub struct BasisApproval {
    which: MatrixSide,
    basis_rank: usize,
}

impl BasisApproval {
    /// Which matrix the accepted basis approximates.
    pub closed spec fn which_spec(self) -> MatrixSide {
        self.which
    }

    /// The number of basis columns: the approximated rank, and the row count
    /// of the projected matrix.
    pub closed spec fn basis_rank_spec(self) -> usize {
        self.basis_rank
    }

    /// The number of basis columns, as an exec value.
    pub fn rank(&self) -> (r: usize)
        ensures
            r == self.basis_rank_spec(),
    {
        self.basis_rank
    }
}

/// A randomized GSVD problem: two matrices sharing a column count, a shared
/// approximation budget, and optional per-matrix transforms.
pub struct GSvdApprox {
    mat1: MatrixHandle,
    mat2: MatrixHandle,
    opt_params: Option<GSvdOptParams>,
    precision: RangeApproxMode,
    scalar: ScalarPrecision,
}

impl GSvdApprox {
    /// The first matrix.
    pub closed spec fn mat1_spec(self) -> MatrixHandle {
        self.mat1
    }

    /// The second matrix.
    pub closed spec fn mat2_spec(self) -> MatrixHandle {
        self.mat2
    }

    /// The optional parameters.
    pub closed spec fn opt_params_spec(self) -> Option<GSvdOptParams> {
        self.opt_params
    }

    /// The shared approximation budget.
    pub closed spec fn precision_spec(self) -> RangeApproxMode {
        self.precision
    }

    /// The scalar precision the dense stage will dispatch on.
    pub closed spec fn scalar_spec(self) -> ScalarPrecision {
        self.scalar
    }

    /// The matrix a side names.
    pub open spec fn matrix_of(self, which: MatrixSide) -> MatrixHandle {
        match which {
            MatrixSide::Mat1 => self.mat1_spec(),
            MatrixSide::Mat2 => self.mat2_spec(),
        }
    }

    /// Structural invariant: both matrices are well formed and share a column
    /// count.
    pub open spec fn wf(self) -> bool {
        &&& self.mat1_spec().wf()
        &&& self.mat2_spec().wf()
        &&& self.mat1_spec().ncols() == self.mat2_spec().ncols()
    }

    /// Builds a randomized GSVD problem under a precision budget. The two
    /// matrices must share a column count — on a mismatch construction fails
    /// with `DimensionMismatch` and no solve stage can run, so no
    /// approximation or primitive call is ever issued for such a pair.
    pub fn new(
        mat1: MatrixHandle,
        mat2: MatrixHandle,
        precision: RangePrecision,
        opt_params: Option<GSvdOptParams>,
        scalar: ScalarPrecision,
    ) -> (r: Result<GSvdApprox, GSvdError>)
        requires
            mat1.wf(),
            mat2.wf(),
        ensures
            match r {
                Ok(g) => {
                    &&& mat1.ncols() == mat2.ncols()
                    &&& g.wf()
                    &&& g.mat1_spec() == mat1
                    &&& g.mat2_spec() == mat2
                    &&& g.opt_params_spec() == opt_params
                    &&& g.precision_spec() == RangeApproxMode::EPSIL(precision)
                    &&& g.scalar_spec() == scalar
                },
                Err(e) => {
                    &&& mat1.ncols() != mat2.ncols()
                    &&& e == GSvdError::DimensionMismatch
                },
            },
    {
        if mat1.num_cols() != mat2.num_cols() {
            return Err(GSvdError::DimensionMismatch);
        }
        Ok(
            GSvdApprox {
                mat1,
                mat2,
                opt_params,
                precision: RangeApproxMode::EPSIL(precision),
                scalar,
            },
        )
    }

    /// The optional parameters, if any.
    pub fn get_parameters(&self) -> (r: &Option<GSvdOptParams>)
        ensures
            r == self.opt_params_spec(),
    {
        &self.opt_params
    }

    /// First solve stage: the two range approximations to run, one per
    /// matrix, both under the problem's shared budget.
    pub fn approximation_requests(&self) -> (r: (ApproxRequest, ApproxRequest))
        requires
            self.wf(),
        ensures
            r.0.which == MatrixSide::Mat1,
            r.0.mode == self.precision_spec(),
            r.0.rows == self.mat1_spec().nrows(),
            r.0.cols == self.mat1_spec().ncols(),
            r.1.which == MatrixSide::Mat2,
            r.1.mode == self.precision_spec(),
            r.1.rows == self.mat2_spec().nrows(),
            r.1.cols == self.mat2_spec().ncols(),
    {
        let req1 = ApproxRequest {
            which: MatrixSide::Mat1,
            mode: self.precision,
            rows: self.mat1.num_rows(),
            cols: self.mat1.num_cols(),
        };
        let req2 = ApproxRequest {
            which: MatrixSide::Mat2,
            mode: self.precision,
            rows: self.mat2.num_rows(),
            cols: self.mat2.num_cols(),
        };
        (req1, req2)
    }

    /// Second solve stage, once per matrix: inspects a range-approximation
    /// outcome. No basis means the approximator failed — the solve aborts
    /// with `RangeApproximationFailed` naming exactly that matrix, and
    /// without both approvals no dense problem can be built, so the primitive
    /// is never invoked. A basis whose row count differs from its matrix
    /// breaks the approximator's contract and is an internal inconsistency.
    pub fn accept_basis(&self, which: MatrixSide, basis: Option<&DenseMatrix>) -> (r: Result<
        BasisApproval,
        GSvdError,
    >)
        requires
            self.wf(),
            basis matches Some(q) ==> q.wf(),
        ensures
            match r {
                Ok(appr) => {
                    &&& basis matches Some(q) && q.nrows() == self.matrix_of(which).nrows()
                        && appr.basis_rank_spec() == q.ncols()
                    &&& appr.which_spec() == which
                },
                Err(e) => match basis {
                    None => e == (GSvdError::RangeApproximationFailed { which }),
                    Some(q) => q.nrows() != self.matrix_of(which).nrows() && e == (
                    GSvdError::InternalInconsistency { kind: InconsistencyKind::ReducedShape }),
                },
            },
            r is Err <==> !(basis matches Some(q) && q.nrows() == self.matrix_of(which).nrows()),
    {
        match basis {
            None => Err(GSvdError::RangeApproximationFailed { which }),
            Some(q) => {
                let expected_rows = match which {
                    MatrixSide::Mat1 => self.mat1.num_rows(),
                    MatrixSide::Mat2 => self.mat2.num_rows(),
                };
                if q.num_rows() != expected_rows {
                    return Err(
                        GSvdError::InternalInconsistency { kind: InconsistencyKind::ReducedShape },
                    );
                }
                Ok(BasisApproval { which, basis_rank: q.num_cols() })
            },
        }
    }

    /// Third solve stage: with both bases approved and the two projections
    /// computed by the caller (each the basis transpose times its matrix),
    /// builds the dense problem. Each reduced matrix must be basis-rank by
    /// original-column-count; the column counts then agree by construction,
    /// so the dense problem always exists.
    pub fn reduced_problem(
        &self,
        appr1: &BasisApproval,
        appr2: &BasisApproval,
        red1: DenseMatrix,
        red2: DenseMatrix,
    ) -> (r: Result<GSvd, GSvdError>)
        requires
            self.wf(),
            red1.wf(),
            red2.wf(),
            appr1.which_spec() == MatrixSide::Mat1,
            appr2.which_spec() == MatrixSide::Mat2,
        ensures
            match r {
                Ok(g) => {
                    &&& red1.nrows() == appr1.basis_rank_spec() && red1.ncols()
                        == self.mat1_spec().ncols()
                    &&& red2.nrows() == appr2.basis_rank_spec() && red2.ncols()
                        == self.mat2_spec().ncols()
                    &&& g.wf()
                    &&& g.a_spec() == red1
                    &&& g.b_spec() == red2
                    &&& g.precision_spec() == self.scalar_spec()
                },
                Err(e) => {
                    &&& !(red1.nrows() == appr1.basis_rank_spec() && red1.ncols()
                        == self.mat1_spec().ncols() && red2.nrows() == appr2.basis_rank_spec()
                        && red2.ncols() == self.mat2_spec().ncols())
                    &&& e == (GSvdError::InternalInconsistency {
                        kind: InconsistencyKind::ReducedShape,
                    })
                },
            },
    {
        if red1.num_rows() != appr1.rank() || red1.num_cols() != self.mat1.num_cols()
            || red2.num_rows() != appr2.rank() || red2.num_cols() != self.mat2.num_cols() {
            return Err(
                GSvdError::InternalInconsistency { kind: InconsistencyKind::ReducedShape },
            );
        }
        match GSvd::new(red1, red2, self.scalar) {
            Ok(g) => Ok(g),
            Err(_) => {
                // Unreachable: both reduced matrices were just checked to have
                // the problem's shared column count.
                proof {
                    assert(false);
                }
                Err(GSvdError::InternalInconsistency { kind: InconsistencyKind::ReducedShape })
            },
        }
    }
}

} // verus!
