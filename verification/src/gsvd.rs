//! The dense GSVD stage: call layout, decoding and validation.
//!
//! For a pair of dense matrices A (m-by-n) and B (p-by-n) sharing a column
//! count, the external dense primitive returns a status code, a rank
//! partition (k, l), orthogonal factors U (m-by-m) and V (p-by-p) and
//! coefficient vectors alpha and beta of length n. `GSvd` owns the verified
//! sides of that exchange: `do_gsvd` computes the exact argument layout the
//! primitive requires (jobs, dimensions and leading dimensions for row-major
//! storage), and `GSvdResult::init_from_lapack` decodes and validates the raw
//! outputs into the final result. The caller performs the one floating-point
//! call in between.

use vstd::prelude::*;
use vstd::arithmetic::power2::pow2;
use crate::error::{GSvdError, InconsistencyKind};
use crate::fbits::{
    f64_bits_gt, f64_bits_in_unit_interval, float_gt, in_unit_interval,
    lemma_unit_interval_is_small, small_magnitude,
};
use crate::fixedpt::{
    abs_int, check_cos_sin_identity, cos_sin_identity, lemma_pow2_constants,
    lemma_tolerance_threshold, prod_fp,
};
use crate::matrix::DenseMatrix;

verus! {

/// The two floating-point widths the dense primitive exists for. The solve is
/// dispatched on this tag; no other scalar type can be requested.
#[derive(Clone, Copy, Debug, PartialEq, Eq, Structural)]
pub enum ScalarPrecision {
    /// 32-bit floating point (the primitive's single-precision variant).
    Single,
    /// 64-bit floating point (the primitive's double-precision variant).
    Double,
}

/// Optional per-matrix adjustments of a GSVD problem: a scalar multiplier
/// (default 1.0) and a transpose flag (default false) for each matrix, letting
/// a caller solve the transposed problem without rebuilding its matrices. The
/// multipliers are carried as binary64 bit patterns; the engine never reads
/// into them.
#[derive(Clone, Copy, Debug, PartialEq, Eq, Structural)]
pub struct GSvdOptParams {
    alpha_1: u64,
    transpose_1: bool,
    alpha_2: u64,
    transpose_2: bool,
}

impl GSvdOptParams {
    /// The multiplier for the first matrix, as spec.
    pub closed spec fn alpha_1_spec(self) -> u64 {
        self.alpha_1
    }

    /// The multiplier for the second matrix, as spec.
    pub closed spec fn alpha_2_spec(self) -> u64 {
        self.alpha_2
    }

    /// The transpose flag for the first matrix, as spec.
    pub closed spec fn transpose_1_spec(self) -> bool {
        self.transpose_1
    }

    /// The transpose flag for the second matrix, as spec.
    pub closed spec fn transpose_2_spec(self) -> bool {
        self.transpose_2
    }

    /// Packs the two multipliers (as binary64 bit patterns) and transpose
    /// flags.
    pub fn new(alpha_1: u64, transpose_1: bool, alpha_2: u64, transpose_2: bool) -> (r:
        GSvdOptParams)
        ensures
            r.alpha_1_spec() == alpha_1,
            r.transpose_1_spec() == transpose_1,
            r.alpha_2_spec() == alpha_2,
            r.transpose_2_spec() == transpose_2,
    {
        GSvdOptParams { alpha_1, transpose_1, alpha_2, transpose_2 }
    }

    /// The multiplier for the first matrix, as a binary64 bit pattern.
    pub fn get_alpha_1(&self) -> (r: u64)
        ensures
            r == self.alpha_1_spec(),
    {
        self.alpha_1
    }

    /// The multiplier for the second matrix, as a binary64 bit pattern.
    pub fn get_alpha_2(&self) -> (r: u64)
        ensures
            r == self.alpha_2_spec(),
    {
        self.alpha_2
    }

    /// The transpose flag for the first matrix.
    pub fn get_transpose_1(&self) -> (r: bool)
        ensures
            r == self.transpose_1_spec(),
    {
        self.transpose_1
    }

    /// The transpose flag for the second matrix.
    pub fn get_transpose_2(&self) -> (r: bool)
        ensures
            r == self.transpose_2_spec(),
    {
        self.transpose_2
    }
}

/// The complete argument layout of one dense primitive call, ready to hand to
/// the external routine together with the two row-major buffers.
pub struct SolverCall {
    /// Which precision variant of the primitive to invoke.
    pub precision: ScalarPrecision,
    /// Job flag: compute the left factor U (always requested).
    pub jobu: u8,
    /// Job flag: compute the left factor V (always requested).
    pub jobv: u8,
    /// Job flag: do not compute the common right factor Q (never needed).
    pub jobq: u8,
    /// Rows of the first matrix.
    pub m: i32,
    /// Columns of both matrices.
    pub n: i32,
    /// Rows of the second matrix.
    pub p: i32,
    /// Leading dimension of A: the column count, for row-major storage.
    pub lda: i32,
    /// Leading dimension of B: the column count, for row-major storage.
    pub ldb: i32,
    /// Leading dimension of U (m-by-m).
    pub ldu: i32,
    /// Leading dimension of V (p-by-p).
    pub ldv: i32,
    /// Leading dimension of the Q factor, which must meet the primitive's
    /// minimum even though Q is not computed.
    pub ldq: i32,
}

/// A dense two-matrix GSVD problem: A (m-by-n) and B (p-by-n) with the same
/// column count, carried as bit patterns, plus the precision tag for the
/// primitive dispatch.
pub struct GSvd {
    a: DenseMatrix,
    b: DenseMatrix,
    precision: ScalarPrecision,
    opt_params: Option<GSvdOptParams>,
}

impl GSvd {
    /// The first matrix.
    pub closed spec fn a_spec(self) -> DenseMatrix {
        self.a
    }

    /// The second matrix.
    pub closed spec fn b_spec(self) -> DenseMatrix {
        self.b
    }

    /// The precision tag.
    pub closed spec fn precision_spec(self) -> ScalarPrecision {
        self.precision
    }

    /// The optional parameters.
    pub closed spec fn opt_params_spec(self) -> Option<GSvdOptParams> {
        self.opt_params
    }

    /// Structural invariant: both matrices are well formed and share a column
    /// count.
    pub open spec fn wf(self) -> bool {
        &&& self.a_spec().wf()
        &&& self.b_spec().wf()
        &&& self.a_spec().ncols() == self.b_spec().ncols()
    }

    /// Builds a dense GSVD problem. The two matrices must share a column
    /// count; a mismatch is a contract violation reported as
    /// `DimensionMismatch`.
    pub fn new(a: DenseMatrix, b: DenseMatrix, precision: ScalarPrecision) -> (r: Result<
        GSvd,
        GSvdError,
    >)
        requires
            a.wf(),
            b.wf(),
        ensures
            match r {
                Ok(g) => {
                    &&& a.ncols() == b.ncols()
                    &&& g.wf()
                    &&& g.a_spec() == a
                    &&& g.b_spec() == b
                    &&& g.precision_spec() == precision
                    &&& g.opt_params_spec() is None
                },
                Err(e) => {
                    &&& a.ncols() != b.ncols()
                    &&& e == GSvdError::DimensionMismatch
                },
            },
    {
        if a.num_cols() != b.num_cols() {
            return Err(GSvdError::DimensionMismatch);
        }
        Ok(GSvd { a, b, precision, opt_params: None })
    }

    /// The optional parameters, if any.
    pub fn get_parameters(&self) -> (r: &Option<GSvdOptParams>)
        ensures
            r == self.opt_params_spec(),
    {
        &self.opt_params
    }

    /// Computes the argument layout of the dense primitive call for this
    /// problem: the factors U and V are requested, the common right factor Q
    /// is not, and the leading dimensions are those of row-major storage —
    /// `lda` and `ldb` are the shared column count (the buffers are handed
    /// over in the transposed orientation the reduced problem requires), and
    /// `ldq` meets the primitive's minimum although Q is never computed. The
    /// caller performs the call and hands the raw outputs to
    /// `GSvdResult::init_from_lapack`.
    pub fn do_gsvd(&self) -> (call: SolverCall)
        requires
            self.wf(),
        ensures
            call.precision == self.precision_spec(),
            call.jobu == 85u8,  // 'U': compute U
            call.jobv == 86u8,  // 'V': compute V
            call.jobq == 78u8,  // 'N': do not compute Q
            call.m == self.a_spec().nrows(),
            call.n == self.a_spec().ncols(),
            call.p == self.b_spec().nrows(),
            call.lda == call.n && call.lda >= call.n,
            call.ldb == call.n && call.ldb >= call.n,
            call.ldu == call.m && call.ldu >= call.m,
            call.ldv == call.p && call.ldv >= call.p,
            call.ldq == call.n && call.ldq >= call.n,
    {
        let m = self.a.num_rows() as i32;
        let n = self.a.num_cols() as i32;
        let p = self.b.num_rows() as i32;
        SolverCall {
            precision: self.precision,
            jobu: 85u8,
            jobv: 86u8,
            jobq: 78u8,
            m,
            n,
            p,
            lda: n,
            ldb: n,
            ldu: m,
            ldv: p,
            ldq: n,
        }
    }
}

/// Whether a rank partition (k, l) fits a problem with A m-by-n: both parts
/// nonnegative, their sum at most the column count, and k within the row
/// count.
pub open spec fn partition_ok(m: int, n: int, k: int, l: int) -> bool {
    &&& 0 <= k
    &&& 0 <= l
    &&& k + l <= n
    &&& k <= m
}

/// The end (exclusive) of the informative coefficient range [k, min(m, k+l)):
/// when m - k - l >= 0 the range is [k, k+l), otherwise it is [k, m) and the
/// entries from m up to k+l are the conventional alpha 0, beta 1 pairs, which
/// are not materialized.
pub open spec fn decode_end(m: int, k: int, l: int) -> int {
    if m < k + l {
        m
    } else {
        k + l
    }
}

/// Every decoded pair lies in [0, 1] in both coordinates and satisfies the
/// cosine/sine identity within 1e-5.
pub open spec fn coefficients_ok(alpha: Seq<u64>, beta: Seq<u64>, start: int, end: int) -> bool {
    forall|i: int|
        start <= i < end ==> {
            &&& in_unit_interval(#[trigger] alpha[i])
            &&& in_unit_interval(beta[i])
            &&& cos_sin_identity(alpha[i], beta[i])
        }
}

/// The alpha sequence is non-increasing on the decoded range: no entry
/// exceeds its predecessor under IEEE-754 ordering.
pub open spec fn alpha_sorted(alpha: Seq<u64>, start: int, end: int) -> bool {
    forall|i: int| start < i < end ==> !float_gt(#[trigger] alpha[i], alpha[i - 1])
}

/// Everything `GSvdResult::init_from_lapack` accepts: a fitting rank
/// partition, factors of the documented shapes, one coefficient pair per
/// column, and validated coefficients on the decoded range.
pub open spec fn decode_accepts(
    m: int,
    n: int,
    p: int,
    k: int,
    l: int,
    u: DenseMatrix,
    v: DenseMatrix,
    alpha: Seq<u64>,
    beta: Seq<u64>,
) -> bool {
    &&& u.nrows() == m && u.ncols() == m
    &&& v.nrows() == p && v.ncols() == p
    &&& alpha.len() == n && beta.len() == n
    &&& partition_ok(m, n, k, l)
    &&& coefficients_ok(alpha, beta, k, decode_end(m, k, l))
    &&& alpha_sorted(alpha, k, decode_end(m, k, l))
}

/// The decoded and validated outcome of a successful solve: the two
/// orthogonal factors as returned (not truncated), and the cosine and sine
/// diagonal sequences over the informative range. The common right factor is
/// never materialized.
#[derive(Debug)]
pub struct GSvdResult {
    /// The left orthogonal factor U (m-by-m) of the first matrix.
    pub v1: Option<DenseMatrix>,
    /// The left orthogonal factor V (p-by-p) of the second matrix.
    pub v2: Option<DenseMatrix>,
    /// The decoded cosine sequence, as binary64 bit patterns.
    pub s1: Option<Vec<u64>>,
    /// The decoded sine sequence, as binary64 bit patterns.
    pub s2: Option<Vec<u64>>,
}

impl GSvdResult {
    /// An empty result, before any decode.
    pub fn new() -> (r: GSvdResult)
        ensures
            r.v1 is None && r.v2 is None && r.s1 is None && r.s2 is None,
    {
        GSvdResult { v1: None, v2: None, s1: None, s2: None }
    }

    /// Decodes the raw outputs of the dense primitive, for a problem with A
    /// m-by-n and B p-by-n. Exactly the outputs satisfying `decode_accepts`
    /// are accepted: the factors must be m-by-m and p-by-p, the rank
    /// partition must fit, and on the informative range [k, min(m, k+l)) the
    /// coefficients must lie in [0, 1], satisfy the cosine/sine identity
    /// within 1e-5, and be non-increasing in alpha. Any violation is an
    /// internal-consistency error: it means the primitive broke its
    /// documented contract.
    #[verifier::loop_isolation(false)]
    pub fn init_from_lapack(
        m: usize,
        n: usize,
        p: usize,
        u: DenseMatrix,
        v: DenseMatrix,
        k: i64,
        l: i64,
        alpha: Vec<u64>,
        beta: Vec<u64>,
    ) -> (r: Result<GSvdResult, GSvdError>)
        requires
            u.wf(),
            v.wf(),
        ensures
            r is Ok <==> decode_accepts(
                m as int,
                n as int,
                p as int,
                k as int,
                l as int,
                u,
                v,
                alpha@,
                beta@,
            ),
            match r {
                Ok(res) => {
                    &&& res.v1 == Some(u)
                    &&& res.v2 == Some(v)
                    &&& res.s1 matches Some(s1) && s1@ == alpha@.subrange(
                        k as int,
                        decode_end(m as int, k as int, l as int),
                    )
                    &&& res.s2 matches Some(s2) && s2@ == beta@.subrange(
                        k as int,
                        decode_end(m as int, k as int, l as int),
                    )
                },
                Err(e) => e matches GSvdError::InternalInconsistency { kind: _ },
            },
            !(u.nrows() == m && u.ncols() == m && v.nrows() == p && v.ncols() == p) ==> r == Err::<GSvdResult, GSvdError>(
                GSvdError::InternalInconsistency { kind: InconsistencyKind::FactorShape },
            ),
            u.nrows() == m && u.ncols() == m && v.nrows() == p && v.ncols() == p && !(alpha@.len()
                == n && beta@.len() == n) ==> r == Err::<GSvdResult, GSvdError>(
                GSvdError::InternalInconsistency { kind: InconsistencyKind::CoefficientLength },
            ),
            u.nrows() == m && u.ncols() == m && v.nrows() == p && v.ncols() == p && alpha@.len()
                == n && beta@.len() == n && !partition_ok(m as int, n as int, k as int, l as int)
                ==> r == Err::<GSvdResult, GSvdError>(
                GSvdError::InternalInconsistency { kind: InconsistencyKind::RankPartition },
            ),
            r == Err::<GSvdResult, GSvdError>(
                GSvdError::InternalInconsistency { kind: InconsistencyKind::CoefficientRange },
            ) ==> exists|t: int|
                k <= t < decode_end(m as int, k as int, l as int) && !(in_unit_interval(
                    #[trigger] alpha@[t],
                ) && in_unit_interval(beta@[t])),
            r == Err::<GSvdResult, GSvdError>(
                GSvdError::InternalInconsistency { kind: InconsistencyKind::CosSinIdentity },
            ) ==> exists|t: int|
                k <= t < decode_end(m as int, k as int, l as int) && !cos_sin_identity(
                    #[trigger] alpha@[t],
                    beta@[t],
                ),
            r == Err::<GSvdResult, GSvdError>(
                GSvdError::InternalInconsistency { kind: InconsistencyKind::AlphaOrder },
            ) ==> exists|t: int|
                k < t < decode_end(m as int, k as int, l as int) && float_gt(
                    #[trigger] alpha@[t],
                    alpha@[t - 1],
                ),
    {
        if u.num_rows() != m || u.num_cols() != m || v.num_rows() != p || v.num_cols() != p {
            return Err(GSvdError::InternalInconsistency { kind: InconsistencyKind::FactorShape });
        }
        if alpha.len() != n || beta.len() != n {
            return Err(
                GSvdError::InternalInconsistency { kind: InconsistencyKind::CoefficientLength },
            );
        }
        if k < 0 || l < 0 {
            return Err(
                GSvdError::InternalInconsistency { kind: InconsistencyKind::RankPartition },
            );
        }
        let ku = k as u64;
        let lu = l as u64;
        let nu = n as u64;
        let mu = m as u64;
        if ku > nu || lu > nu - ku || ku > mu {
            return Err(
                GSvdError::InternalInconsistency { kind: InconsistencyKind::RankPartition },
            );
        }
        // The informative range is [k, min(m, k + l)).
        let start: usize = ku as usize;
        let sum_kl: u64 = ku + lu;
        let end: usize = if mu < sum_kl {
            m
        } else {
            sum_kl as usize
        };
        let ghost gend = decode_end(m as int, k as int, l as int);
        assert(end == gend);
        let mut s1: Vec<u64> = Vec::new();
        let mut s2: Vec<u64> = Vec::new();
        let mut i: usize = start;
        while i < end
            invariant
                start <= i <= end || (start > end && i == start),
                end <= n,
                alpha@.len() == n,
                beta@.len() == n,
                s1@ == alpha@.subrange(start as int, i as int),
                s2@ == beta@.subrange(start as int, i as int),
                coefficients_ok(alpha@, beta@, start as int, i as int),
            decreases end - i,
        {
            let ai = alpha[i];
            let bi = beta[i];
            if !f64_bits_in_unit_interval(ai) || !f64_bits_in_unit_interval(bi) {
                proof {
                    assert(start <= i && (i as int) < gend);
                    assert(!(in_unit_interval(alpha@[i as int]) && in_unit_interval(
                        beta@[i as int],
                    )));
                }
                return Err(
                    GSvdError::InternalInconsistency { kind: InconsistencyKind::CoefficientRange },
                );
            }
            proof {
                lemma_unit_interval_is_small(ai);
                lemma_unit_interval_is_small(bi);
            }
            if !check_cos_sin_identity(ai, bi) {
                proof {
                    assert(start <= i && (i as int) < gend);
                    assert(!cos_sin_identity(alpha@[i as int], beta@[i as int]));
                }
                return Err(
                    GSvdError::InternalInconsistency { kind: InconsistencyKind::CosSinIdentity },
                );
            }
            s1.push(ai);
            s2.push(bi);
            proof {
                assert(s1@ =~= alpha@.subrange(start as int, i + 1));
                assert(s2@ =~= beta@.subrange(start as int, i + 1));
            }
            i = i + 1;
        }
        // The decoded alpha entries must come out non-increasing.
        let mut j: usize = start + 1;
        while j < end
            invariant
                start + 1 <= j <= end || (start + 1 > end && j == start + 1),
                end <= n,
                alpha@.len() == n,
                alpha_sorted(alpha@, start as int, j as int),
            decreases end - j,
        {
            if f64_bits_gt(alpha[j], alpha[j - 1]) {
                proof {
                    assert(start < j && (j as int) < gend);
                    assert(float_gt(alpha@[j as int], alpha@[j as int - 1]));
                }
                return Err(
                    GSvdError::InternalInconsistency { kind: InconsistencyKind::AlphaOrder },
                );
            }
            j = j + 1;
        }
        Ok(GSvdResult { v1: Some(u), v2: Some(v), s1: Some(s1), s2: Some(s2) })
    }

    /// Whether the factor matrices carried by the result are well formed.
    pub open spec fn factors_wf(self) -> bool {
        &&& (self.v1 matches Some(u) ==> u.wf())
        &&& (self.v2 matches Some(v) ==> v.wf())
    }

    /// Checks that both carried factors are orthogonal within 1e-5 (see
    /// `check_orthogonality`); a factor that is absent passes.
    pub fn check_uv_orthogonal(&self) -> (r: Result<(), ()>)
        requires
            self.factors_wf(),
        ensures
            r is Ok <==> {
                &&& (self.v1 matches Some(u) ==> orthogonality_ok(
                    u.entries(),
                    u.nrows(),
                    u.ncols(),
                ))
                &&& (self.v2 matches Some(v) ==> orthogonality_ok(
                    v.entries(),
                    v.nrows(),
                    v.ncols(),
                ))
            },
    {
        match &self.v1 {
            Some(u) => {
                if check_orthogonality(u).is_err() {
                    return Err(());
                }
            },
            None => {},
        }
        match &self.v2 {
            Some(v) => {
                if check_orthogonality(v).is_err() {
                    return Err(());
                }
            },
            None => {},
        }
        Ok(())
    }
}

/// Law: for every accepted decode — whatever the sign of m - k - l — the
/// cosine and sine sequences have the same length, one pair per index of
/// [k, min(m, k+l)), and every pair lies in [0, 1] in both coordinates and
/// satisfies s1^2 + s2^2 = 1 within 1e-5.
pub proof fn lemma_decoded_pairs_valid(
    m: int,
    n: int,
    p: int,
    k: int,
    l: int,
    u: DenseMatrix,
    v: DenseMatrix,
    alpha: Seq<u64>,
    beta: Seq<u64>,
)
    requires
        decode_accepts(m, n, p, k, l, u, v, alpha, beta),
    ensures
        k <= decode_end(m, k, l) <= n,
        alpha.subrange(k, decode_end(m, k, l)).len() == beta.subrange(
            k,
            decode_end(m, k, l),
        ).len(),
        forall|i: int|
            k <= i < decode_end(m, k, l) ==> {
                &&& in_unit_interval(#[trigger] alpha[i])
                &&& in_unit_interval(beta[i])
                &&& cos_sin_identity(alpha[i], beta[i])
            },
{
}

/// Law: on every accepted decode the alpha sequence is non-increasing across
/// the whole informative range [k, min(m, k+l)), under IEEE-754 ordering: any
/// later entry is less than or equal to any earlier one.
pub proof fn lemma_decoded_alpha_non_increasing(
    m: int,
    n: int,
    p: int,
    k: int,
    l: int,
    u: DenseMatrix,
    v: DenseMatrix,
    alpha: Seq<u64>,
    beta: Seq<u64>,
    i: int,
    j: int,
)
    requires
        decode_accepts(m, n, p, k, l, u, v, alpha, beta),
        k <= i <= j < decode_end(m, k, l),
    ensures
        crate::fbits::float_le(alpha[j], alpha[i]),
    decreases j - i,
{
    if i == j {
        lemma_unit_interval_is_small(alpha[i]);
    } else {
        lemma_decoded_alpha_non_increasing(m, n, p, k, l, u, v, alpha, beta, i, j - 1);
        assert(!float_gt(alpha[j], alpha[j - 1]));
        crate::fbits::lemma_unit_interval_order(alpha[j], alpha[j - 1]);
    }
}

/// Every entry of the buffer has magnitude strictly below 2.0.
pub open spec fn entries_small(entries: Seq<u64>) -> bool {
    forall|t: int| 0 <= t < entries.len() ==> small_magnitude(#[trigger] entries[t])
}

/// The fixed-point dot product of the first `len` positions of rows `i` and
/// `j` of a row-major buffer with `cols` columns.
pub open spec fn row_dot_prefix(entries: Seq<u64>, cols: int, i: int, j: int, len: nat) -> int
    decreases len,
{
    if len == 0 {
        0
    } else {
        row_dot_prefix(entries, cols, i, j, (len - 1) as nat) + prod_fp(
            entries[i * cols + len - 1],
            entries[j * cols + len - 1],
        )
    }
}

/// The fixed-point dot product of rows `i` and `j`.
pub open spec fn row_dot_fp(entries: Seq<u64>, cols: int, i: int, j: int) -> int {
    row_dot_prefix(entries, cols, i, j, cols as nat)
}

/// Orthogonality of the rows of a matrix within 1e-5, evaluated in fixed
/// point: every entry has magnitude below 2.0 (a larger entry alone puts its
/// row's diagonal product above the tolerance), every row has unit norm
/// within 1e-5, and distinct rows have dot product within 1e-5 of zero. For a
/// square matrix this is the check that the matrix times its own transpose is
/// the identity.
pub open spec fn orthogonality_ok(entries: Seq<u64>, rows: int, cols: int) -> bool {
    &&& entries_small(entries)
    &&& forall|i: int|
        0 <= i < rows ==> 100000 * abs_int(
            #[trigger] row_dot_fp(entries, cols, i, i) - pow2(100),
        ) <= pow2(100)
    &&& forall|i: int, j: int|
        0 <= j < i < rows ==> 100000 * abs_int(#[trigger] row_dot_fp(entries, cols, i, j)) <= pow2(
            100,
        )
}

/// The fixed-point dot product of rows `i` and `j`, as an exec value.
#[verifier::loop_isolation(false)]
fn row_dot(u: &DenseMatrix, i: usize, j: usize) -> (r: i128)
    requires
        u.wf(),
        entries_small(u.entries()),
        i < u.nrows(),
        j < u.nrows(),
    ensures
        r as int == row_dot_fp(u.entries(), u.ncols(), i as int, j as int),
        -0x8000_0000_0000_0000_0000_0000_0000_0000 < 0x100_0000 * -0x40_0000_0000_0000_0000_0000_0000
            <= r <= 0x100_0000 * 0x40_0000_0000_0000_0000_0000_0000
            < 0x8000_0000_0000_0000_0000_0000_0000_0000,
{
    let cols = u.num_cols();
    let mut acc: i128 = 0;
    let mut c: usize = 0;
    while c < cols
        invariant
            c <= cols,
            acc as int == row_dot_prefix(u.entries(), u.ncols(), i as int, j as int, c as nat),
            (c as int) * -0x40_0000_0000_0000_0000_0000_0000 <= acc <= (c as int)
                * 0x40_0000_0000_0000_0000_0000_0000,
        decreases cols - c,
    {
        proof {
            crate::matrix::lemma_row_major_index(u.nrows(), u.ncols(), i as int, c as int);
            crate::matrix::lemma_row_major_index(u.nrows(), u.ncols(), j as int, c as int);
        }
        let term = crate::fixedpt::product_fixed(u.entry_at(i, c), u.entry_at(j, c));
        acc = acc + term;
        c = c + 1;
    }
    acc
}

/// Checks that a matrix is orthogonal within 1e-5: exactly the matrices
/// satisfying `orthogonality_ok` pass. The dot products are evaluated in
/// fixed point with 100 fractional bits; entries of magnitude 2.0 or more are
/// rejected outright, since such an entry alone drives the diagonal product
/// of its row past the tolerance.
#[verifier::loop_isolation(false)]
pub fn check_orthogonality(u: &DenseMatrix) -> (r: Result<(), ()>)
    requires
        u.wf(),
    ensures
        r is Ok <==> orthogonality_ok(u.entries(), u.nrows(), u.ncols()),
{
    proof {
        lemma_pow2_constants();
    }
    let rows = u.num_rows();
    let data = u.raw_data();
    let mut t: usize = 0;
    while t < data.len()
        invariant
            t <= data@.len(),
            forall|s: int| 0 <= s < t ==> small_magnitude(#[trigger] data@[s]),
        decreases data@.len() - t,
    {
        if !crate::fbits::f64_bits_small_magnitude(data[t]) {
            assert(!entries_small(u.entries()));
            return Err(());
        }
        t = t + 1;
    }
    let mut i: usize = 0;
    while i < rows
        invariant
            i <= rows,
            entries_small(u.entries()),
            forall|a: int|
                0 <= a < i ==> 100000 * abs_int(
                    #[trigger] row_dot_fp(u.entries(), u.ncols(), a, a) - pow2(100),
                ) <= pow2(100),
            forall|a: int, b: int|
                0 <= b < a < i ==> 100000 * abs_int(
                    #[trigger] row_dot_fp(u.entries(), u.ncols(), a, b),
                ) <= pow2(100),
        decreases rows - i,
    {
        let mut j: usize = 0;
        while j <= i
            invariant
                j <= i + 1,
                forall|b: int|
                    0 <= b < j && b < i ==> 100000 * abs_int(
                        #[trigger] row_dot_fp(u.entries(), u.ncols(), i as int, b),
                    ) <= pow2(100),
                j > i ==> 100000 * abs_int(
                    row_dot_fp(u.entries(), u.ncols(), i as int, i as int) - pow2(100),
                ) <= pow2(100),
            decreases i + 1 - j,
        {
            let acc = row_dot(u, i, j);
            let d: i128 = if j == i {
                acc - (crate::fixedpt::SCALE_FP as i128)
            } else {
                acc
            };
            let ad: u128 = if d < 0 {
                (-d) as u128
            } else {
                d as u128
            };
            proof {
                lemma_tolerance_threshold(ad as int);
            }
            if ad > crate::fixedpt::TOLERANCE_FP {
                return Err(());
            }
            j = j + 1;
        }
        i = i + 1;
    }
    Ok(())
}

} // verus!
