//! The staged randomized engine: dimension checking at construction, budget
//! plumbing, approximation-failure propagation, reduced-problem validation,
//! the primitive call layout, and the status-code taxonomy.

use randgsvd::error::{GSvdError, InconsistencyKind, MatrixSide};
use randgsvd::gsvd::{GSvd, GSvdOptParams, GSvdResult, ScalarPrecision};
use randgsvd::matrix::{CsrMatrix, DenseMatrix, MatrixHandle};
use randgsvd::randgsvd::{GSvdApprox, RangePrecision};
use randgsvd::error::interpret_status;

fn dense(rows: usize, cols: usize, vals: &[f64]) -> DenseMatrix {
    let data: Vec<u64> = vals.iter().map(|v| v.to_bits()).collect();
    DenseMatrix::new(rows, cols, data).unwrap()
}

fn zeros(rows: usize, cols: usize) -> DenseMatrix {
    DenseMatrix::new(rows, cols, vec![0u64; rows * cols]).unwrap()
}

fn identity_matrix(n: usize) -> DenseMatrix {
    let mut data: Vec<u64> = Vec::new();
    for i in 0..n {
        for j in 0..n {
            data.push(if i == j { 1.0f64.to_bits() } else { 0.0f64.to_bits() });
        }
    }
    DenseMatrix::new(n, n, data).unwrap()
}

fn budget() -> RangePrecision {
    RangePrecision::new(0.1f64.to_bits(), 3, 10)
}

#[test]
fn mismatched_columns_rejected_at_construction() {
    let m1 = MatrixHandle::Dense(zeros(5, 3));
    let m2 = MatrixHandle::Dense(zeros(3, 4));
    let r = GSvdApprox::new(m1, m2, budget(), None, ScalarPrecision::Double);
    assert_eq!(r.err().unwrap(), GSvdError::DimensionMismatch);
}

#[test]
fn mismatched_columns_rejected_for_dense_problem() {
    let r = GSvd::new(zeros(5, 3), zeros(3, 4), ScalarPrecision::Double);
    assert_eq!(r.err().unwrap(), GSvdError::DimensionMismatch);
}

#[test]
fn approximation_requests_carry_budget_and_shapes() {
    let m1 = MatrixHandle::Dense(zeros(5, 3));
    let m2 = MatrixHandle::Dense(zeros(4, 3));
    let g = GSvdApprox::new(m1, m2, budget(), None, ScalarPrecision::Double).unwrap();
    let (r1, r2) = g.approximation_requests();
    assert_eq!(r1.which, MatrixSide::Mat1);
    assert_eq!(r2.which, MatrixSide::Mat2);
    assert_eq!((r1.rows, r1.cols), (5, 3));
    assert_eq!((r2.rows, r2.cols), (4, 3));
    assert_eq!(r1.mode, r2.mode);
}

#[test]
fn missing_basis_fails_naming_first_matrix() {
    let m1 = MatrixHandle::Dense(zeros(5, 3));
    let m2 = MatrixHandle::Dense(zeros(4, 3));
    let g = GSvdApprox::new(m1, m2, budget(), None, ScalarPrecision::Double).unwrap();
    let r = g.accept_basis(MatrixSide::Mat1, None);
    assert_eq!(
        r.err().unwrap(),
        GSvdError::RangeApproximationFailed { which: MatrixSide::Mat1 }
    );
}

#[test]
fn missing_basis_fails_naming_second_matrix() {
    let m1 = MatrixHandle::Dense(zeros(5, 3));
    let m2 = MatrixHandle::Dense(zeros(4, 3));
    let g = GSvdApprox::new(m1, m2, budget(), None, ScalarPrecision::Double).unwrap();
    let r = g.accept_basis(MatrixSide::Mat2, None);
    assert_eq!(
        r.err().unwrap(),
        GSvdError::RangeApproximationFailed { which: MatrixSide::Mat2 }
    );
}

#[test]
fn basis_with_wrong_row_count_is_inconsistent() {
    let m1 = MatrixHandle::Dense(zeros(5, 3));
    let m2 = MatrixHandle::Dense(zeros(4, 3));
    let g = GSvdApprox::new(m1, m2, budget(), None, ScalarPrecision::Double).unwrap();
    let q = identity_matrix(4);
    let r = g.accept_basis(MatrixSide::Mat1, Some(&q));
    assert_eq!(
        r.err().unwrap(),
        GSvdError::InternalInconsistency { kind: InconsistencyKind::ReducedShape }
    );
}

#[test]
fn reduced_problem_rejects_wrong_shapes() {
    let m1 = MatrixHandle::Dense(zeros(5, 3));
    let m2 = MatrixHandle::Dense(zeros(4, 3));
    let g = GSvdApprox::new(m1, m2, budget(), None, ScalarPrecision::Double).unwrap();
    let q1 = identity_matrix(5);
    let q2 = identity_matrix(4);
    let a1 = g.accept_basis(MatrixSide::Mat1, Some(&q1)).unwrap();
    let a2 = g.accept_basis(MatrixSide::Mat2, Some(&q2)).unwrap();
    // The first projection has the wrong row count (4 instead of rank 5).
    let r = g.reduced_problem(&a1, &a2, zeros(4, 3), zeros(4, 3));
    assert_eq!(
        r.err().unwrap(),
        GSvdError::InternalInconsistency { kind: InconsistencyKind::ReducedShape }
    );
}

#[test]
fn staged_solve_produces_the_documented_call_layout() {
    // Full-rank 5x3 and 3x3 pair: with identity bases no reduction happens
    // and the dense stage sees the original shapes.
    let a_vals = [
        1.0, 6.0, 11.0, 2.0, 7.0, 12.0, 3.0, 8.0, 13.0, 4.0, 9.0, 14.0, 5.0, 10.0, 15.0,
    ];
    let b_vals = [8.0, 1.0, 6.0, 3.0, 5.0, 7.0, 4.0, 9.0, 2.0];
    let m1 = MatrixHandle::Dense(dense(5, 3, &a_vals));
    let m2 = MatrixHandle::Dense(dense(3, 3, &b_vals));
    let g = GSvdApprox::new(m1, m2, budget(), None, ScalarPrecision::Double).unwrap();
    let q1 = identity_matrix(5);
    let q2 = identity_matrix(3);
    let a1 = g.accept_basis(MatrixSide::Mat1, Some(&q1)).unwrap();
    let a2 = g.accept_basis(MatrixSide::Mat2, Some(&q2)).unwrap();
    assert_eq!(a1.rank(), 5);
    assert_eq!(a2.rank(), 3);
    // Identity bases: the projections equal the inputs.
    let dense_problem = g
        .reduced_problem(&a1, &a2, dense(5, 3, &a_vals), dense(3, 3, &b_vals))
        .unwrap();
    let call = dense_problem.do_gsvd();
    assert_eq!(call.jobu, b'U');
    assert_eq!(call.jobv, b'V');
    assert_eq!(call.jobq, b'N');
    assert_eq!((call.m, call.n, call.p), (5, 3, 3));
    assert_eq!(call.lda, 3);
    assert_eq!(call.ldb, 3);
    assert_eq!(call.ldu, 5);
    assert_eq!(call.ldv, 3);
    assert_eq!(call.ldq, 3);
    assert_eq!(call.precision, ScalarPrecision::Double);
}

#[test]
fn csr_handles_flow_through_the_engine() {
    // A 3x3 sparse identity and a dense 2x3 matrix share a column count.
    let csr = CsrMatrix::new(
        3,
        3,
        vec![0, 1, 2, 3],
        vec![0, 1, 2],
        vec![1.0f64.to_bits(); 3],
    )
    .unwrap();
    let m1 = MatrixHandle::Csr(csr);
    let m2 = MatrixHandle::Dense(zeros(2, 3));
    let g = GSvdApprox::new(m1, m2, budget(), None, ScalarPrecision::Single).unwrap();
    let (r1, _r2) = g.approximation_requests();
    assert_eq!((r1.rows, r1.cols), (3, 3));
}

#[test]
fn nonconvergence_surfaces_as_typed_error() {
    // A primitive stub returning status code 1 must surface as
    // SolverNonConvergence, without panicking.
    let r = interpret_status(1);
    assert_eq!(r.err().unwrap(), GSvdError::SolverNonConvergence);
}

#[test]
fn status_codes_follow_the_documented_taxonomy() {
    assert!(interpret_status(0).is_ok());
    assert_eq!(
        interpret_status(-7).err().unwrap(),
        GSvdError::InvalidArgument { index: 7 }
    );
    assert_eq!(
        interpret_status(-1).err().unwrap(),
        GSvdError::InvalidArgument { index: 1 }
    );
    assert_eq!(
        interpret_status(3).err().unwrap(),
        GSvdError::InternalInconsistency { kind: InconsistencyKind::UndocumentedStatus }
    );
}

#[test]
fn optional_parameters_round_trip() {
    let p = GSvdOptParams::new(2.5f64.to_bits(), true, 1.0f64.to_bits(), false);
    assert_eq!(f64::from_bits(p.get_alpha_1()), 2.5);
    assert!(p.get_transpose_1());
    assert_eq!(f64::from_bits(p.get_alpha_2()), 1.0);
    assert!(!p.get_transpose_2());
    let m1 = MatrixHandle::Dense(zeros(5, 3));
    let m2 = MatrixHandle::Dense(zeros(4, 3));
    let g = GSvdApprox::new(m1, m2, budget(), Some(p), ScalarPrecision::Double).unwrap();
    assert_eq!(*g.get_parameters(), Some(p));
    let d = GSvd::new(zeros(5, 3), zeros(3, 3), ScalarPrecision::Double).unwrap();
    assert_eq!(*d.get_parameters(), None);
}

#[test]
fn full_pipeline_with_synthetic_primitive_output() {
    // Drive every stage: construction, approximation, reduction, call layout,
    // status interpretation and decoding, with a synthetic primitive output
    // whose factors are orthogonal and whose coefficients satisfy the
    // cosine/sine identity.
    let m1 = MatrixHandle::Dense(zeros(3, 3));
    let m2 = MatrixHandle::Dense(zeros(3, 3));
    let g = GSvdApprox::new(m1, m2, budget(), None, ScalarPrecision::Double).unwrap();
    let q1 = identity_matrix(3);
    let q2 = identity_matrix(3);
    let a1 = g.accept_basis(MatrixSide::Mat1, Some(&q1)).unwrap();
    let a2 = g.accept_basis(MatrixSide::Mat2, Some(&q2)).unwrap();
    let dense_problem = g.reduced_problem(&a1, &a2, zeros(3, 3), zeros(3, 3)).unwrap();
    let call = dense_problem.do_gsvd();
    assert_eq!((call.m, call.n, call.p), (3, 3, 3));
    interpret_status(0).unwrap();
    let alpha: Vec<u64> = [0.8f64, 0.6, 0.28].iter().map(|v| v.to_bits()).collect();
    let beta: Vec<u64> = [0.6f64, 0.8, 0.96].iter().map(|v| v.to_bits()).collect();
    let res = GSvdResult::init_from_lapack(
        3,
        3,
        3,
        identity_matrix(3),
        identity_matrix(3),
        0,
        3,
        alpha,
        beta,
    )
    .unwrap();
    assert!(res.check_uv_orthogonal().is_ok());
    let s1 = res.s1.as_ref().unwrap();
    let s2 = res.s2.as_ref().unwrap();
    for i in 0..s1.len() {
        let c = f64::from_bits(s1[i]);
        let s = f64::from_bits(s2[i]);
        assert!((c * c + s * s - 1.0).abs() < 1e-5);
        assert!((0.0..=1.0).contains(&c));
        assert!((0.0..=1.0).contains(&s));
        if i > 0 {
            assert!(c <= f64::from_bits(s1[i - 1]));
        }
    }
}
