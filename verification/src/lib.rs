//! A randomized generalized singular value decomposition (GSVD) engine.
//!
//! The engine solves, for a pair of matrices with a common column count, the
//! generalized SVD of their low-rank range approximations: each matrix is
//! projected onto an orthonormal basis of its approximate column range, the
//! reduced pair is handed to a dense two-matrix GSVD primitive, and the
//! primitive's raw outputs (rank partition, orthogonal factors, cosine/sine
//! coefficients) are decoded and validated into a well-formed result.
//!
//! The range approximator, the dense primitive and every floating-point
//! computation are external collaborators: the caller performs them and hands
//! the outcomes back. This crate owns every decision in between — dimension
//! checks, the primitive's argument layout, the status-code taxonomy, the
//! rank-partition decoding rules and the consistency validations — and all of
//! it is verified. Floating-point values cross the boundary as their IEEE-754
//! binary64 bit patterns (`u64`), on which ordering and the tolerance checks
//! are exact integer computations.

pub mod error;
pub mod fbits;
pub mod fixedpt;
pub mod matrix;
pub mod gsvd;
pub mod randgsvd;
