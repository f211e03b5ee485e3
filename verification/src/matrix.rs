//! Matrix carriers for the engine.
//!
//! Matrices hold their scalars as binary64 bit patterns (`u64`): the engine
//! never computes with the values, it sizes, slices and validates them. A
//! `DenseMatrix` is a row-major buffer with its dimensions; a `CsrMatrix` is a
//! compressed-sparse-row triple with a verified structural invariant; a
//! `MatrixHandle` is the tagged union of the two that range approximation
//! accepts uniformly.

use vstd::prelude::*;

verus! {

/// The largest accepted dimension (2^24). Every dimension therefore fits the
/// dense primitive's 32-bit integer arguments, products of two dimensions fit
/// `usize`, and 128-bit accumulators in the orthogonality check cannot
/// overflow (each summand is below 2^102).
pub const MAX_DIM: usize = 0x100_0000;

/// A dense row-major matrix of binary64 bit patterns.
#[derive(Debug)]
pub struct DenseMatrix {
    rows: usize,
    cols: usize,
    data: Vec<u64>,
}

impl DenseMatrix {
    /// The number of rows.
    pub closed spec fn nrows(self) -> int {
        self.rows as int
    }

    /// The number of columns.
    pub closed spec fn ncols(self) -> int {
        self.cols as int
    }

    /// The row-major entries.
    pub closed spec fn entries(self) -> Seq<u64> {
        self.data@
    }

    /// Structural invariant: bounded dimensions and a buffer of exactly
    /// `rows * cols` entries.
    pub open spec fn wf(self) -> bool {
        &&& self.nrows() <= MAX_DIM as int
        &&& self.ncols() <= MAX_DIM as int
        &&& self.entries().len() == self.nrows() * self.ncols()
    }

    /// The entry in row `i`, column `j`.
    pub open spec fn entry(self, i: int, j: int) -> u64 {
        self.entries()[i * self.ncols() + j]
    }

    /// Builds a dense matrix, accepting exactly the buffers whose length
    /// matches the dimensions and whose dimensions are within `MAX_DIM`.
    pub fn new(rows: usize, cols: usize, data: Vec<u64>) -> (r: Option<DenseMatrix>)
        ensures
            match r {
                Some(m) => {
                    &&& m.wf()
                    &&& m.nrows() == rows
                    &&& m.ncols() == cols
                    &&& m.entries() == data@
                },
                None => !(rows <= MAX_DIM && cols <= MAX_DIM && data@.len() == rows * cols),
            },
    {
        if rows > MAX_DIM || cols > MAX_DIM {
            return None;
        }
        let dlen: usize = data.len();
        let expected = rows.checked_mul(cols);
        match expected {
            None => {
                // The buffer length is a usize, so it cannot match a product
                // that overflows usize.
                None
            },
            Some(e) => {
                if data.len() != e {
                    None
                } else {
                    Some(DenseMatrix { rows, cols, data })
                }
            },
        }
    }

    /// The number of rows, as an exec value.
    pub fn num_rows(&self) -> (r: usize)
        ensures
            r == self.nrows(),
    {
        self.rows
    }

    /// The number of columns, as an exec value.
    pub fn num_cols(&self) -> (r: usize)
        ensures
            r == self.ncols(),
    {
        self.cols
    }

    /// The entry in row `i`, column `j`, as an exec value.
    pub fn entry_at(&self, i: usize, j: usize) -> (r: u64)
        requires
            self.wf(),
            i < self.nrows(),
            j < self.ncols(),
        ensures
            r == self.entry(i as int, j as int),
    {
        // Reading the length establishes that rows * cols fits usize, so the
        // index arithmetic below cannot overflow.
        let len: usize = self.data.len();
        proof {
            lemma_row_major_index(self.nrows(), self.ncols(), i as int, j as int);
        }
        self.data[i * self.cols + j]
    }

    /// The raw row-major buffer.
    pub fn raw_data(&self) -> (r: &Vec<u64>)
        ensures
            r@ == self.entries(),
    {
        &self.data
    }
}

/// A row-major index `i * cols + j` stays inside a `rows * cols` buffer.
pub proof fn lemma_row_major_index(rows: int, cols: int, i: int, j: int)
    requires
        0 <= i < rows,
        0 <= j < cols,
    ensures
        0 <= i * cols + j < rows * cols,
{
    assert(i * cols + j < rows * cols) by (nonlinear_arith)
        requires
            0 <= i < rows,
            0 <= j < cols,
    ;
    assert(0 <= i * cols) by (nonlinear_arith)
        requires
            0 <= i,
            0 <= cols,
    ;
}

/// The compressed-sparse-row invariant: one offset per row plus a terminator,
/// offsets starting at zero, nondecreasing and ending at the number of stored
/// entries, every column index in range, and bounded dimensions.
pub open spec fn csr_structure_ok(
    rows: int,
    cols: int,
    offsets: Seq<usize>,
    indices: Seq<usize>,
    stored: Seq<u64>,
) -> bool {
    &&& rows <= MAX_DIM as int
    &&& cols <= MAX_DIM as int
    &&& offsets.len() == rows + 1
    &&& offsets[0] == 0
    &&& forall|i: int| 0 <= i < rows ==> #[trigger] offsets[i] <= offsets[i + 1]
    &&& offsets[rows] == stored.len()
    &&& indices.len() == stored.len()
    &&& forall|t: int| 0 <= t < indices.len() ==> #[trigger] indices[t] < cols
}

/// A sparse matrix in compressed-sparse-row form, with binary64 bit patterns
/// as stored values.
#[derive(Debug)]
pub struct CsrMatrix {
    rows: usize,
    cols: usize,
    row_ptr: Vec<usize>,
    col_idx: Vec<usize>,
    values: Vec<u64>,
}

impl CsrMatrix {
    /// The number of rows.
    pub closed spec fn nrows(self) -> int {
        self.rows as int
    }

    /// The number of columns.
    pub closed spec fn ncols(self) -> int {
        self.cols as int
    }

    /// The row start offsets.
    pub closed spec fn row_offsets(self) -> Seq<usize> {
        self.row_ptr@
    }

    /// The column index of each stored entry.
    pub closed spec fn column_indices(self) -> Seq<usize> {
        self.col_idx@
    }

    /// The stored entries, row by row.
    pub closed spec fn stored(self) -> Seq<u64> {
        self.values@
    }

    /// Structural invariant of the compressed-sparse-row form.
    pub open spec fn wf(self) -> bool {
        csr_structure_ok(
            self.nrows(),
            self.ncols(),
            self.row_offsets(),
            self.column_indices(),
            self.stored(),
        )
    }

    /// Builds a CSR matrix, accepting exactly the triples that satisfy the
    /// structural invariant.
    pub fn new(
        rows: usize,
        cols: usize,
        row_ptr: Vec<usize>,
        col_idx: Vec<usize>,
        values: Vec<u64>,
    ) -> (r: Option<CsrMatrix>)
        ensures
            match r {
                Some(m) => {
                    &&& m.wf()
                    &&& m.nrows() == rows
                    &&& m.ncols() == cols
                    &&& m.row_offsets() == row_ptr@
                    &&& m.column_indices() == col_idx@
                    &&& m.stored() == values@
                },
                None => !csr_structure_ok(
                    rows as int,
                    cols as int,
                    row_ptr@,
                    col_idx@,
                    values@,
                ),
            },
    {
        if rows > MAX_DIM || cols > MAX_DIM {
            return None;
        }
        if row_ptr.len() != rows + 1 {
            return None;
        }
        if row_ptr[0] != 0 {
            return None;
        }
        if col_idx.len() != values.len() {
            return None;
        }
        if row_ptr[rows] != values.len() {
            return None;
        }
        let mut i: usize = 0;
        while i < rows
            invariant
                i <= rows,
                row_ptr@.len() == rows + 1,
                forall|t: int| 0 <= t < i ==> #[trigger] row_ptr@[t] <= row_ptr@[t + 1],
            decreases rows - i,
        {
            if row_ptr[i] > row_ptr[i + 1] {
                return None;
            }
            i = i + 1;
        }
        let mut t: usize = 0;
        while t < col_idx.len()
            invariant
                t <= col_idx@.len(),
                forall|s: int| 0 <= s < t ==> #[trigger] col_idx@[s] < cols,
            decreases col_idx@.len() - t,
        {
            if col_idx[t] >= cols {
                return None;
            }
            t = t + 1;
        }
        Some(CsrMatrix { rows, cols, row_ptr, col_idx, values })
    }

    /// The number of rows, as an exec value.
    pub fn num_rows(&self) -> (r: usize)
        ensures
            r == self.nrows(),
    {
        self.rows
    }

    /// The number of columns, as an exec value.
    pub fn num_cols(&self) -> (r: usize)
        ensures
            r == self.ncols(),
    {
        self.cols
    }
}

/// A matrix in either representation, as range approximation consumes it.
#[derive(Debug)]
pub enum MatrixHandle {
    Dense(DenseMatrix),
    Csr(CsrMatrix),
}

impl MatrixHandle {
    /// Structural invariant of the carried matrix.
    pub open spec fn wf(self) -> bool {
        match self {
            MatrixHandle::Dense(m) => m.wf(),
            MatrixHandle::Csr(m) => m.wf(),
        }
    }

    /// The number of rows.
    pub open spec fn nrows(self) -> int {
        match self {
            MatrixHandle::Dense(m) => m.nrows(),
            MatrixHandle::Csr(m) => m.nrows(),
        }
    }

    /// The number of columns.
    pub open spec fn ncols(self) -> int {
        match self {
            MatrixHandle::Dense(m) => m.ncols(),
            MatrixHandle::Csr(m) => m.ncols(),
        }
    }

    /// The number of rows, as an exec value.
    pub fn num_rows(&self) -> (r: usize)
        ensures
            r == self.nrows(),
    {
        match self {
            MatrixHandle::Dense(m) => m.num_rows(),
            MatrixHandle::Csr(m) => m.num_rows(),
        }
    }

    /// The number of columns, as an exec value.
    pub fn num_cols(&self) -> (r: usize)
        ensures
            r == self.ncols(),
    {
        match self {
            MatrixHandle::Dense(m) => m.num_cols(),
            MatrixHandle::Csr(m) => m.num_cols(),
        }
    }
}

} // verus!
