//! Compressed sparse row (CSR) matrices held in device buffers: validation
//! of the host parts, the packed index image the kernels read, and the
//! preflight of sparse products.

use crate::error::{message_of, HephaestusError};
use crate::layout::StridedLayout;
use crate::linalg::{to_i32, to_u32};
use crate::pipeline::{ceil_div, workgroups, BlockWidth};
use crate::text::{decimal, decimal_spec};
use vstd::prelude::*;

verus! {

/// The CSR invariant: `rows + 1` non-decreasing row pointers from zero to
/// the entry count, one column index per stored value, each below `columns`.
pub open spec fn csr_valid(
    nnz: int,
    col_indices: Seq<usize>,
    row_ptr: Seq<usize>,
    rows: int,
    columns: int,
) -> bool {
    &&& row_ptr.len() == rows + 1
    &&& row_ptr[0] == 0
    &&& row_ptr[rows] == nnz
    &&& forall|r: int| 0 <= r < rows ==> #[trigger] row_ptr[r] <= row_ptr[r + 1]
    &&& col_indices.len() == nnz
    &&& forall|k: int| 0 <= k < nnz ==> #[trigger] col_indices[k] < columns
}

fn invalid(message: &str) -> (e: HephaestusError)
    ensures
        e is InvalidConfiguration,
        message_of(e) == message@,
{
    HephaestusError::InvalidConfiguration { message: String::from_str(message) }
}

/// Check the CSR parts of a `rows x columns` matrix with `nnz` values.
pub fn validate_csr(
    nnz: usize,
    col_indices: &[usize],
    row_ptr: &[usize],
    rows: usize,
    columns: usize,
) -> (r: Result<(), HephaestusError>)
    ensures
        r is Ok <==> csr_valid(nnz as int, col_indices@, row_ptr@, rows as int, columns as int),
        r is Err ==> r->Err_0 is InvalidConfiguration,
        row_ptr@.len() != rows + 1 ==> message_of(r->Err_0)
            == "CSR row pointer count must be rows + 1"@,
        row_ptr@.len() == rows + 1 && row_ptr@[0] != 0 ==> message_of(r->Err_0)
            == "CSR row pointers must start at zero"@,
        row_ptr@.len() == rows + 1 && row_ptr@[0] == 0 && row_ptr@[rows as int] != nnz
            ==> message_of(r->Err_0) == "CSR row pointers must end at the stored value count"@,
{
    if row_ptr.len() == 0 || row_ptr.len() - 1 != rows {
        return Err(invalid("CSR row pointer count must be rows + 1"));
    }
    if row_ptr[0] != 0 {
        return Err(invalid("CSR row pointers must start at zero"));
    }
    if row_ptr[rows] != nnz {
        return Err(invalid("CSR row pointers must end at the stored value count"));
    }
    let mut r: usize = 0;
    while r < rows
        invariant
            r <= rows,
            row_ptr@.len() == rows + 1,
            row_ptr@[0] == 0,
            row_ptr@[rows as int] == nnz,
            forall|q: int| 0 <= q < r ==> #[trigger] row_ptr@[q] <= row_ptr@[q + 1],
        decreases rows - r,
    {
        if row_ptr[r] > row_ptr[r + 1] {
            return Err(invalid("CSR row pointers must not decrease"));
        }
        r = r + 1;
    }
    if col_indices.len() != nnz {
        return Err(invalid("CSR column index count must equal the stored value count"));
    }
    let mut k: usize = 0;
    while k < nnz
        invariant
            k <= nnz,
            col_indices@.len() == nnz,
            row_ptr@.len() == rows + 1,
            row_ptr@[0] == 0,
            row_ptr@[rows as int] == nnz,
            forall|q: int| 0 <= q < k ==> #[trigger] col_indices@[q] < columns,
        decreases nnz - k,
    {
        if col_indices[k] >= columns {
            let mut message = String::from_str("CSR column index ");
            let digits = decimal(col_indices[k] as u64);
            message.append(digits.as_str());
            message.append(" is out of bounds");
            return Err(HephaestusError::InvalidConfiguration { message });
        }
        k = k + 1;
    }
    Ok(())
}

/// Every value fits `u32`.
pub open spec fn all_u32(s: Seq<usize>) -> bool {
    forall|i: int| 0 <= i < s.len() ==> #[trigger] s[i] <= u32::MAX
}

/// `s` narrowed to `u32`.
pub open spec fn narrowed(s: Seq<usize>) -> Seq<u32> {
    s.map_values(|v: usize| v as u32)
}

/// `s` widened to `usize`.
pub open spec fn widened(s: Seq<u32>) -> Seq<usize> {
    s.map_values(|v: u32| v as usize)
}

fn narrow_all(values: &[usize], what: &str, out: &mut Vec<u32>) -> (r: Result<(), HephaestusError>)
    ensures
        r is Ok <==> all_u32(values@),
        r is Ok ==> final(out)@ == old(out)@ + narrowed(values@),
        r is Err ==> r->Err_0 is DispatchFailed,
{
    let ghost start = out@;
    let mut i: usize = 0;
    while i < values.len()
        invariant
            i <= values@.len(),
            out@ == start + narrowed(values@.subrange(0, i as int)),
            all_u32(values@.subrange(0, i as int)),
        decreases values@.len() - i,
    {
        let v = values[i];
        if v > u32::MAX as usize {
            let mut message = String::from_str("CSR ");
            message.append(what);
            message.append(" ");
            let digits = decimal(v as u64);
            message.append(digits.as_str());
            message.append(" exceeds u32 range");
            return Err(HephaestusError::DispatchFailed { message });
        }
        out.push(v as u32);
        proof {
            assert(values@.subrange(0, i + 1) =~= values@.subrange(0, i as int).push(v));
            assert(narrowed(values@.subrange(0, i + 1)) =~= narrowed(values@.subrange(0, i as int)).push(v as u32));
        }
        i = i + 1;
    }
    proof {
        assert(values@.subrange(0, i as int) =~= values@);
    }
    Ok(())
}

/// The packed index image the kernels read: the column indices followed by
/// the row pointers, each narrowed to `u32`.
pub fn pack_csr_indices(col_indices: &[usize], row_ptr: &[usize]) -> (r: Result<Vec<u32>, HephaestusError>)
    ensures
        r is Ok <==> all_u32(col_indices@) && all_u32(row_ptr@),
        r is Ok ==> r->Ok_0@ == narrowed(col_indices@) + narrowed(row_ptr@),
        r is Err ==> r->Err_0 is DispatchFailed,
{
    let mut indices: Vec<u32> = Vec::new();
    narrow_all(col_indices, "column index", &mut indices)?;
    narrow_all(row_ptr, "row pointer", &mut indices)?;
    assert(indices@ =~= narrowed(col_indices@) + narrowed(row_ptr@));
    Ok(indices)
}

/// Split a packed index image at `col_indices_len` back into column indices
/// and row pointers.
pub fn unpack_csr_indices(indices: &[u32], col_indices_len: usize) -> (r: (Vec<usize>, Vec<usize>))
    requires
        col_indices_len <= indices@.len(),
    ensures
        r.0@ == widened(indices@.subrange(0, col_indices_len as int)),
        r.1@ == widened(indices@.subrange(col_indices_len as int, indices@.len() as int)),
{
    let mut cols: Vec<usize> = Vec::new();
    let mut rows: Vec<usize> = Vec::new();
    let mut i: usize = 0;
    while i < indices.len()
        invariant
            col_indices_len <= indices@.len(),
            i <= indices@.len(),
            i <= col_indices_len ==> cols@ == widened(indices@.subrange(0, i as int)) && rows@.len()
                == 0,
            i > col_indices_len ==> cols@ == widened(indices@.subrange(0, col_indices_len as int))
                && rows@ == widened(indices@.subrange(col_indices_len as int, i as int)),
        decreases indices@.len() - i,
    {
        if i < col_indices_len {
            cols.push(indices[i] as usize);
            proof {
                assert(indices@.subrange(0, i + 1) =~= indices@.subrange(0, i as int).push(indices@[i as int]));
                assert(widened(indices@.subrange(0, i + 1)) =~= widened(indices@.subrange(0, i as int)).push(indices@[i as int] as usize));
            }
        } else {
            rows.push(indices[i] as usize);
            proof {
                assert(indices@.subrange(col_indices_len as int, i + 1) =~= indices@.subrange(col_indices_len as int, i as int).push(indices@[i as int]));
                assert(widened(indices@.subrange(col_indices_len as int, i + 1)) =~= widened(indices@.subrange(col_indices_len as int, i as int)).push(indices@[i as int] as usize));
                if i == col_indices_len {
                    assert(indices@.subrange(col_indices_len as int, i as int) =~= Seq::<u32>::empty());
                }
            }
        }
        i = i + 1;
    }
    proof {
        if col_indices_len == indices@.len() {
            assert(indices@.subrange(col_indices_len as int, indices@.len() as int) =~= Seq::<u32>::empty());
        }
    }
    (cols, rows)
}

/// Round-trip law of the index image: unpacking a packed image at the column
/// count gives back the column indices and row pointers that were packed.
pub proof fn lemma_csr_indices_roundtrip(col_indices: Seq<usize>, row_ptr: Seq<usize>)
    requires
        all_u32(col_indices),
        all_u32(row_ptr),
    ensures
        ({
            let packed = narrowed(col_indices) + narrowed(row_ptr);
            &&& widened(packed.subrange(0, col_indices.len() as int)) == col_indices
            &&& widened(packed.subrange(col_indices.len() as int, packed.len() as int)) == row_ptr
        }),
{
    let packed = narrowed(col_indices) + narrowed(row_ptr);
    assert(widened(packed.subrange(0, col_indices.len() as int)) =~= col_indices);
    assert(widened(packed.subrange(col_indices.len() as int, packed.len() as int)) =~= row_ptr);
}

/// The index image of CSR parts: column indices, then row pointers.
pub open spec fn csr_image(col_indices: Seq<usize>, row_ptr: Seq<usize>) -> Seq<u32> {
    narrowed(col_indices) + narrowed(row_ptr)
}

/// The column indices an index image holds before `split`.
pub open spec fn image_columns(image: Seq<u32>, split: int) -> Seq<usize> {
    widened(image.subrange(0, split))
}

/// The row pointers an index image holds from `split` on.
pub open spec fn image_row_ptr(image: Seq<u32>, split: int) -> Seq<usize> {
    widened(image.subrange(split, image.len() as int))
}

/// The index image uploaded for a `rows x columns` CSR matrix with `nnz`
/// values: the parts must form a valid CSR matrix and every index and row
/// pointer must fit `u32`. The column indices end at `col_indices.len()`.
pub fn csr_upload_image(
    nnz: usize,
    col_indices: &[usize],
    row_ptr: &[usize],
    rows: usize,
    columns: usize,
) -> (r: Result<Vec<u32>, HephaestusError>)
    ensures
        r is Ok <==> csr_valid(nnz as int, col_indices@, row_ptr@, rows as int, columns as int)
            && all_u32(col_indices@) && all_u32(row_ptr@),
        r is Ok ==> r->Ok_0@ == csr_image(col_indices@, row_ptr@),
        !csr_valid(nnz as int, col_indices@, row_ptr@, rows as int, columns as int) ==> r is Err
            && r->Err_0 is InvalidConfiguration,
        csr_valid(nnz as int, col_indices@, row_ptr@, rows as int, columns as int) && r is Err
            ==> r->Err_0 is DispatchFailed,
{
    validate_csr(nnz, col_indices, row_ptr, rows, columns)?;
    pack_csr_indices(col_indices, row_ptr)
}

/// Rebuild the CSR parts of a `rows x columns` matrix with `nnz` values from
/// a downloaded index image whose column indices end at `split`; parts that
/// do not form a valid CSR matrix are refused as a failed reconstruction,
/// with the reason after `"Failed to reconstruct CPU CsrMatrix: "`.
pub fn csr_parts_from_image(
    image: &[u32],
    split: usize,
    nnz: usize,
    rows: usize,
    columns: usize,
) -> (r: Result<(Vec<usize>, Vec<usize>), HephaestusError>)
    requires
        split <= image@.len(),
    ensures
        r is Ok <==> csr_valid(
            nnz as int,
            image_columns(image@, split as int),
            image_row_ptr(image@, split as int),
            rows as int,
            columns as int,
        ),
        r is Ok ==> r->Ok_0.0@ == image_columns(image@, split as int) && r->Ok_0.1@
            == image_row_ptr(image@, split as int),
        r is Err ==> r->Err_0 is AllocationFailed && exists|reason: Seq<char>|
            message_of(r->Err_0) == "Failed to reconstruct CPU CsrMatrix: "@ + reason,
{
    let (col_indices, row_ptr) = unpack_csr_indices(image, split);
    match validate_csr(nnz, col_indices.as_slice(), row_ptr.as_slice(), rows, columns) {
        Ok(()) => Ok((col_indices, row_ptr)),
        Err(e) => {
            let mut message = String::from_str("Failed to reconstruct CPU CsrMatrix: ");
            let reason = match e {
                HephaestusError::InvalidConfiguration { message } => message,
                HephaestusError::DispatchFailed { message } => message,
                HephaestusError::AllocationFailed { message } => message,
                HephaestusError::LengthMismatch { .. } => String::new(),
            };
            message.append(reason.as_str());
            Err(HephaestusError::AllocationFailed { message })
        },
    }
}

/// Round-trip law of a CSR upload and download: the index image uploaded
/// for valid parts whose indices fit `u32`, read back at the column count,
/// rebuilds exactly those parts, and they are accepted again.
pub proof fn lemma_csr_upload_download(
    nnz: int,
    col_indices: Seq<usize>,
    row_ptr: Seq<usize>,
    rows: int,
    columns: int,
)
    requires
        csr_valid(nnz, col_indices, row_ptr, rows, columns),
        all_u32(col_indices),
        all_u32(row_ptr),
    ensures
        ({
            let image = csr_image(col_indices, row_ptr);
            let split = col_indices.len() as int;
            &&& split <= image.len()
            &&& image_columns(image, split) == col_indices
            &&& image_row_ptr(image, split) == row_ptr
            &&& csr_valid(
                nnz,
                image_columns(image, split),
                image_row_ptr(image, split),
                rows,
                columns,
            )
        }),
{
    lemma_csr_indices_roundtrip(col_indices, row_ptr);
}

/// A CSR matrix whose values and packed indices live in device buffers of
/// types `V` and `I`.
#[derive(Debug, Clone)]
pub struct GpuCsrMatrix<V, I> {
    values: V,
    indices: I,
    nnz: usize,
    col_indices_len: usize,
    nrows: usize,
    ncols: usize,
}

impl<V, I> GpuCsrMatrix<V, I> {
    /// The number of stored entries.
    pub closed spec fn spec_nnz(&self) -> usize {
        self.nnz
    }

    /// The number of rows.
    pub closed spec fn spec_rows(&self) -> usize {
        self.nrows
    }

    /// The number of columns.
    pub closed spec fn spec_cols(&self) -> usize {
        self.ncols
    }

    /// Where the row pointers start in the index buffer.
    pub closed spec fn spec_row_ptr_offset(&self) -> usize {
        self.col_indices_len
    }

    /// The values buffer.
    pub closed spec fn spec_values(&self) -> V {
        self.values
    }

    /// The packed index buffer.
    pub closed spec fn spec_indices(&self) -> I {
        self.indices
    }

    /// Assemble a matrix from buffers holding `nnz` values and the packed
    /// index image of a `rows x columns` matrix; the row pointers start after
    /// the `nnz` column indices.
    pub fn from_buffers(values: V, indices: I, nnz: usize, rows: usize, columns: usize) -> (m: Self)
        ensures
            m.spec_nnz() == nnz,
            m.spec_rows() == rows,
            m.spec_cols() == columns,
            m.spec_row_ptr_offset() == nnz,
            m.spec_values() == values,
            m.spec_indices() == indices,
    {
        GpuCsrMatrix { values, indices, nnz, col_indices_len: nnz, nrows: rows, ncols: columns }
    }

    /// `(nrows, ncols)`.
    pub fn shape(&self) -> (s: (usize, usize))
        ensures
            s == (self.spec_rows(), self.spec_cols()),
    {
        (self.nrows, self.ncols)
    }

    /// Number of stored non-zero entries.
    pub fn nnz(&self) -> (n: usize)
        ensures
            n == self.spec_nnz(),
    {
        self.nnz
    }

    /// Access the underlying values buffer.
    pub fn values(&self) -> (v: &V)
        ensures
            *v == self.spec_values(),
    {
        &self.values
    }

    /// Access the packed index buffer.
    pub fn indices(&self) -> (i: &I)
        ensures
            *i == self.spec_indices(),
    {
        &self.indices
    }

    /// Where the row pointers start in the index buffer.
    pub fn row_ptr_offset(&self) -> (n: usize)
        ensures
            n == self.spec_row_ptr_offset(),
    {
        self.col_indices_len
    }
}

/// Grid and row-pointer offset of a sparse product launch.
#[derive(Debug, Clone, Copy, PartialEq, Eq, Structural)]
pub struct SparseLaunch {
    pub groups: u32,
    pub row_ptr_offset: u32,
}

/// Validate `y = A x` for a `rows x cols` matrix whose row pointers start at
/// `row_ptr_offset`, with `x_len` inputs and `y_len` outputs; `None` when
/// there are no rows.
pub fn spmv_preflight(
    rows: usize,
    cols: usize,
    row_ptr_offset: usize,
    x_len: usize,
    y_len: usize,
) -> (r: Result<Option<SparseLaunch>, HephaestusError>)
    ensures
        x_len != cols ==> (r is Err && r->Err_0 == (HephaestusError::LengthMismatch { host_len: cols, device_len: x_len })),
        x_len == cols && y_len != rows ==> (r is Err && r->Err_0 == (HephaestusError::LengthMismatch { host_len: rows, device_len: y_len })),
        x_len == cols && y_len == rows && rows == 0 ==> r is Ok && r->Ok_0 is None,
        x_len == cols && y_len == rows && rows > 0 ==> (r is Ok <==> ceil_div(rows as int, 256)
            <= u32::MAX && row_ptr_offset <= u32::MAX),
        r is Ok && r->Ok_0 is Some ==> r->Ok_0->0.groups == ceil_div(rows as int, 256)
            && r->Ok_0->0.row_ptr_offset == row_ptr_offset,
        x_len == cols && y_len == rows && rows > 0 && r is Err ==> message_of(r->Err_0) == if ceil_div(
            rows as int,
            256,
        ) > u32::MAX {
            crate::pipeline::workgroup_overflow_text(rows as nat)
        } else {
            "CSR row pointer offset "@ + decimal_spec(row_ptr_offset as nat) + " exceeds u32 range"@
        },
{
    if x_len != cols {
        return Err(HephaestusError::LengthMismatch { host_len: cols, device_len: x_len });
    }
    if y_len != rows {
        return Err(HephaestusError::LengthMismatch { host_len: rows, device_len: y_len });
    }
    if rows == 0 {
        return Ok(None);
    }
    let width = BlockWidth::standard();
    let groups = workgroups(rows, width)?;
    if row_ptr_offset > u32::MAX as usize {
        let mut message = String::from_str("CSR row pointer offset ");
        let digits = decimal(row_ptr_offset as u64);
        message.append(digits.as_str());
        message.append(" exceeds u32 range");
        return Err(HephaestusError::DispatchFailed { message });
    }
    Ok(Some(SparseLaunch { groups, row_ptr_offset: row_ptr_offset as u32 }))
}

/// Uniforms and grid of `C = A B` with a strided dense `B`.
#[derive(Debug, Clone, Copy)]
pub struct SpmmLaunch {
    pub matrix_shape: [u32; 2],
    pub b_shape: [u32; 2],
    pub b_strides: [i32; 2],
    pub offsets: [u32; 2],
    pub groups: u32,
}

/// Whether the uniforms of `C = A B` can be formed.
pub open spec fn spmm_fits(rows: int, cols: int, b: StridedLayout, row_ptr_offset: int) -> bool {
    &&& rows <= u32::MAX && cols <= u32::MAX
    &&& b.shape@[0] <= u32::MAX && b.shape@[1] <= u32::MAX
    &&& i32::MIN <= b.strides@[0] <= i32::MAX && i32::MIN <= b.strides@[1] <= i32::MAX
    &&& b.offset <= u32::MAX && row_ptr_offset <= u32::MAX
    &&& ceil_div(rows * b.shape@[1], 256) <= u32::MAX
}

/// Validate `C = A B` for a `rows x cols` CSR matrix, a strided dense `B`
/// over `b_len` values, and `c_len` outputs; `None` when `C` is empty.
pub fn spmm_preflight(
    rows: usize,
    cols: usize,
    row_ptr_offset: usize,
    b: &StridedLayout,
    b_len: usize,
    c_len: usize,
) -> (r: Result<Option<SpmmLaunch>, HephaestusError>)
    requires
        b.shape@.len() == 2,
        b.strides@.len() == 2,
        rows * b.shape@[1] <= usize::MAX,
    ensures
        b.shape@[0] != cols ==> (r is Err && r->Err_0 == (HephaestusError::LengthMismatch { host_len: cols, device_len: b.shape@[0] })),
        b.shape@[0] == cols && c_len != rows * b.shape@[1] ==> (r is Err && r->Err_0 == (HephaestusError::LengthMismatch { host_len: (rows * b.shape@[1]) as usize, device_len: c_len })),
        b.shape@[0] == cols && c_len == rows * b.shape@[1] && c_len == 0 ==> r is Ok && r->Ok_0 is None,
        b.shape@[0] == cols && c_len == rows * b.shape@[1] && c_len > 0 ==> (r is Ok <==> b.fits_storage(b_len as int) && spmm_fits(rows as int, cols as int, *b, row_ptr_offset as int)),
        r is Ok && r->Ok_0 is Some ==> {
            let l = r->Ok_0->0;
            &&& l.matrix_shape[0] == rows && l.matrix_shape[1] == cols
            &&& l.b_shape[0] == b.shape@[0] && l.b_shape[1] == b.shape@[1]
            &&& l.b_strides[0] == b.strides@[0] && l.b_strides[1] == b.strides@[1]
            &&& l.offsets[0] == b.offset && l.offsets[1] == row_ptr_offset
            &&& l.groups == ceil_div(c_len as int, 256)
        },
{
    let b_rows = b.shape[0];
    let b_cols = b.shape[1];
    if b_rows != cols {
        return Err(HephaestusError::LengthMismatch { host_len: cols, device_len: b_rows });
    }
    let expected = rows * b_cols;
    if c_len != expected {
        return Err(HephaestusError::LengthMismatch { host_len: expected, device_len: c_len });
    }
    if expected == 0 {
        return Ok(None);
    }
    match b.validate_storage_len(b_len) {
        Ok(()) => {},
        Err(e) => {
            return Err(HephaestusError::InvalidConfiguration { message: e.message });
        },
    }
    let m0 = to_u32(rows, "CSR row count")?;
    let m1 = to_u32(cols, "CSR column count")?;
    let b0 = to_u32(b_rows, "dense rhs row count")?;
    let b1 = to_u32(b_cols, "dense rhs column count")?;
    let s0 = to_i32(b.strides[0], "dense rhs row stride")?;
    let s1 = to_i32(b.strides[1], "dense rhs column stride")?;
    let o0 = to_u32(b.offset, "dense rhs offset")?;
    let o1 = to_u32(row_ptr_offset, "CSR row pointer offset")?;
    let groups = workgroups(expected, BlockWidth::standard())?;
    Ok(
        Some(
            SpmmLaunch {
                matrix_shape: [m0, m1],
                b_shape: [b0, b1],
                b_strides: [s0, s1],
                offsets: [o0, o1],
                groups,
            },
        ),
    )
}

/// A prepared sparse operation that can be recorded into a shared command
/// encoder.
pub enum PreparedSparseDispatch<'a, S, M> {
    /// Prepared CSR matrix-vector product.
    Spmv(&'a S),
    /// Prepared CSR matrix-matrix product.
    Spmm(&'a M),
}

/// Whether a batch of operations, identified by the devices they were
/// prepared on, can share one submission: it fails with `DispatchFailed` when
/// two devices differ, and returns `false` for an empty batch (nothing to
/// submit).
pub fn check_sparse_batch_devices(devices: &[usize]) -> (r: Result<bool, HephaestusError>)
    ensures
        r is Ok <==> forall|i: int| 0 <= i < devices@.len() ==> #[trigger] devices@[i] == devices@[0],
        r is Ok ==> r->Ok_0 == (devices@.len() > 0),
        r is Err ==> r->Err_0 is DispatchFailed && message_of(r->Err_0)
            == "prepared sparse batch contains operations from different WGPU devices"@,
{
    if devices.len() == 0 {
        return Ok(false);
    }
    let first = devices[0];
    let mut i: usize = 1;
    while i < devices.len()
        invariant
            devices@.len() > 0,
            first == devices@[0],
            1 <= i <= devices@.len(),
            forall|k: int| 0 <= k < i ==> #[trigger] devices@[k] == first,
        decreases devices@.len() - i,
    {
        if devices[i] != first {
            return Err(
                HephaestusError::DispatchFailed {
                    message: String::from_str(
                        "prepared sparse batch contains operations from different WGPU devices",
                    ),
                },
            );
        }
        i = i + 1;
    }
    Ok(true)
}

/// Sparse operator support for one device.
#[derive(Clone, Copy, Debug, Default)]
pub struct WgpuSparseOps;

} // verus!
