//! Host-side validation and planning of the linear-algebra kernels: output
//! shapes, uniform layouts, launch grids, exponentiation schedules and the
//! identity-matrix kernel.

use crate::error::{message_of, HephaestusError};
use crate::layout::{zero_stride_axis, LayoutError, StridedLayout};
use crate::pipeline::ceil_div;
use crate::text::{decimal, decimal_spec};
use vstd::prelude::*;

verus! {

/// A scalar with a WGSL spelling.
pub trait DialectScalar {
    /// The scalar's WGSL type.
    const TYPE_TOKEN: &'static str;
}

/// Helper trait to substitute the correct zero literal in WGSL for different
/// scalar types.
pub trait MatmulZero: DialectScalar {
    /// The WGSL zero literal (e.g. `"0.0"`, `"0u"`, `"0"`).
    const WGSL_ZERO: &'static str;
}

/// Scalar whose host identity values support matrix-power initialization.
pub trait MatrixIdentityScalar: MatmulZero + Copy {
    /// Additive identity.
    const ZERO: Self;
    /// Multiplicative identity.
    const ONE: Self;
}

/// Scalar whose shader type supports the real-valued square root needed to
/// finish an L2 / Frobenius norm.
pub trait L2NormScalar: DialectScalar {}

/// Scalar whose shader type supports row-reduction rank estimation.
pub trait MatrixRankScalar: DialectScalar {}

impl DialectScalar for u32 {
    const TYPE_TOKEN: &'static str = "u32";
}

impl MatmulZero for u32 {
    const WGSL_ZERO: &'static str = "0u";
}

impl MatrixIdentityScalar for u32 {
    const ZERO: Self = 0;
    const ONE: Self = 1;
}

impl DialectScalar for i32 {
    const TYPE_TOKEN: &'static str = "i32";
}

impl MatmulZero for i32 {
    const WGSL_ZERO: &'static str = "0";
}

impl MatrixIdentityScalar for i32 {
    const ZERO: Self = 0;
    const ONE: Self = 1;
}

fn dispatch_failed(message: String) -> (e: HephaestusError)
    ensures
        e == (HephaestusError::DispatchFailed { message }),
{
    HephaestusError::DispatchFailed { message }
}

fn layout_failure(e: LayoutError) -> (h: HephaestusError)
    ensures
        h == (HephaestusError::InvalidConfiguration { message: e.message }),
{
    HephaestusError::InvalidConfiguration { message: e.message }
}

/// Narrow `value` to `u32`, naming it `what` in the error.
pub fn to_u32(value: usize, what: &str) -> (r: Result<u32, HephaestusError>)
    ensures
        r is Ok <==> value <= u32::MAX,
        r is Ok ==> r->Ok_0 == value,
        r is Err ==> r->Err_0 is DispatchFailed && message_of(r->Err_0) == what@ + " "@
            + decimal_spec(value as nat) + " exceeds u32 range"@,
{
    if value <= u32::MAX as usize {
        Ok(value as u32)
    } else {
        let mut message = String::from_str(what);
        message.append(" ");
        let digits = decimal(value as u64);
        message.append(digits.as_str());
        message.append(" exceeds u32 range");
        Err(dispatch_failed(message))
    }
}

/// A signed integer in decimal, with a leading minus sign when negative.
pub open spec fn signed_decimal(v: int) -> Seq<char> {
    if v < 0 {
        "-"@ + decimal_spec((-v) as nat)
    } else {
        decimal_spec(v as nat)
    }
}

/// Narrow `value` to `i32`, naming it `what` in the error.
pub fn to_i32(value: isize, what: &str) -> (r: Result<i32, HephaestusError>)
    ensures
        r is Ok <==> i32::MIN <= value <= i32::MAX,
        r is Ok ==> r->Ok_0 == value,
        r is Err ==> r->Err_0 is DispatchFailed && message_of(r->Err_0) == what@ + " "@
            + signed_decimal(value as int) + " exceeds i32 range"@,
{
    if i32::MIN as isize <= value && value <= i32::MAX as isize {
        Ok(value as i32)
    } else {
        let mut message = String::from_str(what);
        message.append(" ");
        if value < 0 {
            message.append("-");
            let magnitude = if value == isize::MIN {
                (isize::MAX as u64) + 1
            } else {
                (-value) as u64
            };
            let digits = decimal(magnitude);
            message.append(digits.as_str());
        } else {
            let digits = decimal(value as u64);
            message.append(digits.as_str());
        }
        message.append(" exceeds i32 range");
        Err(dispatch_failed(message))
    }
}

/// Packed layout metadata of a rank-2 matrix, as the WGSL `MatrixLayout`
/// uniform holds it.
#[derive(Debug, Clone, Copy)]
pub struct GpuMatrixLayout {
    pub shape: [u32; 2],
    pub strides: [i32; 2],
    pub offset: u32,
}

/// A rank-2 layout whose extents, strides and offset fit the uniform.
pub open spec fn matrix_layout_fits(l: StridedLayout) -> bool {
    &&& l.shape@[0] <= u32::MAX && l.shape@[1] <= u32::MAX
    &&& i32::MIN <= l.strides@[0] <= i32::MAX && i32::MIN <= l.strides@[1] <= i32::MAX
    &&& l.offset <= u32::MAX
}

/// The rank-2 layouts these kernels take.
pub open spec fn is_matrix(l: StridedLayout) -> bool {
    l.shape@.len() == 2 && l.strides@.len() == 2
}

/// Pack a rank-2 layout into the uniform form.
pub fn map_layout(layout: &StridedLayout) -> (r: Result<GpuMatrixLayout, HephaestusError>)
    requires
        is_matrix(*layout),
    ensures
        r is Ok <==> matrix_layout_fits(*layout),
        r is Ok ==> {
            &&& r->Ok_0.shape[0] == layout.shape@[0] && r->Ok_0.shape[1] == layout.shape@[1]
            &&& r->Ok_0.strides[0] == layout.strides@[0] && r->Ok_0.strides[1]
                == layout.strides@[1]
            &&& r->Ok_0.offset == layout.offset
        },
        r is Err ==> r->Err_0 is DispatchFailed,
{
    let rows = to_u32(layout.shape[0], "dimension")?;
    let cols = to_u32(layout.shape[1], "dimension")?;
    let s0 = to_i32(layout.strides[0], "stride")?;
    let s1 = to_i32(layout.strides[1], "stride")?;
    let offset = to_u32(layout.offset, "offset")?;
    Ok(GpuMatrixLayout { shape: [rows, cols], strides: [s0, s1], offset })
}

/// The extents of a shape in decimal, separated by `", "`.
pub open spec fn shape_items(shape: Seq<usize>) -> Seq<char>
    decreases shape.len(),
{
    if shape.len() == 0 {
        seq![]
    } else if shape.len() == 1 {
        decimal_spec(shape[0] as nat)
    } else {
        shape_items(shape.drop_last()) + ", "@ + decimal_spec(shape.last() as nat)
    }
}

/// A shape as messages print it: `[2, 3]`.
pub open spec fn shape_list(shape: Seq<usize>) -> Seq<char> {
    "["@ + shape_items(shape) + "]"@
}

fn shape_text(prefix: &str, shape: &[usize]) -> (s: String)
    ensures
        s@ == prefix@ + shape_list(shape@),
{
    let mut s = String::from_str(prefix);
    s.append("[");
    let mut i: usize = 0;
    while i < shape.len()
        invariant
            i <= shape@.len(),
            s@ == prefix@ + "["@ + shape_items(shape@.subrange(0, i as int)),
        decreases shape.len() - i,
    {
        if i > 0 {
            s.append(", ");
        }
        let digits = decimal(shape[i] as u64);
        s.append(digits.as_str());
        proof {
            let next = shape@.subrange(0, i + 1);
            assert(next.drop_last() =~= shape@.subrange(0, i as int));
            if i == 0 {
                assert(shape@.subrange(0, 0) =~= Seq::<usize>::empty());
                assert(shape_items(shape@.subrange(0, 0)) =~= Seq::<char>::empty());
            }
        }
        i = i + 1;
    }
    proof {
        assert(shape@.subrange(0, i as int) =~= shape@);
    }
    s.append("]");
    s
}

/// The shape of a Kronecker product: `[m * p, n * q]`.
pub fn kron_output_shape(lhs: [usize; 2], rhs: [usize; 2]) -> (r: Result<[usize; 2], HephaestusError>)
    ensures
        r is Ok <==> lhs[0] * rhs[0] <= usize::MAX && lhs[1] * rhs[1] <= usize::MAX,
        r is Ok ==> r->Ok_0[0] == lhs[0] * rhs[0] && r->Ok_0[1] == lhs[1] * rhs[1],
        r is Err ==> r->Err_0 is DispatchFailed,
        lhs[0] * rhs[0] > usize::MAX ==> message_of(r->Err_0) == "Kronecker row count overflows usize: "@
            + decimal_spec(lhs[0] as nat) + " * "@ + decimal_spec(rhs[0] as nat),
        lhs[0] * rhs[0] <= usize::MAX && lhs[1] * rhs[1] > usize::MAX ==> message_of(r->Err_0)
            == "Kronecker column count overflows usize: "@ + decimal_spec(lhs[1] as nat) + " * "@
            + decimal_spec(rhs[1] as nat),
{
    let rows = match lhs[0].checked_mul(rhs[0]) {
        Some(v) => v,
        None => {
            let mut message = String::from_str("Kronecker row count overflows usize: ");
            let a = decimal(lhs[0] as u64);
            message.append(a.as_str());
            message.append(" * ");
            let b = decimal(rhs[0] as u64);
            message.append(b.as_str());
            return Err(dispatch_failed(message));
        },
    };
    let cols = match lhs[1].checked_mul(rhs[1]) {
        Some(v) => v,
        None => {
            let mut message = String::from_str("Kronecker column count overflows usize: ");
            let a = decimal(lhs[1] as u64);
            message.append(a.as_str());
            message.append(" * ");
            let b = decimal(rhs[1] as u64);
            message.append(b.as_str());
            return Err(dispatch_failed(message));
        },
    };
    Ok([rows, cols])
}

/// The shape of a matrix product: `[rows(lhs), cols(rhs)]`, defined when the
/// shared extents agree.
pub fn matmul_output_shape(lhs: [usize; 2], rhs: [usize; 2]) -> (r: Result<[usize; 2], HephaestusError>)
    ensures
        r is Ok <==> lhs[1] == rhs[0],
        r is Ok ==> r->Ok_0[0] == lhs[0] && r->Ok_0[1] == rhs[1],
        r is Err ==> r->Err_0 is DispatchFailed && message_of(r->Err_0)
            == "matmul dimension mismatch: lhs "@ + shape_list(lhs@) + ", rhs "@ + shape_list(rhs@),
{
    if lhs[1] != rhs[0] {
        let mut message = shape_text("matmul dimension mismatch: lhs ", &lhs);
        let r = shape_text(", rhs ", &rhs);
        message.append(r.as_str());
        return Err(dispatch_failed(message));
    }
    Ok([lhs[0], rhs[1]])
}

/// The batch count two operands broadcast to.
pub open spec fn batch_of(lhs_batch: int, rhs_batch: int) -> int {
    if lhs_batch >= rhs_batch {
        lhs_batch
    } else {
        rhs_batch
    }
}

/// Two batched operands are compatible: each batch count is the larger one
/// or one, and the shared extents agree.
pub open spec fn batched_compatible(lhs: [usize; 3], rhs: [usize; 3]) -> bool {
    let batch = batch_of(lhs[0] as int, rhs[0] as int);
    &&& (lhs[0] == batch || lhs[0] == 1)
    &&& (rhs[0] == batch || rhs[0] == 1)
    &&& lhs[2] == rhs[1]
}

/// The shape of a batched matrix product, singleton batches broadcast.
pub fn batched_matmul_output_shape(lhs: [usize; 3], rhs: [usize; 3]) -> (r: Result<
    [usize; 3],
    HephaestusError,
>)
    ensures
        r is Ok <==> batched_compatible(lhs, rhs),
        r is Ok ==> r->Ok_0[0] == batch_of(lhs[0] as int, rhs[0] as int) && r->Ok_0[1] == lhs[1]
            && r->Ok_0[2] == rhs[2],
        r is Err ==> r->Err_0 is DispatchFailed && message_of(r->Err_0)
            == "batched matmul shape mismatch: lhs "@ + shape_list(lhs@) + ", rhs "@ + shape_list(
            rhs@,
        ),
{
    let batch = if lhs[0] >= rhs[0] {
        lhs[0]
    } else {
        rhs[0]
    };
    let lhs_ok = lhs[0] == batch || lhs[0] == 1;
    let rhs_ok = rhs[0] == batch || rhs[0] == 1;
    if !lhs_ok || !rhs_ok || lhs[2] != rhs[1] {
        let mut message = shape_text("batched matmul shape mismatch: lhs ", &lhs);
        let r = shape_text(", rhs ", &rhs);
        message.append(r.as_str());
        return Err(dispatch_failed(message));
    }
    Ok([batch, lhs[1], rhs[2]])
}

/// `g` is the uniform form of the rank-2 layout `l`.
pub open spec fn packs(g: GpuMatrixLayout, l: StridedLayout) -> bool {
    &&& g.shape[0] == l.shape@[0] && g.shape[1] == l.shape@[1]
    &&& g.strides[0] == l.strides@[0] && g.strides[1] == l.strides@[1]
    &&& g.offset == l.offset
}

/// The uniforms and grid of one tiled 16 x 16 matrix launch.
#[derive(Debug, Clone, Copy)]
pub struct MatrixLaunch {
    pub lhs: GpuMatrixLayout,
    pub rhs: GpuMatrixLayout,
    pub out: GpuMatrixLayout,
    pub groups_x: u32,
    pub groups_y: u32,
}

/// The output of a strided write may not address one element twice.
pub open spec fn writes_distinct(out: StridedLayout) -> bool {
    !(out.size_spec() != 0 && zero_stride_axis(out.shape@, out.strides@))
}

/// The three operands fit their buffers.
pub open spec fn operands_fit(
    lhs: StridedLayout,
    lhs_len: int,
    rhs: StridedLayout,
    rhs_len: int,
    out: StridedLayout,
    out_len: int,
) -> bool {
    lhs.fits_storage(lhs_len) && rhs.fits_storage(rhs_len) && out.fits_storage(out_len)
}

/// The three layouts fit the uniform form.
pub open spec fn operands_pack(lhs: StridedLayout, rhs: StridedLayout, out: StridedLayout) -> bool {
    matrix_layout_fits(lhs) && matrix_layout_fits(rhs) && matrix_layout_fits(out)
}

/// `launch` is the launch over `rows x cols` outputs for these operands.
pub open spec fn is_launch(
    launch: MatrixLaunch,
    lhs: StridedLayout,
    rhs: StridedLayout,
    out: StridedLayout,
    rows: int,
    cols: int,
) -> bool {
    &&& packs(launch.lhs, lhs) && packs(launch.rhs, rhs) && packs(launch.out, out)
    &&& launch.groups_x == ceil_div(cols, 16) && launch.groups_y == ceil_div(rows, 16)
}

/// Whether `matmul_preflight` accepts the operands.
pub open spec fn matmul_accepts(
    lhs: StridedLayout,
    lhs_len: int,
    rhs: StridedLayout,
    rhs_len: int,
    out: StridedLayout,
    out_len: int,
    aliases: bool,
) -> bool {
    &&& lhs.shape@[1] == rhs.shape@[0]
    &&& out.shape@[0] == lhs.shape@[0] && out.shape@[1] == rhs.shape@[1]
    &&& !aliases
    &&& operands_fit(lhs, lhs_len, rhs, rhs_len, out, out_len)
    &&& writes_distinct(out)
    &&& (lhs.shape@[0] == 0 || rhs.shape@[1] == 0 || (if lhs.shape@[1] == 0 {
        matrix_layout_fits(out)
    } else {
        operands_pack(lhs, rhs, out)
    }))
}

/// What a validated matrix product `out = lhs * rhs` of an `m x k` by a
/// `k x n` matrix dispatches.
#[derive(Debug, Clone, Copy)]
pub enum MatmulPlan {
    /// `m == 0` or `n == 0`: the output has no element and nothing is
    /// dispatched.
    Empty,
    /// `k == 0` with `m, n > 0`: the product is the zero matrix. The launch
    /// runs the tiled kernel over an empty inner dimension, which stages no
    /// tile and writes its additive identity to each of the `m x n` output
    /// elements that the layout of `out` addresses; the inputs are not read.
    ZeroFill(MatrixLaunch),
    /// The tiled product over `m x n` outputs.
    Product(MatrixLaunch),
}

/// `launch` writes the `rows x cols` zero matrix through `out`: the inputs
/// it names are `rows x 0` and `0 x cols` and never read.
pub open spec fn is_zero_fill(launch: MatrixLaunch, out: StridedLayout, rows: int, cols: int) -> bool {
    &&& packs(launch.out, out)
    &&& launch.lhs.shape[0] == rows && launch.lhs.shape[1] == 0
    &&& launch.rhs.shape[0] == 0 && launch.rhs.shape[1] == cols
    &&& launch.groups_x == ceil_div(cols, 16) && launch.groups_y == ceil_div(rows, 16)
}

fn check_storage(layout: &StridedLayout, len: usize) -> (r: Result<(), HephaestusError>)
    requires
        layout.wf(),
    ensures
        r is Ok <==> layout.fits_storage(len as int),
        r is Err ==> r->Err_0 is InvalidConfiguration,
{
    match layout.validate_storage_len(len) {
        Ok(()) => Ok(()),
        Err(e) => Err(layout_failure(e)),
    }
}

fn tiles(n: usize) -> (t: u32)
    requires
        n <= u32::MAX,
    ensures
        t == ceil_div(n as int, 16),
{
    let t = n / 16 + if n % 16 == 0 {
        0
    } else {
        1
    };
    t as u32
}

/// Validate a matrix product `out = lhs * rhs` over buffers of the given
/// lengths (`aliases`: the output buffer is one of the inputs) and plan its
/// launch: nothing when the output is empty, a zero fill of the output when
/// the inner dimension is zero, the tiled product otherwise.
pub fn matmul_preflight(
    lhs: &StridedLayout,
    lhs_len: usize,
    rhs: &StridedLayout,
    rhs_len: usize,
    out: &StridedLayout,
    out_len: usize,
    aliases: bool,
) -> (r: Result<MatmulPlan, HephaestusError>)
    requires
        is_matrix(*lhs),
        is_matrix(*rhs),
        is_matrix(*out),
    ensures
        r is Ok <==> matmul_accepts(
            *lhs,
            lhs_len as int,
            *rhs,
            rhs_len as int,
            *out,
            out_len as int,
            aliases,
        ),
        r is Ok ==> (r->Ok_0 is Empty <==> (lhs.shape@[0] == 0 || rhs.shape@[1] == 0)),
        r is Ok ==> (r->Ok_0 is ZeroFill <==> (lhs.shape@[0] != 0 && rhs.shape@[1] != 0
            && lhs.shape@[1] == 0)),
        r is Ok && r->Ok_0 is ZeroFill ==> is_zero_fill(
            r->Ok_0->ZeroFill_0,
            *out,
            lhs.shape@[0] as int,
            rhs.shape@[1] as int,
        ),
        r is Ok && r->Ok_0 is Product ==> is_launch(
            r->Ok_0->Product_0,
            *lhs,
            *rhs,
            *out,
            lhs.shape@[0] as int,
            rhs.shape@[1] as int,
        ),
        r is Err ==> r->Err_0 is DispatchFailed || r->Err_0 is InvalidConfiguration,
        r is Err && r->Err_0 is InvalidConfiguration ==> lhs.shape@[1] == rhs.shape@[0]
            && out.shape@[0] == lhs.shape@[0] && out.shape@[1] == rhs.shape@[1] && !aliases
            && !operands_fit(*lhs, lhs_len as int, *rhs, rhs_len as int, *out, out_len as int),
        lhs.shape@[1] == rhs.shape@[0] && out.shape@[0] == lhs.shape@[0] && out.shape@[1]
            == rhs.shape@[1] && !aliases && !operands_fit(
            *lhs,
            lhs_len as int,
            *rhs,
            rhs_len as int,
            *out,
            out_len as int,
        ) ==> r is Err && r->Err_0 is InvalidConfiguration,
        lhs.shape@[1] != rhs.shape@[0] ==> r is Err && r->Err_0 is DispatchFailed && message_of(r->Err_0)
            == "matmul dimension mismatch: lhs "@ + shape_list(lhs.shape@) + ", rhs "@ + shape_list(
            rhs.shape@,
        ),
        lhs.shape@[1] == rhs.shape@[0] && (out.shape@[0] != lhs.shape@[0] || out.shape@[1]
            != rhs.shape@[1]) ==> r is Err && r->Err_0 is DispatchFailed && message_of(r->Err_0)
            == "matmul dimension mismatch: lhs "@ + shape_list(lhs.shape@) + ", rhs "@ + shape_list(
            rhs.shape@,
        ) + ", out "@ + shape_list(out.shape@),
        lhs.shape@[1] == rhs.shape@[0] && out.shape@[0] == lhs.shape@[0] && out.shape@[1]
            == rhs.shape@[1] && aliases ==> r is Err && r->Err_0 is DispatchFailed && message_of(
            r->Err_0,
        ) == "output buffer must not alias either input buffer"@,
        lhs.shape@[1] == rhs.shape@[0] && out.shape@[0] == lhs.shape@[0] && out.shape@[1]
            == rhs.shape@[1] && !aliases && operands_fit(
            *lhs,
            lhs_len as int,
            *rhs,
            rhs_len as int,
            *out,
            out_len as int,
        ) && !writes_distinct(*out) ==> r is Err && r->Err_0 is DispatchFailed && message_of(
            r->Err_0,
        ) == "matmul output layout must not contain zero-stride aliasing"@,
{
    let lhs_shape = [lhs.shape[0], lhs.shape[1]];
    let rhs_shape = [rhs.shape[0], rhs.shape[1]];
    assert(lhs_shape@ =~= lhs.shape@);
    assert(rhs_shape@ =~= rhs.shape@);
    let shape = matmul_output_shape(lhs_shape, rhs_shape)?;
    if shape[0] != out.shape[0] || shape[1] != out.shape[1] {
        let mut message = shape_text("matmul dimension mismatch: lhs ", lhs.shape.as_slice());
        let a = shape_text(", rhs ", rhs.shape.as_slice());
        message.append(a.as_str());
        let b = shape_text(", out ", out.shape.as_slice());
        message.append(b.as_str());
        return Err(dispatch_failed(message));
    }
    if aliases {
        return Err(
            dispatch_failed(String::from_str("output buffer must not alias either input buffer")),
        );
    }
    check_storage(lhs, lhs_len)?;
    check_storage(rhs, rhs_len)?;
    check_storage(out, out_len)?;
    if out.has_zero_stride_aliasing() {
        return Err(
            dispatch_failed(
                String::from_str("matmul output layout must not contain zero-stride aliasing"),
            ),
        );
    }
    if shape[0] == 0 || shape[1] == 0 {
        return Ok(MatmulPlan::Empty);
    }
    if lhs.shape[1] == 0 {
        let c = map_layout(out)?;
        let rows = c.shape[0];
        let cols = c.shape[1];
        let a = GpuMatrixLayout { shape: [rows, 0], strides: [0, 0], offset: 0 };
        let b = GpuMatrixLayout { shape: [0, cols], strides: [0, 0], offset: 0 };
        return Ok(
            MatmulPlan::ZeroFill(
                MatrixLaunch {
                    lhs: a,
                    rhs: b,
                    out: c,
                    groups_x: tiles(shape[1]),
                    groups_y: tiles(shape[0]),
                },
            ),
        );
    }
    let a = map_layout(lhs)?;
    let b = map_layout(rhs)?;
    let c = map_layout(out)?;
    Ok(
        MatmulPlan::Product(
            MatrixLaunch {
                lhs: a,
                rhs: b,
                out: c,
                groups_x: tiles(shape[1]),
                groups_y: tiles(shape[0]),
            },
        ),
    )
}

/// Whether `kron_preflight` accepts the operands.
pub open spec fn kron_accepts(
    lhs: StridedLayout,
    lhs_len: int,
    rhs: StridedLayout,
    rhs_len: int,
    out: StridedLayout,
    out_len: int,
    aliases: bool,
) -> bool {
    let rows = lhs.shape@[0] * rhs.shape@[0];
    let cols = lhs.shape@[1] * rhs.shape@[1];
    &&& rows <= usize::MAX && cols <= usize::MAX
    &&& out.shape@[0] == rows && out.shape@[1] == cols
    &&& !aliases
    &&& operands_fit(lhs, lhs_len, rhs, rhs_len, out, out_len)
    &&& writes_distinct(out)
    &&& (rows == 0 || cols == 0 || operands_pack(lhs, rhs, out))
}

/// Validate a Kronecker product `out = lhs (x) rhs` and plan its launch;
/// `None` when the product is empty.
pub fn kron_preflight(
    lhs: &StridedLayout,
    lhs_len: usize,
    rhs: &StridedLayout,
    rhs_len: usize,
    out: &StridedLayout,
    out_len: usize,
    aliases: bool,
) -> (r: Result<Option<MatrixLaunch>, HephaestusError>)
    requires
        is_matrix(*lhs),
        is_matrix(*rhs),
        is_matrix(*out),
    ensures
        r is Ok <==> kron_accepts(
            *lhs,
            lhs_len as int,
            *rhs,
            rhs_len as int,
            *out,
            out_len as int,
            aliases,
        ),
        r is Ok ==> (r->Ok_0 is None <==> (out.shape@[0] == 0 || out.shape@[1] == 0)),
        r is Ok && r->Ok_0 is Some ==> is_launch(
            r->Ok_0->0,
            *lhs,
            *rhs,
            *out,
            out.shape@[0] as int,
            out.shape@[1] as int,
        ),
        r is Err ==> r->Err_0 is DispatchFailed || r->Err_0 is InvalidConfiguration,
        r is Err && r->Err_0 is InvalidConfiguration ==> out.shape@[0] == lhs.shape@[0]
            * rhs.shape@[0] && out.shape@[1] == lhs.shape@[1] * rhs.shape@[1] && !aliases
            && !operands_fit(*lhs, lhs_len as int, *rhs, rhs_len as int, *out, out_len as int),
        lhs.shape@[0] * rhs.shape@[0] > usize::MAX ==> r is Err && r->Err_0 is DispatchFailed
            && message_of(r->Err_0) == "Kronecker row count overflows usize: "@ + decimal_spec(
            lhs.shape@[0] as nat,
        ) + " * "@ + decimal_spec(rhs.shape@[0] as nat),
        lhs.shape@[0] * rhs.shape@[0] <= usize::MAX && lhs.shape@[1] * rhs.shape@[1] > usize::MAX
            ==> r is Err && r->Err_0 is DispatchFailed && message_of(r->Err_0)
            == "Kronecker column count overflows usize: "@ + decimal_spec(lhs.shape@[1] as nat)
            + " * "@ + decimal_spec(rhs.shape@[1] as nat),
        lhs.shape@[0] * rhs.shape@[0] <= usize::MAX && lhs.shape@[1] * rhs.shape@[1] <= usize::MAX
            && (out.shape@[0] != lhs.shape@[0] * rhs.shape@[0] || out.shape@[1] != lhs.shape@[1]
            * rhs.shape@[1]) ==> r is Err && r->Err_0 is DispatchFailed && message_of(r->Err_0)
            == "Kronecker output shape mismatch: lhs "@ + shape_list(lhs.shape@) + ", rhs "@
            + shape_list(rhs.shape@) + ", out "@ + shape_list(out.shape@),
        out.shape@[0] == lhs.shape@[0] * rhs.shape@[0] && out.shape@[1] == lhs.shape@[1]
            * rhs.shape@[1] && aliases ==> r is Err && r->Err_0 is DispatchFailed && message_of(
            r->Err_0,
        ) == "output buffer must not alias either input buffer"@,
        out.shape@[0] == lhs.shape@[0] * rhs.shape@[0] && out.shape@[1] == lhs.shape@[1]
            * rhs.shape@[1] && !aliases && operands_fit(
            *lhs,
            lhs_len as int,
            *rhs,
            rhs_len as int,
            *out,
            out_len as int,
        ) && !writes_distinct(*out) ==> r is Err && r->Err_0 is DispatchFailed && message_of(
            r->Err_0,
        ) == "Kronecker output layout must not contain zero-stride aliasing"@,
        out.shape@[0] == lhs.shape@[0] * rhs.shape@[0] && out.shape@[1] == lhs.shape@[1]
            * rhs.shape@[1] && !aliases && !operands_fit(
            *lhs,
            lhs_len as int,
            *rhs,
            rhs_len as int,
            *out,
            out_len as int,
        ) ==> r is Err && r->Err_0 is InvalidConfiguration,
{
    let shape = kron_output_shape([lhs.shape[0], lhs.shape[1]], [rhs.shape[0], rhs.shape[1]])?;
    if shape[0] != out.shape[0] || shape[1] != out.shape[1] {
        let mut message = shape_text("Kronecker output shape mismatch: lhs ", lhs.shape.as_slice());
        let a = shape_text(", rhs ", rhs.shape.as_slice());
        message.append(a.as_str());
        let b = shape_text(", out ", out.shape.as_slice());
        message.append(b.as_str());
        return Err(dispatch_failed(message));
    }
    if aliases {
        return Err(
            dispatch_failed(String::from_str("output buffer must not alias either input buffer")),
        );
    }
    check_storage(lhs, lhs_len)?;
    check_storage(rhs, rhs_len)?;
    check_storage(out, out_len)?;
    if out.has_zero_stride_aliasing() {
        return Err(
            dispatch_failed(
                String::from_str("Kronecker output layout must not contain zero-stride aliasing"),
            ),
        );
    }
    if shape[0] == 0 || shape[1] == 0 {
        return Ok(None);
    }
    let a = map_layout(lhs)?;
    let b = map_layout(rhs)?;
    let c = map_layout(out)?;
    let gx = to_u32(shape[1] / 16 + if shape[1] % 16 == 0 { 0 } else { 1 }, "Kronecker workgroups x")?;
    let gy = to_u32(shape[0] / 16 + if shape[0] % 16 == 0 { 0 } else { 1 }, "Kronecker workgroups y")?;
    Ok(Some(MatrixLaunch { lhs: a, rhs: b, out: c, groups_x: gx, groups_y: gy }))
}

/// The rank-3 layouts of batched matrices.
pub open spec fn is_batched(l: StridedLayout) -> bool {
    l.shape@.len() == 3 && l.strides@.len() == 3
}

/// Start of matrix `b` of a batched operand: singleton batches repeat
/// matrix zero.
pub open spec fn batch_offset(l: StridedLayout, b: int) -> int {
    if l.shape@[0] == 1 {
        l.offset as int
    } else {
        l.offset + b * l.strides@[0]
    }
}

/// Matrix `b` of a batched operand as a rank-2 layout.
pub open spec fn batch_slice(l: StridedLayout, b: int, m: StridedLayout) -> bool {
    &&& m.shape@ == seq![l.shape@[1], l.shape@[2]]
    &&& m.strides@ == seq![l.strides@[1], l.strides@[2]]
    &&& m.offset == batch_offset(l, b)
}

/// Every matrix start of a batched operand is an address.
pub open spec fn batch_offsets_fit(l: StridedLayout, batch: int) -> bool {
    forall|b: int| 0 <= b < batch ==> 0 <= #[trigger] batch_offset(l, b) <= usize::MAX
}

/// Whether `batched_matmul_plan` accepts the operands.
pub open spec fn batched_accepts(
    lhs: StridedLayout,
    lhs_len: int,
    rhs: StridedLayout,
    rhs_len: int,
    out: StridedLayout,
    out_len: int,
) -> bool {
    let ls = [lhs.shape@[0], lhs.shape@[1], lhs.shape@[2]];
    let rs = [rhs.shape@[0], rhs.shape@[1], rhs.shape@[2]];
    let batch = out.shape@[0] as int;
    &&& batched_compatible(ls, rs)
    &&& (lhs.shape@[0] == batch || lhs.shape@[0] == 1)
    &&& (rhs.shape@[0] == batch || rhs.shape@[0] == 1)
    &&& batch == batch_of(lhs.shape@[0] as int, rhs.shape@[0] as int)
    &&& out.shape@[1] == lhs.shape@[1] && out.shape@[2] == rhs.shape@[2]
    &&& operands_fit(lhs, lhs_len, rhs, rhs_len, out, out_len)
    &&& batch_offsets_fit(lhs, batch) && batch_offsets_fit(rhs, batch) && batch_offsets_fit(
        out,
        batch,
    )
}

/// One matrix product of a batch.
#[derive(Debug)]
pub struct BatchProduct {
    pub lhs: StridedLayout,
    pub rhs: StridedLayout,
    pub out: StridedLayout,
}

fn slice_of(l: &StridedLayout, b: usize) -> (r: Result<StridedLayout, HephaestusError>)
    requires
        is_batched(*l),
    ensures
        r is Ok <==> 0 <= batch_offset(*l, b as int) <= usize::MAX,
        r is Ok ==> batch_slice(*l, b as int, r->Ok_0) && r->Ok_0.wf(),
        r is Err ==> r->Err_0 is DispatchFailed,
{
    let offset: i128 = if l.shape[0] == 1 {
        l.offset as i128
    } else {
        let bb = b as i128;
        let ss = l.strides[0] as i128;
        assert(-0x7fff_ffff_ffff_ffff_8000_0000_0000_0000 <= bb * ss
            <= 0x7fff_ffff_ffff_fffe_8000_0000_0000_0001) by (nonlinear_arith)
            requires
                0 <= bb <= 0xffff_ffff_ffff_ffff,
                -0x8000_0000_0000_0000 <= ss <= 0x7fff_ffff_ffff_ffff,
        ;
        (l.offset as i128) + (b as i128) * (l.strides[0] as i128)
    };
    if offset < 0 || offset > usize::MAX as i128 {
        return Err(
            dispatch_failed(String::from_str("batched matmul matrix offset leaves the address range")),
        );
    }
    let mut shape: Vec<usize> = Vec::new();
    shape.push(l.shape[1]);
    shape.push(l.shape[2]);
    let mut strides: Vec<isize> = Vec::new();
    strides.push(l.strides[1]);
    strides.push(l.strides[2]);
    assert(shape@ =~= seq![l.shape@[1], l.shape@[2]]);
    assert(strides@ =~= seq![l.strides@[1], l.strides@[2]]);
    Ok(StridedLayout { shape, strides, offset: offset as usize })
}

/// Validate a batched product and split it into one rank-2 product per batch
/// entry, in order; singleton operand batches are reused for every entry.
pub fn batched_matmul_plan(
    lhs: &StridedLayout,
    lhs_len: usize,
    rhs: &StridedLayout,
    rhs_len: usize,
    out: &StridedLayout,
    out_len: usize,
) -> (r: Result<Vec<BatchProduct>, HephaestusError>)
    requires
        is_batched(*lhs),
        is_batched(*rhs),
        is_batched(*out),
    ensures
        r is Ok <==> batched_accepts(
            *lhs,
            lhs_len as int,
            *rhs,
            rhs_len as int,
            *out,
            out_len as int,
        ),
        r is Ok ==> r->Ok_0@.len() == out.shape@[0] && forall|b: int|
            0 <= b < r->Ok_0@.len() ==> {
                &&& batch_slice(*lhs, b, (#[trigger] r->Ok_0@[b]).lhs)
                &&& batch_slice(*rhs, b, r->Ok_0@[b].rhs)
                &&& batch_slice(*out, b, r->Ok_0@[b].out)
            },
        r is Err ==> r->Err_0 is DispatchFailed || r->Err_0 is InvalidConfiguration,
{
    let ls = [lhs.shape[0], lhs.shape[1], lhs.shape[2]];
    let rs = [rhs.shape[0], rhs.shape[1], rhs.shape[2]];
    let expected = batched_matmul_output_shape(ls, rs)?;
    let batch = out.shape[0];
    let lhs_ok = lhs.shape[0] == batch || lhs.shape[0] == 1;
    let rhs_ok = rhs.shape[0] == batch || rhs.shape[0] == 1;
    if !lhs_ok || !rhs_ok || expected[0] != out.shape[0] || expected[1] != out.shape[1]
        || expected[2] != out.shape[2] {
        let mut message = shape_text("batched matmul shape mismatch: lhs ", lhs.shape.as_slice());
        let a = shape_text(", rhs ", rhs.shape.as_slice());
        message.append(a.as_str());
        let b = shape_text(", out ", out.shape.as_slice());
        message.append(b.as_str());
        return Err(dispatch_failed(message));
    }
    check_storage(lhs, lhs_len)?;
    check_storage(rhs, rhs_len)?;
    check_storage(out, out_len)?;
    let mut products: Vec<BatchProduct> = Vec::new();
    let mut b: usize = 0;
    while b < batch
        invariant
            is_batched(*lhs),
            is_batched(*rhs),
            is_batched(*out),
            batch == out.shape@[0],
            b <= batch,
            products@.len() == b,
            forall|k: int| 0 <= k < b ==> 0 <= #[trigger] batch_offset(*lhs, k) <= usize::MAX,
            forall|k: int| 0 <= k < b ==> 0 <= #[trigger] batch_offset(*rhs, k) <= usize::MAX,
            forall|k: int| 0 <= k < b ==> 0 <= #[trigger] batch_offset(*out, k) <= usize::MAX,
            forall|k: int|
                0 <= k < b ==> {
                    &&& batch_slice(*lhs, k, (#[trigger] products@[k]).lhs)
                    &&& batch_slice(*rhs, k, products@[k].rhs)
                    &&& batch_slice(*out, k, products@[k].out)
                },
        decreases batch - b,
    {
        let l = match slice_of(lhs, b) {
            Ok(l) => l,
            Err(e) => {
                assert(!batch_offsets_fit(*lhs, batch as int)) by {
                    assert(0 <= b < batch);
                }
                return Err(e);
            },
        };
        let r = match slice_of(rhs, b) {
            Ok(r) => r,
            Err(e) => {
                assert(!batch_offsets_fit(*rhs, batch as int)) by {
                    assert(0 <= b < batch);
                }
                return Err(e);
            },
        };
        let o = match slice_of(out, b) {
            Ok(o) => o,
            Err(e) => {
                assert(!batch_offsets_fit(*out, batch as int)) by {
                    assert(0 <= b < batch);
                }
                return Err(e);
            },
        };
        products.push(BatchProduct { lhs: l, rhs: r, out: o });
        b = b + 1;
    }
    assert(batch_offsets_fit(*lhs, batch as int));
    assert(batch_offsets_fit(*rhs, batch as int));
    assert(batch_offsets_fit(*out, batch as int));
    Ok(products)
}

/// The `n x n` identity matrix in row-major order.
pub fn identity_matrix<T: MatrixIdentityScalar>(n: usize) -> (v: Vec<T>)
    requires
        n * n <= usize::MAX,
    ensures
        v@.len() == n * n,
        forall|i: int, j: int|
            0 <= i < n && 0 <= j < n ==> #[trigger] v@[i * n + j] == if i == j {
                T::ONE
            } else {
                T::ZERO
            },
{
    let total = n * n;
    let mut v: Vec<T> = Vec::new();
    let mut k: usize = 0;
    while k < total
        invariant
            total == n * n,
            k <= total,
            v@.len() == k,
            forall|p: int|
                0 <= p < k ==> #[trigger] v@[p] == if p % (n as int) == p / (n as int) {
                    T::ONE
                } else {
                    T::ZERO
                },
        decreases total - k,
    {
        if k % n == k / n {
            v.push(T::ONE);
        } else {
            v.push(T::ZERO);
        }
        k = k + 1;
    }
    assert forall|i: int, j: int| 0 <= i < n && 0 <= j < n implies #[trigger] v@[i * n + j]
        == if i == j {
        T::ONE
    } else {
        T::ZERO
    } by {
        let p = i * n + j;
        assert(0 <= p < n * n && p % (n as int) == j && p / (n as int) == i) by (nonlinear_arith)
            requires
                0 <= i < n,
                0 <= j < n,
                p == i * n + j,
        ;
    }
    v
}

/// Offsets of the identity kernel's uniform buffer: the one value starts at
/// the first multiple of `alignment` past the zero value, and the buffer ends
/// right after it.
pub open spec fn identity_layout_spec(size: int, alignment: int) -> (int, int) {
    let one_offset = ceil_div(size, alignment) * alignment;
    (one_offset, one_offset + size)
}

/// Lay out the zero and one values of `T` in one uniform buffer whose offsets
/// must be multiples of `alignment`: returns the one value's offset and the
/// buffer size.
pub fn identity_buffer_layout<T>(alignment: u64) -> (r: Result<(u64, u64), HephaestusError>)
    ensures
        r is Ok <==> alignment > 0 && identity_layout_spec(
            vstd::layout::size_of::<T>() as int,
            alignment as int,
        ).1 <= u64::MAX,
        r is Ok ==> r->Ok_0.0 == identity_layout_spec(
            vstd::layout::size_of::<T>() as int,
            alignment as int,
        ).0 && r->Ok_0.1 == identity_layout_spec(
            vstd::layout::size_of::<T>() as int,
            alignment as int,
        ).1,
        r is Err ==> r->Err_0 is InvalidConfiguration && message_of(r->Err_0) == if alignment
            == 0 {
            "identity uniform alignment must be non-zero"@
        } else {
            "identity uniform layout overflows u64"@
        },
{
    if alignment == 0 {
        return Err(
            HephaestusError::InvalidConfiguration {
                message: String::from_str("identity uniform alignment must be non-zero"),
            },
        );
    }
    let size = core::mem::size_of::<T>() as u64;
    assert(size % alignment != 0 ==> size / alignment < u64::MAX) by (nonlinear_arith)
        requires
            alignment > 0,
    ;
    let blocks = size / alignment + if size % alignment == 0 {
        0
    } else {
        1
    };
    assert(blocks == ceil_div(size as int, alignment as int)) by (nonlinear_arith)
        requires
            alignment > 0,
            blocks == size / alignment + if size % alignment == 0 {
                0int
            } else {
                1int
            },
    ;
    let one_offset = match blocks.checked_mul(alignment) {
        Some(v) => v,
        None => {
            assert(blocks * alignment + size > u64::MAX) by (nonlinear_arith)
                requires
                    blocks * alignment > u64::MAX,
                    size >= 0,
            ;
            return Err(
                HephaestusError::InvalidConfiguration {
                    message: String::from_str("identity uniform layout overflows u64"),
                },
            );
        },
    };
    match one_offset.checked_add(size) {
        Some(total) => Ok((one_offset, total)),
        None => Err(
            HephaestusError::InvalidConfiguration {
                message: String::from_str("identity uniform layout overflows u64"),
            },
        ),
    }
}

/// The identity kernel for scalar type `ty`: binding 0 is the output matrix,
/// binding 1 its order, bindings 2 and 3 the zero and one values; each
/// invocation writes `one` on the diagonal and `zero` elsewhere.
pub open spec fn identity_shader_spec(ty: Seq<char>) -> Seq<char> {
    "@group(0) @binding(0) var<storage, read_write> out: array<"@ + ty
        + ">;\n@group(0) @binding(1) var<uniform> order: vec4<u32>;\n@group(0) @binding(2) var<uniform> zero_value: "@
        + ty + ";\n@group(0) @binding(3) var<uniform> one_value: "@ + ty
        + ";\n\n@compute @workgroup_size(16, 16)\nfn main(@builtin(global_invocation_id) id: vec3<u32>) {\n    let n = order.x;\n    if (id.x >= n || id.y >= n) {\n        return;\n    }\n    out[id.y * n + id.x] = select(zero_value, one_value, id.x == id.y);\n}\n"@
}

/// The WGSL source of the identity kernel for `T`.
pub fn identity_shader_source<T: DialectScalar>() -> (s: String)
    ensures
        s@ == identity_shader_spec(T::TYPE_TOKEN@),
{
    let mut s = String::from_str("@group(0) @binding(0) var<storage, read_write> out: array<");
    s.append(T::TYPE_TOKEN);
    s.append(
        ">;\n@group(0) @binding(1) var<uniform> order: vec4<u32>;\n@group(0) @binding(2) var<uniform> zero_value: ",
    );
    s.append(T::TYPE_TOKEN);
    s.append(";\n@group(0) @binding(3) var<uniform> one_value: ");
    s.append(T::TYPE_TOKEN);
    s.append(
        ";\n\n@compute @workgroup_size(16, 16)\nfn main(@builtin(global_invocation_id) id: vec3<u32>) {\n    let n = order.x;\n    if (id.x >= n || id.y >= n) {\n        return;\n    }\n    out[id.y * n + id.x] = select(zero_value, one_value, id.x == id.y);\n}\n",
    );
    s
}

/// One host step of exponentiation by squaring.
#[derive(Debug, Clone, Copy, PartialEq, Eq, Structural)]
pub enum MatpowStep {
    /// `result = result * base`.
    MultiplyResult,
    /// `base = base * base`.
    SquareBase,
}

/// The powers of the input held by `result` and `base` after `steps`,
/// starting from the identity (`A^0`) and `A^1`.
pub open spec fn powers_after(steps: Seq<MatpowStep>) -> (nat, nat)
    decreases steps.len(),
{
    if steps.len() == 0 {
        (0, 1)
    } else {
        let prev = powers_after(steps.drop_last());
        match steps.last() {
            MatpowStep::MultiplyResult => ((prev.0 + prev.1) as nat, prev.1),
            MatpowStep::SquareBase => (prev.0, (2 * prev.1) as nat),
        }
    }
}

/// The squaring schedule of `A^exponent`: for each exponent bit from the
/// lowest, multiply the result by the base when the bit is set, then square
/// the base while higher bits remain. Empty for exponent zero.
pub fn matpow_schedule(exponent: u32) -> (steps: Vec<MatpowStep>)
    ensures
        powers_after(steps@).0 == exponent,
        exponent == 0 <==> steps@.len() == 0,
{
    let mut steps: Vec<MatpowStep> = Vec::new();
    if exponent == 0 {
        return steps;
    }
    let mut remaining = exponent;
    let ghost mut base: nat = 1;
    while remaining > 0
        invariant
            powers_after(steps@).1 == base,
            powers_after(steps@).0 + base * remaining == exponent,
            steps@.len() > 0 || remaining == exponent,
            exponent > 0,
        decreases remaining,
    {
        let ghost before = remaining;
        let ghost r0 = powers_after(steps@).0;
        let ghost prev = steps@;
        if remaining % 2 == 1 {
            steps.push(MatpowStep::MultiplyResult);
            assert(steps@.drop_last() =~= prev);
        }
        remaining = remaining / 2;
        assert(powers_after(steps@).0 + base * (2 * remaining) == exponent) by (nonlinear_arith)
            requires
                before % 2 == 1 ==> powers_after(steps@).0 == r0 + base,
                before % 2 == 0 ==> powers_after(steps@).0 == r0,
                r0 + base * before == exponent,
                remaining == before / 2,
        ;
        if remaining > 0 {
            let ghost mid = steps@;
            steps.push(MatpowStep::SquareBase);
            assert(steps@.drop_last() =~= mid);
            proof {
                base = 2 * base;
            }
            assert(powers_after(steps@).0 + base * remaining == exponent) by (nonlinear_arith)
                requires
                    powers_after(steps@).0 + (base / 2) * (2 * remaining) == exponent,
                    base % 2 == 0,
            ;
        } else {
            assert(powers_after(steps@).1 == base);
        }
    }
    steps
}

/// Validate `matpow`'s input: a square matrix that fits its buffer. Returns
/// its order.
pub fn matpow_preflight(matrix: &StridedLayout, buffer_len: usize) -> (r: Result<usize, HephaestusError>)
    requires
        is_matrix(*matrix),
    ensures
        r is Ok <==> matrix.shape@[0] == matrix.shape@[1] && matrix.fits_storage(buffer_len as int),
        r is Ok ==> r->Ok_0 == matrix.shape@[0],
        r is Err ==> r->Err_0 is DispatchFailed || r->Err_0 is InvalidConfiguration,
        matrix.shape@[0] != matrix.shape@[1] ==> r is Err && r->Err_0 is DispatchFailed
            && message_of(r->Err_0) == "matpow requires a square matrix, got shape "@ + shape_list(
            matrix.shape@,
        ),
        matrix.shape@[0] == matrix.shape@[1] && !matrix.fits_storage(buffer_len as int) ==> r is Err
            && r->Err_0 is InvalidConfiguration,
{
    if matrix.shape[0] != matrix.shape[1] {
        let message = shape_text("matpow requires a square matrix, got shape ", matrix.shape.as_slice());
        return Err(dispatch_failed(message));
    }
    check_storage(matrix, buffer_len)?;
    Ok(matrix.shape[0])
}

/// Validate a dot product of two vectors: their extents must agree. Returns
/// the length, zero meaning the result is the additive identity.
pub fn dot_length(a: &StridedLayout, b: &StridedLayout) -> (r: Result<usize, HephaestusError>)
    requires
        a.shape@.len() == 1,
        b.shape@.len() == 1,
    ensures
        r is Ok <==> a.shape@[0] == b.shape@[0],
        r is Ok ==> r->Ok_0 == a.shape@[0],
        r is Err ==> r->Err_0 is DispatchFailed && message_of(r->Err_0)
            == "dot product shape mismatch: lhs "@ + shape_list(a.shape@) + ", rhs "@ + shape_list(
            b.shape@,
        ),
{
    if a.shape[0] != b.shape[0] {
        let mut message = shape_text("dot product shape mismatch: lhs ", a.shape.as_slice());
        let t = shape_text(", rhs ", b.shape.as_slice());
        message.append(t.as_str());
        return Err(dispatch_failed(message));
    }
    Ok(a.shape[0])
}

/// The diagonal of a square matrix as a strided vector: `rows` elements with
/// stride `row stride + column stride` from the matrix offset; `None` for an
/// empty matrix, whose trace is the additive identity.
pub fn trace_diagonal(matrix: &StridedLayout) -> (r: Result<Option<StridedLayout>, HephaestusError>)
    requires
        is_matrix(*matrix),
    ensures
        r is Ok <==> matrix.shape@[0] == matrix.shape@[1] && (matrix.shape@[0] == 0 || isize::MIN
            <= matrix.strides@[0] + matrix.strides@[1] <= isize::MAX),
        r is Ok ==> (r->Ok_0 is None <==> matrix.shape@[0] == 0),
        r is Ok && r->Ok_0 is Some ==> {
            &&& r->Ok_0->0.shape@ == seq![matrix.shape@[0]]
            &&& r->Ok_0->0.strides@ == seq![(matrix.strides@[0] + matrix.strides@[1]) as isize]
            &&& r->Ok_0->0.offset == matrix.offset
        },
        r is Err ==> r->Err_0 is DispatchFailed,
        matrix.shape@[0] != matrix.shape@[1] ==> message_of(r->Err_0)
            == "trace requires a square matrix, got shape "@ + shape_list(matrix.shape@),
        matrix.shape@[0] == matrix.shape@[1] && r is Err ==> message_of(r->Err_0)
            == "trace diagonal stride overflows isize"@,
{
    if matrix.shape[0] != matrix.shape[1] {
        let message = shape_text("trace requires a square matrix, got shape ", matrix.shape.as_slice());
        return Err(dispatch_failed(message));
    }
    if matrix.shape[0] == 0 {
        return Ok(None);
    }
    let step = match matrix.strides[0].checked_add(matrix.strides[1]) {
        Some(s) => s,
        None => {
            return Err(dispatch_failed(String::from_str("trace diagonal stride overflows isize")));
        },
    };
    let mut shape: Vec<usize> = Vec::new();
    shape.push(matrix.shape[0]);
    let mut strides: Vec<isize> = Vec::new();
    strides.push(step);
    assert(shape@ =~= seq![matrix.shape@[0]]);
    assert(strides@ =~= seq![(matrix.strides@[0] + matrix.strides@[1]) as isize]);
    Ok(Some(StridedLayout { shape, strides, offset: matrix.offset }))
}

/// Integer uniforms of the rank / determinant kernel, and its scratch length.
#[derive(Debug, Clone, Copy)]
pub struct RankLaunch {
    pub shape: [u32; 2],
    pub strides: [i32; 2],
    pub offset: u32,
    pub scratch_len: usize,
}

/// Whether the rank / determinant kernel accepts a matrix.
pub open spec fn rank_accepts(matrix: StridedLayout, buffer_len: int, square: bool) -> bool {
    &&& square ==> matrix.shape@[0] == matrix.shape@[1]
    &&& matrix.shape@[0] != 0 && matrix.shape@[1] != 0
    &&& matrix.fits_storage(buffer_len)
    &&& matrix_layout_fits(matrix)
}

/// Validate the input of the rank (or, with `square`, determinant) kernel:
/// a non-empty matrix that fits its buffer and the kernel's integer uniforms.
pub fn rank_preflight(matrix: &StridedLayout, buffer_len: usize, square: bool) -> (r: Result<
    RankLaunch,
    HephaestusError,
>)
    requires
        is_matrix(*matrix),
    ensures
        r is Ok <==> rank_accepts(*matrix, buffer_len as int, square),
        r is Ok ==> {
            &&& r->Ok_0.shape[0] == matrix.shape@[0] && r->Ok_0.shape[1] == matrix.shape@[1]
            &&& r->Ok_0.strides[0] == matrix.strides@[0] && r->Ok_0.strides[1]
                == matrix.strides@[1]
            &&& r->Ok_0.offset == matrix.offset
            &&& r->Ok_0.scratch_len == matrix.size_spec()
        },
        r is Err ==> r->Err_0 is DispatchFailed || r->Err_0 is InvalidConfiguration,
        square && matrix.shape@[0] != matrix.shape@[1] ==> r is Err && r->Err_0 is DispatchFailed
            && message_of(r->Err_0) == "det requires a square matrix, got shape "@ + shape_list(
            matrix.shape@,
        ),
        !(square && matrix.shape@[0] != matrix.shape@[1]) && (matrix.shape@[0] == 0
            || matrix.shape@[1] == 0) ==> r is Err && r->Err_0 is DispatchFailed && message_of(
            r->Err_0,
        ) == "matrix rank is undefined for empty matrix with shape "@ + shape_list(matrix.shape@),
        !(square && matrix.shape@[0] != matrix.shape@[1]) && matrix.shape@[0] != 0
            && matrix.shape@[1] != 0 && !matrix.fits_storage(buffer_len as int) ==> r is Err
            && r->Err_0 is InvalidConfiguration,
{
    if square && matrix.shape[0] != matrix.shape[1] {
        let message = shape_text("det requires a square matrix, got shape ", matrix.shape.as_slice());
        return Err(dispatch_failed(message));
    }
    if matrix.shape[0] == 0 || matrix.shape[1] == 0 {
        let message = shape_text(
            "matrix rank is undefined for empty matrix with shape ",
            matrix.shape.as_slice(),
        );
        return Err(dispatch_failed(message));
    }
    check_storage(matrix, buffer_len)?;
    let len = match matrix.checked_size() {
        Ok(n) => n,
        Err(e) => {
            return Err(layout_failure(e));
        },
    };
    let rows = to_u32(matrix.shape[0], "rank row count")?;
    let cols = to_u32(matrix.shape[1], "rank column count")?;
    let s0 = to_i32(matrix.strides[0], "rank row stride")?;
    let s1 = to_i32(matrix.strides[1], "rank column stride")?;
    let offset = to_u32(matrix.offset, "rank input offset")?;
    Ok(RankLaunch { shape: [rows, cols], strides: [s0, s1], offset, scratch_len: len })
}

/// The element count of a norm's input and the row-major layout of its
/// temporary; `None` for an empty input, whose norm is the identity.
pub fn norm_plan(view: &StridedLayout) -> (r: Result<Option<(usize, StridedLayout)>, HephaestusError>)
    requires
        view.wf(),
    ensures
        r is Ok <==> view.size_fits() && (view.size_spec() == 0 || crate::layout::c_strides_fit(
            view.shape@,
        )),
        r is Ok ==> (r->Ok_0 is None <==> view.size_spec() == 0),
        r is Ok && r->Ok_0 is Some ==> {
            let (len, temp) = r->Ok_0->0;
            &&& len == view.size_spec()
            &&& temp.shape@ == view.shape@
            &&& temp.strides@ == crate::layout::c_strides_spec(view.shape@)
            &&& temp.offset == 0
        },
        r is Err ==> r->Err_0 is InvalidConfiguration,
{
    let len = match view.checked_size() {
        Ok(n) => n,
        Err(e) => {
            return Err(layout_failure(e));
        },
    };
    if len == 0 {
        return Ok(None);
    }
    match StridedLayout::c_contiguous(view.shape.as_slice()) {
        Ok(l) => Ok(Some((len, l))),
        Err(e) => Err(layout_failure(e)),
    }
}

} // verus!
