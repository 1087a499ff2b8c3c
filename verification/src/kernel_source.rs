//! WGSL sources of the elementwise kernels (strided and contiguous) and the
//! dense matrix kernels (tiled product, Kronecker product, rank and
//! determinant).

use crate::linalg::{DialectScalar, MatmulZero, MatrixRankScalar};
use crate::pipeline::BlockWidth;
use crate::text::{decimal, decimal_spec};
use vstd::prelude::*;

verus! {

/// The uniform record of a strided elementwise dispatch: the output shape,
/// the strides of both inputs and the output, and the offsets with the
/// element count.
pub open spec fn elementwise_meta_spec() -> Seq<char> {
    "struct Meta {\n        shape: vec4<u32>,\n        a_strides: vec4<i32>,\n        b_strides: vec4<i32>,\n        out_strides: vec4<i32>,\n        offsets: vec4<u32>,\n    }"@
}

/// The uniform record of a strided elementwise dispatch.
pub fn wgsl_meta() -> (s: &'static str)
    ensures
        s@ == elementwise_meta_spec(),
{
    "struct Meta {\n        shape: vec4<u32>,\n        a_strides: vec4<i32>,\n        b_strides: vec4<i32>,\n        out_strides: vec4<i32>,\n        offsets: vec4<u32>,\n    }"
}

/// The statements that decode invocation `i` into the three element offsets
/// through the four padded axes, last axis fastest.
pub open spec fn elementwise_decode_spec() -> Seq<char> {
    "    var rem = i;\n    var a_off = i32(lmeta.offsets.x);\n    var b_off = i32(lmeta.offsets.y);\n    var o_off = i32(lmeta.offsets.z);\n    for (var d: i32 = 3; d >= 0; d = d - 1) {\n        let dim = lmeta.shape[d];\n        let idx = i32(rem % dim);\n        rem = rem / dim;\n        a_off = a_off + idx * lmeta.a_strides[d];\n        b_off = b_off + idx * lmeta.b_strides[d];\n        o_off = o_off + idx * lmeta.out_strides[d];\n    }\n"@
}

/// The offset-decoding statements of a strided elementwise kernel.
pub fn wgsl_decode() -> (s: &'static str)
    ensures
        s@ == elementwise_decode_spec(),
{
    "    var rem = i;\n    var a_off = i32(lmeta.offsets.x);\n    var b_off = i32(lmeta.offsets.y);\n    var o_off = i32(lmeta.offsets.z);\n    for (var d: i32 = 3; d >= 0; d = d - 1) {\n        let dim = lmeta.shape[d];\n        let idx = i32(rem % dim);\n        rem = rem / dim;\n        a_off = a_off + idx * lmeta.a_strides[d];\n        b_off = b_off + idx * lmeta.b_strides[d];\n        o_off = o_off + idx * lmeta.out_strides[d];\n    }\n"
}

/// The unary elementwise kernel over `ty` with workgroups of `wg` lanes:
/// binding 0 the uniform record, 1 the input, 2 the output; each invocation
/// below the element count stores `expr` of its input value `x`.
pub open spec fn unary_shader_spec(ty: Seq<char>, wg: nat, expr: Seq<char>) -> Seq<char> {
    elementwise_meta_spec()
        + "\n@group(0) @binding(0) var<uniform> lmeta: Meta;\n@group(0) @binding(1) var<storage, read> a: array<"@
        + ty
        + ">;\n@group(0) @binding(2) var<storage, read_write> out: array<"@
        + ty
        + ">;\n\n@compute @workgroup_size("@
        + decimal_spec(wg)
        + ")\nfn main(@builtin(global_invocation_id) gid: vec3<u32>) {\n    let i = gid.x;\n    if (i >= lmeta.offsets.w) { return; }\n"@
        + elementwise_decode_spec()
        + "    let x = a[u32(a_off)];\n    out[u32(o_off)] = "@
        + expr
        + ";\n}\n"@
}

/// The WGSL source of the strided unary kernel computing `expr` of `x`.
pub fn unary_shader<T: DialectScalar>(width: BlockWidth, expr: &str) -> (s: String)
    ensures
        s@ == unary_shader_spec(T::TYPE_TOKEN@, width.spec_get() as nat, expr@),
{
    let wg_digits = decimal(width.get() as u64);
    let mut s = String::from_str(wgsl_meta());
    s.append("\n@group(0) @binding(0) var<uniform> lmeta: Meta;\n@group(0) @binding(1) var<storage, read> a: array<");
    s.append(T::TYPE_TOKEN);
    s.append(">;\n@group(0) @binding(2) var<storage, read_write> out: array<");
    s.append(T::TYPE_TOKEN);
    s.append(">;\n\n@compute @workgroup_size(");
    s.append(wg_digits.as_str());
    s.append(")\nfn main(@builtin(global_invocation_id) gid: vec3<u32>) {\n    let i = gid.x;\n    if (i >= lmeta.offsets.w) { return; }\n");
    s.append(wgsl_decode());
    s.append("    let x = a[u32(a_off)];\n    out[u32(o_off)] = ");
    s.append(expr);
    s.append(";\n}\n");
    s
}

/// The binary elementwise kernel over `ty` with workgroups of `wg` lanes:
/// binding 0 the uniform record, 1 and 2 the inputs, 3 the output; each
/// invocation stores `expr` of `lhs` and `rhs`.
pub open spec fn binary_shader_spec(ty: Seq<char>, wg: nat, expr: Seq<char>) -> Seq<char> {
    elementwise_meta_spec()
        + "\n@group(0) @binding(0) var<uniform> lmeta: Meta;\n@group(0) @binding(1) var<storage, read> a: array<"@
        + ty
        + ">;\n@group(0) @binding(2) var<storage, read> b: array<"@
        + ty
        + ">;\n@group(0) @binding(3) var<storage, read_write> out: array<"@
        + ty
        + ">;\n\n@compute @workgroup_size("@
        + decimal_spec(wg)
        + ")\nfn main(@builtin(global_invocation_id) gid: vec3<u32>) {\n    let i = gid.x;\n    if (i >= lmeta.offsets.w) { return; }\n"@
        + elementwise_decode_spec()
        + "    let lhs = a[u32(a_off)];\n    let rhs = b[u32(b_off)];\n    out[u32(o_off)] = "@
        + expr
        + ";\n}\n"@
}

/// The WGSL source of the strided binary kernel computing `expr` of `lhs`
/// and `rhs`.
pub fn binary_shader<T: DialectScalar>(width: BlockWidth, expr: &str) -> (s: String)
    ensures
        s@ == binary_shader_spec(T::TYPE_TOKEN@, width.spec_get() as nat, expr@),
{
    let wg_digits = decimal(width.get() as u64);
    let mut s = String::from_str(wgsl_meta());
    s.append("\n@group(0) @binding(0) var<uniform> lmeta: Meta;\n@group(0) @binding(1) var<storage, read> a: array<");
    s.append(T::TYPE_TOKEN);
    s.append(">;\n@group(0) @binding(2) var<storage, read> b: array<");
    s.append(T::TYPE_TOKEN);
    s.append(">;\n@group(0) @binding(3) var<storage, read_write> out: array<");
    s.append(T::TYPE_TOKEN);
    s.append(">;\n\n@compute @workgroup_size(");
    s.append(wg_digits.as_str());
    s.append(")\nfn main(@builtin(global_invocation_id) gid: vec3<u32>) {\n    let i = gid.x;\n    if (i >= lmeta.offsets.w) { return; }\n");
    s.append(wgsl_decode());
    s.append("    let lhs = a[u32(a_off)];\n    let rhs = b[u32(b_off)];\n    out[u32(o_off)] = ");
    s.append(expr);
    s.append(";\n}\n");
    s
}

/// The broadcast-scalar kernel over `ty` with workgroups of `wg` lanes:
/// binding 0 the uniform record, 1 the input, 2 the uniform scalar, 3 the
/// output; each invocation stores `expr` of `lhs` and the scalar `rhs`.
pub open spec fn scalar_shader_spec(ty: Seq<char>, wg: nat, expr: Seq<char>) -> Seq<char> {
    elementwise_meta_spec()
        + "\n@group(0) @binding(0) var<uniform> lmeta: Meta;\n@group(0) @binding(1) var<storage, read> a: array<"@
        + ty
        + ">;\n@group(0) @binding(2) var<uniform> scalar: "@
        + ty
        + ";\n@group(0) @binding(3) var<storage, read_write> out: array<"@
        + ty
        + ">;\n\n@compute @workgroup_size("@
        + decimal_spec(wg)
        + ")\nfn main(@builtin(global_invocation_id) gid: vec3<u32>) {\n    let i = gid.x;\n    if (i >= lmeta.offsets.w) { return; }\n"@
        + elementwise_decode_spec()
        + "    let lhs = a[u32(a_off)];\n    let rhs = scalar;\n    out[u32(o_off)] = "@
        + expr
        + ";\n}\n"@
}

/// The WGSL source of the strided broadcast-scalar kernel computing `expr`.
pub fn scalar_shader<T: DialectScalar>(width: BlockWidth, expr: &str) -> (s: String)
    ensures
        s@ == scalar_shader_spec(T::TYPE_TOKEN@, width.spec_get() as nat, expr@),
{
    let wg_digits = decimal(width.get() as u64);
    let mut s = String::from_str(wgsl_meta());
    s.append("\n@group(0) @binding(0) var<uniform> lmeta: Meta;\n@group(0) @binding(1) var<storage, read> a: array<");
    s.append(T::TYPE_TOKEN);
    s.append(">;\n@group(0) @binding(2) var<uniform> scalar: ");
    s.append(T::TYPE_TOKEN);
    s.append(";\n@group(0) @binding(3) var<storage, read_write> out: array<");
    s.append(T::TYPE_TOKEN);
    s.append(">;\n\n@compute @workgroup_size(");
    s.append(wg_digits.as_str());
    s.append(")\nfn main(@builtin(global_invocation_id) gid: vec3<u32>) {\n    let i = gid.x;\n    if (i >= lmeta.offsets.w) { return; }\n");
    s.append(wgsl_decode());
    s.append("    let lhs = a[u32(a_off)];\n    let rhs = scalar;\n    out[u32(o_off)] = ");
    s.append(expr);
    s.append(";\n}\n");
    s
}

/// The tiled matrix-product kernel over `ty` with additive identity `zero`:
/// bindings 0 to 2 the two inputs and the output, 3 to 5 their layouts;
/// 16 x 16 workgroups stage one tile of each input in workgroup memory per
/// step and each invocation writes one output element.
pub open spec fn matmul_source_spec(ty: Seq<char>, zero: Seq<char>) -> Seq<char> {
    matmul_source_before_kernel(ty, zero)
        + "var<workgroup> A_shared: array<array<"@
        + ty
        + ", 16>, 16>;\nvar<workgroup> B_shared: array<array<"@
        + ty
        + ", 16>, 16>;\n\n@compute @workgroup_size(16, 16)\nfn main(\n    @builtin(global_invocation_id) global_id: vec3<u32>,\n    @builtin(local_invocation_id) local_id: vec3<u32>\n) {\n    let row = global_id.y;\n    let col = global_id.x;\n    let local_row = local_id.y;\n    let local_col = local_id.x;\n\n    let m = a_layout.shape.x;\n    let k = a_layout.shape.y;\n    let n = b_layout.shape.y;\n\n    let stride_a_row = a_layout.strides.x;\n    let stride_a_col = a_layout.strides.y;\n    let stride_b_row = b_layout.strides.x;\n    let stride_b_col = b_layout.strides.y;\n\n    var sum = "@
        + ty
        + "("@
        + zero
        + ");\n    let num_tiles = (k + 15u) / 16u;\n\n    for (var tile_idx: u32 = 0u; tile_idx < num_tiles; tile_idx = tile_idx + 1u) {\n        // 1. Load A element into shared memory\n        let col_a = tile_idx * 16u + local_col;\n        if (row < m && col_a < k) {\n            let offset_a = i32(a_layout.offset) + i32(row) * stride_a_row + i32(col_a) * stride_a_col;\n            A_shared[local_row][local_col] = a[offset_a];\n        } else {\n            A_shared[local_row][local_col] = "@
        + ty
        + "("@
        + zero
        + ");\n        }\n\n        // 2. Load B element into shared memory\n        let row_b = tile_idx * 16u + local_row;\n        if (row_b < k && col < n) {\n            let offset_b = i32(b_layout.offset) + i32(row_b) * stride_b_row + i32(col) * stride_b_col;\n            B_shared[local_row][local_col] = b[offset_b];\n        } else {\n            B_shared[local_row][local_col] = "@
        + ty
        + "("@
        + zero
        + ");\n        }\n\n        // Synchronize to ensure all threads have finished loading the current tile\n        workgroupBarrier();\n\n        // 3. Accumulate product of the current tile\n        for (var i: u32 = 0u; i < 16u; i = i + 1u) {\n            sum = sum + A_shared[local_row][i] * B_shared[i][local_col];\n        }\n\n        // Synchronize before loading the next tile\n        workgroupBarrier();\n    }\n\n    if (row < m && col < n) {\n        let stride_c_row = c_layout.strides.x;\n        let stride_c_col = c_layout.strides.y;\n        let offset_c = i32(c_layout.offset) + i32(row) * stride_c_row + i32(col) * stride_c_col;\n        c[offset_c] = sum;\n    }\n}\n"@
}

/// The kernel text before its workgroup storage and entry point: the
/// uniform layouts and buffer bindings.
pub open spec fn matmul_source_before_kernel(ty: Seq<char>, zero: Seq<char>) -> Seq<char> {
    "\nstruct MatrixLayout {\n    shape: vec2<u32>,\n    strides: vec2<i32>,\n    offset: u32,\n}\n\n@group(0) @binding(0) var<storage, read> a: array<"@
        + ty
        + ">;\n@group(0) @binding(1) var<storage, read> b: array<"@
        + ty
        + ">;\n@group(0) @binding(2) var<storage, read_write> c: array<"@
        + ty
        + ">;\n@group(0) @binding(3) var<uniform> a_layout: MatrixLayout;\n@group(0) @binding(4) var<uniform> b_layout: MatrixLayout;\n@group(0) @binding(5) var<uniform> c_layout: MatrixLayout;\n\n"@
}

/// The WGSL source of the tiled matrix product for `T`.
pub fn matmul_shader_source<T: MatmulZero>() -> (s: String)
    ensures
        s@ == matmul_source_spec(T::TYPE_TOKEN@, T::WGSL_ZERO@),
{
    let mut s = String::from_str("\nstruct MatrixLayout {\n    shape: vec2<u32>,\n    strides: vec2<i32>,\n    offset: u32,\n}\n\n@group(0) @binding(0) var<storage, read> a: array<");
    s.append(T::TYPE_TOKEN);
    s.append(">;\n@group(0) @binding(1) var<storage, read> b: array<");
    s.append(T::TYPE_TOKEN);
    s.append(">;\n@group(0) @binding(2) var<storage, read_write> c: array<");
    s.append(T::TYPE_TOKEN);
    s.append(">;\n@group(0) @binding(3) var<uniform> a_layout: MatrixLayout;\n@group(0) @binding(4) var<uniform> b_layout: MatrixLayout;\n@group(0) @binding(5) var<uniform> c_layout: MatrixLayout;\n\n");
    s.append("var<workgroup> A_shared: array<array<");
    s.append(T::TYPE_TOKEN);
    s.append(", 16>, 16>;\nvar<workgroup> B_shared: array<array<");
    s.append(T::TYPE_TOKEN);
    s.append(", 16>, 16>;\n\n@compute @workgroup_size(16, 16)\nfn main(\n    @builtin(global_invocation_id) global_id: vec3<u32>,\n    @builtin(local_invocation_id) local_id: vec3<u32>\n) {\n    let row = global_id.y;\n    let col = global_id.x;\n    let local_row = local_id.y;\n    let local_col = local_id.x;\n\n    let m = a_layout.shape.x;\n    let k = a_layout.shape.y;\n    let n = b_layout.shape.y;\n\n    let stride_a_row = a_layout.strides.x;\n    let stride_a_col = a_layout.strides.y;\n    let stride_b_row = b_layout.strides.x;\n    let stride_b_col = b_layout.strides.y;\n\n    var sum = ");
    s.append(T::TYPE_TOKEN);
    s.append("(");
    s.append(T::WGSL_ZERO);
    s.append(");\n    let num_tiles = (k + 15u) / 16u;\n\n    for (var tile_idx: u32 = 0u; tile_idx < num_tiles; tile_idx = tile_idx + 1u) {\n        // 1. Load A element into shared memory\n        let col_a = tile_idx * 16u + local_col;\n        if (row < m && col_a < k) {\n            let offset_a = i32(a_layout.offset) + i32(row) * stride_a_row + i32(col_a) * stride_a_col;\n            A_shared[local_row][local_col] = a[offset_a];\n        } else {\n            A_shared[local_row][local_col] = ");
    s.append(T::TYPE_TOKEN);
    s.append("(");
    s.append(T::WGSL_ZERO);
    s.append(");\n        }\n\n        // 2. Load B element into shared memory\n        let row_b = tile_idx * 16u + local_row;\n        if (row_b < k && col < n) {\n            let offset_b = i32(b_layout.offset) + i32(row_b) * stride_b_row + i32(col) * stride_b_col;\n            B_shared[local_row][local_col] = b[offset_b];\n        } else {\n            B_shared[local_row][local_col] = ");
    s.append(T::TYPE_TOKEN);
    s.append("(");
    s.append(T::WGSL_ZERO);
    s.append(");\n        }\n\n        // Synchronize to ensure all threads have finished loading the current tile\n        workgroupBarrier();\n\n        // 3. Accumulate product of the current tile\n        for (var i: u32 = 0u; i < 16u; i = i + 1u) {\n            sum = sum + A_shared[local_row][i] * B_shared[i][local_col];\n        }\n\n        // Synchronize before loading the next tile\n        workgroupBarrier();\n    }\n\n    if (row < m && col < n) {\n        let stride_c_row = c_layout.strides.x;\n        let stride_c_col = c_layout.strides.y;\n        let offset_c = i32(c_layout.offset) + i32(row) * stride_c_row + i32(col) * stride_c_col;\n        c[offset_c] = sum;\n    }\n}\n");
    s
}

/// The Kronecker-product kernel over `ty`: bindings 0 to 2 the two inputs and
/// the output, 3 to 5 their layouts; each invocation writes one output
/// element as the product of the two input elements it indexes.
pub open spec fn kron_source_spec(ty: Seq<char>) -> Seq<char> {
    "\nstruct MatrixLayout {\n    shape: vec2<u32>,\n    strides: vec2<i32>,\n    offset: u32,\n}\n\n@group(0) @binding(0) var<storage, read> a: array<"@
        + ty
        + ">;\n@group(0) @binding(1) var<storage, read> b: array<"@
        + ty
        + ">;\n@group(0) @binding(2) var<storage, read_write> out: array<"@
        + ty
        + ">;\n@group(0) @binding(3) var<uniform> a_layout: MatrixLayout;\n@group(0) @binding(4) var<uniform> b_layout: MatrixLayout;\n@group(0) @binding(5) var<uniform> out_layout: MatrixLayout;\n\n@compute @workgroup_size(16, 16)\nfn main(@builtin(global_invocation_id) gid: vec3<u32>) {\n    let out_col = gid.x;\n    let out_row = gid.y;\n    let b_rows = b_layout.shape.x;\n    let b_cols = b_layout.shape.y;\n    let rows = a_layout.shape.x * b_rows;\n    let cols = a_layout.shape.y * b_cols;\n\n    if (out_row >= rows || out_col >= cols) {\n        return;\n    }\n\n    let a_row = out_row / b_rows;\n    let a_col = out_col / b_cols;\n    let b_row = out_row % b_rows;\n    let b_col = out_col % b_cols;\n\n    let a_offset = i32(a_layout.offset)\n        + i32(a_row) * a_layout.strides.x\n        + i32(a_col) * a_layout.strides.y;\n    let b_offset = i32(b_layout.offset)\n        + i32(b_row) * b_layout.strides.x\n        + i32(b_col) * b_layout.strides.y;\n    let out_offset = i32(out_layout.offset)\n        + i32(out_row) * out_layout.strides.x\n        + i32(out_col) * out_layout.strides.y;\n\n    out[u32(out_offset)] = a[u32(a_offset)] * b[u32(b_offset)];\n}\n"@
}

/// The WGSL source of the Kronecker product for `T`.
pub fn kron_shader_source<T: DialectScalar>() -> (s: String)
    ensures
        s@ == kron_source_spec(T::TYPE_TOKEN@),
{
    let mut s = String::from_str("\nstruct MatrixLayout {\n    shape: vec2<u32>,\n    strides: vec2<i32>,\n    offset: u32,\n}\n\n@group(0) @binding(0) var<storage, read> a: array<");
    s.append(T::TYPE_TOKEN);
    s.append(">;\n@group(0) @binding(1) var<storage, read> b: array<");
    s.append(T::TYPE_TOKEN);
    s.append(">;\n@group(0) @binding(2) var<storage, read_write> out: array<");
    s.append(T::TYPE_TOKEN);
    s.append(">;\n@group(0) @binding(3) var<uniform> a_layout: MatrixLayout;\n@group(0) @binding(4) var<uniform> b_layout: MatrixLayout;\n@group(0) @binding(5) var<uniform> out_layout: MatrixLayout;\n\n@compute @workgroup_size(16, 16)\nfn main(@builtin(global_invocation_id) gid: vec3<u32>) {\n    let out_col = gid.x;\n    let out_row = gid.y;\n    let b_rows = b_layout.shape.x;\n    let b_cols = b_layout.shape.y;\n    let rows = a_layout.shape.x * b_rows;\n    let cols = a_layout.shape.y * b_cols;\n\n    if (out_row >= rows || out_col >= cols) {\n        return;\n    }\n\n    let a_row = out_row / b_rows;\n    let a_col = out_col / b_cols;\n    let b_row = out_row % b_rows;\n    let b_col = out_col % b_cols;\n\n    let a_offset = i32(a_layout.offset)\n        + i32(a_row) * a_layout.strides.x\n        + i32(a_col) * a_layout.strides.y;\n    let b_offset = i32(b_layout.offset)\n        + i32(b_row) * b_layout.strides.x\n        + i32(b_col) * b_layout.strides.y;\n    let out_offset = i32(out_layout.offset)\n        + i32(out_row) * out_layout.strides.x\n        + i32(out_col) * out_layout.strides.y;\n\n    out[u32(out_offset)] = a[u32(a_offset)] * b[u32(b_offset)];\n}\n");
    s
}

/// The rank and determinant kernel over `ty`: binding 0 the uniform record,
/// 1 the input, 2 the scratch copy, 3 the rank and 4 the determinant. One
/// invocation runs Gauss-Jordan elimination with partial pivoting; pivots
/// above `tolerance * max |a|` count towards the rank, and a square matrix
/// of full rank gets the signed pivot product as determinant, any other
/// matrix zero.
pub open spec fn matrix_properties_source_spec(ty: Seq<char>) -> Seq<char> {
    "\nstruct RankMeta {\n    shape: vec2<u32>,\n    strides: vec2<i32>,\n    offset: u32,\n    tolerance: f32,\n    _pad: vec2<u32>,\n}\n\n@group(0) @binding(0) var<uniform> rank_meta: RankMeta;\n@group(0) @binding(1) var<storage, read> input: array<"@
        + ty
        + ">;\n@group(0) @binding(2) var<storage, read_write> scratch: array<"@
        + ty
        + ">;\n@group(0) @binding(3) var<storage, read_write> rank_out: array<u32>;\n@group(0) @binding(4) var<storage, read_write> det_out: array<"@
        + ty
        + ">;\n\n@compute @workgroup_size(1)\nfn main(@builtin(global_invocation_id) gid: vec3<u32>) {\n    if (gid.x != 0u) {\n        return;\n    }\n\n    let rows = rank_meta.shape.x;\n    let cols = rank_meta.shape.y;\n    if (rows == 0u || cols == 0u) {\n        rank_out[0] = 0u;\n        det_out[0] = "@
        + ty
        + "(0.0);\n        return;\n    }\n\n    let square = rows == cols;\n    var max_abs = "@
        + ty
        + "(0.0);\n    let len = rows * cols;\n    for (var idx = 0u; idx < len; idx = idx + 1u) {\n        let row = idx / cols;\n        let col = idx - row * cols;\n        let input_offset = i32(rank_meta.offset)\n            + i32(row) * rank_meta.strides.x\n            + i32(col) * rank_meta.strides.y;\n        let value = input[u32(input_offset)];\n        scratch[idx] = value;\n        max_abs = max(max_abs, abs(value));\n    }\n\n    if (max_abs <= "@
        + ty
        + "(0.0)) {\n        rank_out[0] = 0u;\n        det_out[0] = "@
        + ty
        + "(0.0);\n        return;\n    }\n\n    let threshold = max_abs * "@
        + ty
        + "(rank_meta.tolerance);\n    var rank = 0u;\n    var det = "@
        + ty
        + "(1.0);\n    var sign = "@
        + ty
        + "(1.0);\n    for (var col = 0u; col < cols; col = col + 1u) {\n        if (rank >= rows) {\n            break;\n        }\n\n        var pivot_row = rank;\n        var pivot_abs = "@
        + ty
        + "(0.0);\n        for (var row = rank; row < rows; row = row + 1u) {\n            let magnitude = abs(scratch[row * cols + col]);\n            if (magnitude > pivot_abs) {\n                pivot_abs = magnitude;\n                pivot_row = row;\n            }\n        }\n\n        if (pivot_abs > threshold) {\n            if (pivot_row != rank) {\n                sign = -sign;\n                for (var swap_col = 0u; swap_col < cols; swap_col = swap_col + 1u) {\n                    let lhs = rank * cols + swap_col;\n                    let rhs = pivot_row * cols + swap_col;\n                    let tmp = scratch[lhs];\n                    scratch[lhs] = scratch[rhs];\n                    scratch[rhs] = tmp;\n                }\n            }\n\n            let pivot = scratch[rank * cols + col];\n            if (square) {\n                det = det * pivot;\n            }\n            for (var row = 0u; row < rows; row = row + 1u) {\n                if (row != rank) {\n                    let factor = scratch[row * cols + col] / pivot;\n                    for (var elim_col = col; elim_col < cols; elim_col = elim_col + 1u) {\n                        let target_idx = row * cols + elim_col;\n                        let source = rank * cols + elim_col;\n                        scratch[target_idx] = scratch[target_idx] - factor * scratch[source];\n                    }\n                }\n            }\n            rank = rank + 1u;\n        }\n    }\n\n    rank_out[0] = rank;\n    if (square && rank == rows) {\n        det_out[0] = sign * det;\n    } else {\n        det_out[0] = "@
        + ty
        + "(0.0);\n    }\n}\n"@
}

/// The WGSL source of the rank and determinant kernel for `T`.
pub fn matrix_properties_shader_source<T: MatrixRankScalar>() -> (s: String)
    ensures
        s@ == matrix_properties_source_spec(T::TYPE_TOKEN@),
{
    let mut s = String::from_str("\nstruct RankMeta {\n    shape: vec2<u32>,\n    strides: vec2<i32>,\n    offset: u32,\n    tolerance: f32,\n    _pad: vec2<u32>,\n}\n\n@group(0) @binding(0) var<uniform> rank_meta: RankMeta;\n@group(0) @binding(1) var<storage, read> input: array<");
    s.append(T::TYPE_TOKEN);
    s.append(">;\n@group(0) @binding(2) var<storage, read_write> scratch: array<");
    s.append(T::TYPE_TOKEN);
    s.append(">;\n@group(0) @binding(3) var<storage, read_write> rank_out: array<u32>;\n@group(0) @binding(4) var<storage, read_write> det_out: array<");
    s.append(T::TYPE_TOKEN);
    s.append(">;\n\n@compute @workgroup_size(1)\nfn main(@builtin(global_invocation_id) gid: vec3<u32>) {\n    if (gid.x != 0u) {\n        return;\n    }\n\n    let rows = rank_meta.shape.x;\n    let cols = rank_meta.shape.y;\n    if (rows == 0u || cols == 0u) {\n        rank_out[0] = 0u;\n        det_out[0] = ");
    s.append(T::TYPE_TOKEN);
    s.append("(0.0);\n        return;\n    }\n\n    let square = rows == cols;\n    var max_abs = ");
    s.append(T::TYPE_TOKEN);
    s.append("(0.0);\n    let len = rows * cols;\n    for (var idx = 0u; idx < len; idx = idx + 1u) {\n        let row = idx / cols;\n        let col = idx - row * cols;\n        let input_offset = i32(rank_meta.offset)\n            + i32(row) * rank_meta.strides.x\n            + i32(col) * rank_meta.strides.y;\n        let value = input[u32(input_offset)];\n        scratch[idx] = value;\n        max_abs = max(max_abs, abs(value));\n    }\n\n    if (max_abs <= ");
    s.append(T::TYPE_TOKEN);
    s.append("(0.0)) {\n        rank_out[0] = 0u;\n        det_out[0] = ");
    s.append(T::TYPE_TOKEN);
    s.append("(0.0);\n        return;\n    }\n\n    let threshold = max_abs * ");
    s.append(T::TYPE_TOKEN);
    s.append("(rank_meta.tolerance);\n    var rank = 0u;\n    var det = ");
    s.append(T::TYPE_TOKEN);
    s.append("(1.0);\n    var sign = ");
    s.append(T::TYPE_TOKEN);
    s.append("(1.0);\n    for (var col = 0u; col < cols; col = col + 1u) {\n        if (rank >= rows) {\n            break;\n        }\n\n        var pivot_row = rank;\n        var pivot_abs = ");
    s.append(T::TYPE_TOKEN);
    s.append("(0.0);\n        for (var row = rank; row < rows; row = row + 1u) {\n            let magnitude = abs(scratch[row * cols + col]);\n            if (magnitude > pivot_abs) {\n                pivot_abs = magnitude;\n                pivot_row = row;\n            }\n        }\n\n        if (pivot_abs > threshold) {\n            if (pivot_row != rank) {\n                sign = -sign;\n                for (var swap_col = 0u; swap_col < cols; swap_col = swap_col + 1u) {\n                    let lhs = rank * cols + swap_col;\n                    let rhs = pivot_row * cols + swap_col;\n                    let tmp = scratch[lhs];\n                    scratch[lhs] = scratch[rhs];\n                    scratch[rhs] = tmp;\n                }\n            }\n\n            let pivot = scratch[rank * cols + col];\n            if (square) {\n                det = det * pivot;\n            }\n            for (var row = 0u; row < rows; row = row + 1u) {\n                if (row != rank) {\n                    let factor = scratch[row * cols + col] / pivot;\n                    for (var elim_col = col; elim_col < cols; elim_col = elim_col + 1u) {\n                        let target_idx = row * cols + elim_col;\n                        let source = rank * cols + elim_col;\n                        scratch[target_idx] = scratch[target_idx] - factor * scratch[source];\n                    }\n                }\n            }\n            rank = rank + 1u;\n        }\n    }\n\n    rank_out[0] = rank;\n    if (square && rank == rows) {\n        det_out[0] = sign * det;\n    } else {\n        det_out[0] = ");
    s.append(T::TYPE_TOKEN);
    s.append("(0.0);\n    }\n}\n");
    s
}

/// The contiguous unary kernel over `ty` with workgroups of `wg` lanes:
/// binding 0 the input, 1 the output; invocation `i` below the output length
/// stores `expr` of `x = a[i]`.
pub open spec fn contiguous_unary_spec(ty: Seq<char>, wg: nat, expr: Seq<char>) -> Seq<char> {
    "@group(0) @binding(0) var<storage, read> a: array<"@
        + ty
        + ">;\n@group(0) @binding(1) var<storage, read_write> out: array<"@
        + ty
        + ">;\n\n@compute @workgroup_size("@
        + decimal_spec(wg)
        + ")\nfn main(@builtin(global_invocation_id) gid: vec3<u32>) {\n    let i = gid.x;\n    if (i >= arrayLength(&out)) {\n        return;\n    }\n    let x = a[i];\n    out[i] = "@
        + expr
        + ";\n}\n"@
}

/// The WGSL source of this kernel for `T`.
pub fn contiguous_unary_shader<T: DialectScalar>(width: BlockWidth, expr: &str) -> (s: String)
    ensures
        s@ == contiguous_unary_spec(T::TYPE_TOKEN@, width.spec_get() as nat, expr@),
{
    let wg_digits = decimal(width.get() as u64);
    let mut s = String::from_str("@group(0) @binding(0) var<storage, read> a: array<");
    s.append(T::TYPE_TOKEN);
    s.append(">;\n@group(0) @binding(1) var<storage, read_write> out: array<");
    s.append(T::TYPE_TOKEN);
    s.append(">;\n\n@compute @workgroup_size(");
    s.append(wg_digits.as_str());
    s.append(")\nfn main(@builtin(global_invocation_id) gid: vec3<u32>) {\n    let i = gid.x;\n    if (i >= arrayLength(&out)) {\n        return;\n    }\n    let x = a[i];\n    out[i] = ");
    s.append(expr);
    s.append(";\n}\n");
    s
}

/// The contiguous binary kernel over `ty`: bindings 0 and 1 the inputs, 2 the
/// output; invocation `i` stores `expr` of `lhs = a[i]` and `rhs = b[i]`.
pub open spec fn contiguous_binary_spec(ty: Seq<char>, wg: nat, expr: Seq<char>) -> Seq<char> {
    "@group(0) @binding(0) var<storage, read> a: array<"@
        + ty
        + ">;\n@group(0) @binding(1) var<storage, read> b: array<"@
        + ty
        + ">;\n@group(0) @binding(2) var<storage, read_write> out: array<"@
        + ty
        + ">;\n\n@compute @workgroup_size("@
        + decimal_spec(wg)
        + ")\nfn main(@builtin(global_invocation_id) gid: vec3<u32>) {\n    let i = gid.x;\n    if (i >= arrayLength(&out)) {\n        return;\n    }\n    let lhs = a[i];\n    let rhs = b[i];\n    out[i] = "@
        + expr
        + ";\n}\n"@
}

/// The WGSL source of this kernel for `T`.
pub fn contiguous_binary_shader<T: DialectScalar>(width: BlockWidth, expr: &str) -> (s: String)
    ensures
        s@ == contiguous_binary_spec(T::TYPE_TOKEN@, width.spec_get() as nat, expr@),
{
    let wg_digits = decimal(width.get() as u64);
    let mut s = String::from_str("@group(0) @binding(0) var<storage, read> a: array<");
    s.append(T::TYPE_TOKEN);
    s.append(">;\n@group(0) @binding(1) var<storage, read> b: array<");
    s.append(T::TYPE_TOKEN);
    s.append(">;\n@group(0) @binding(2) var<storage, read_write> out: array<");
    s.append(T::TYPE_TOKEN);
    s.append(">;\n\n@compute @workgroup_size(");
    s.append(wg_digits.as_str());
    s.append(")\nfn main(@builtin(global_invocation_id) gid: vec3<u32>) {\n    let i = gid.x;\n    if (i >= arrayLength(&out)) {\n        return;\n    }\n    let lhs = a[i];\n    let rhs = b[i];\n    out[i] = ");
    s.append(expr);
    s.append(";\n}\n");
    s
}

/// The contiguous broadcast-scalar kernel over `ty`: binding 0 the input, 1
/// the uniform scalar, 2 the output; invocation `i` stores `expr` of
/// `lhs = a[i]` and `rhs = scalar`.
pub open spec fn contiguous_scalar_spec(ty: Seq<char>, wg: nat, expr: Seq<char>) -> Seq<char> {
    "@group(0) @binding(0) var<storage, read> a: array<"@
        + ty
        + ">;\n@group(0) @binding(1) var<uniform> scalar: "@
        + ty
        + ";\n@group(0) @binding(2) var<storage, read_write> out: array<"@
        + ty
        + ">;\n\n@compute @workgroup_size("@
        + decimal_spec(wg)
        + ")\nfn main(@builtin(global_invocation_id) gid: vec3<u32>) {\n    let i = gid.x;\n    if (i >= arrayLength(&out)) {\n        return;\n    }\n    let lhs = a[i];\n    let rhs = scalar;\n    out[i] = "@
        + expr
        + ";\n}\n"@
}

/// The WGSL source of this kernel for `T`.
pub fn contiguous_scalar_shader<T: DialectScalar>(width: BlockWidth, expr: &str) -> (s: String)
    ensures
        s@ == contiguous_scalar_spec(T::TYPE_TOKEN@, width.spec_get() as nat, expr@),
{
    let wg_digits = decimal(width.get() as u64);
    let mut s = String::from_str("@group(0) @binding(0) var<storage, read> a: array<");
    s.append(T::TYPE_TOKEN);
    s.append(">;\n@group(0) @binding(1) var<uniform> scalar: ");
    s.append(T::TYPE_TOKEN);
    s.append(";\n@group(0) @binding(2) var<storage, read_write> out: array<");
    s.append(T::TYPE_TOKEN);
    s.append(">;\n\n@compute @workgroup_size(");
    s.append(wg_digits.as_str());
    s.append(")\nfn main(@builtin(global_invocation_id) gid: vec3<u32>) {\n    let i = gid.x;\n    if (i >= arrayLength(&out)) {\n        return;\n    }\n    let lhs = a[i];\n    let rhs = scalar;\n    out[i] = ");
    s.append(expr);
    s.append(";\n}\n");
    s
}

} // verus!
