//! WGSL sources of the reduction, scan, sparse-product and stateful-update
//! kernels. The combining operation of a reduction or scan is given by its
//! identity literal and its WGSL expression over `lhs` and `rhs`.

use crate::linalg::{DialectScalar, MatmulZero};
use crate::pipeline::BlockWidth;
use crate::reduction::{axis0_tile_shape, tile_shape_spec};
use crate::text::{decimal, decimal_spec};
use vstd::prelude::*;

verus! {

/// One level of the reduction tree over `ty`: each workgroup of `wg` lanes
/// loads its slice of the input (the identity past the end), halves the
/// active lanes each step combining `lhs` and `rhs` with `expr`, and writes
/// its partial value at its workgroup index.
pub open spec fn tree_pass_source_spec(ty: Seq<char>, wg: nat, identity: Seq<char>, expr: Seq<char>) -> Seq<char> {
    "@group(0) @binding(0) var<storage, read> input: array<"@
        + ty
        + ">;\n@group(0) @binding(1) var<storage, read_write> output: array<"@
        + ty
        + ">;\n\nvar<workgroup> shared_data: array<"@
        + ty
        + ", "@
        + decimal_spec(wg)
        + ">;\n\n@compute @workgroup_size("@
        + decimal_spec(wg)
        + ")\nfn main(\n    @builtin(global_invocation_id) global_id: vec3<u32>,\n    @builtin(local_invocation_id) local_id: vec3<u32>,\n    @builtin(workgroup_id) workgroup_id: vec3<u32>\n) {\n    let i = global_id.x;\n    let num_elements = arrayLength(&input);\n    \n    if (i < num_elements) {\n        shared_data[local_id.x] = input[i];\n    } else {\n        shared_data[local_id.x] = "@
        + identity
        + ";\n    }\n    \n    workgroupBarrier();\n    \n    for (var stride = "@
        + decimal_spec(wg)
        + "u / 2u; stride > 0u; stride = stride / 2u) {\n        if (local_id.x < stride) {\n            let lhs = shared_data[local_id.x];\n            let rhs = shared_data[local_id.x + stride];\n            shared_data[local_id.x] = "@
        + expr
        + ";\n        }\n        workgroupBarrier();\n    }\n    \n    if (local_id.x == 0u) {\n        output[workgroup_id.x] = shared_data[0];\n    }\n}\n"@
}

/// The WGSL source of this kernel for `T`.
pub fn tree_pass_shader_source<T: DialectScalar>(width: BlockWidth, identity: &str, expr: &str) -> (s: String)
    ensures
        s@ == tree_pass_source_spec(T::TYPE_TOKEN@, width.spec_get() as nat, identity@, expr@),
{
    let wg_digits = decimal(width.get() as u64);
    let mut s = String::from_str("@group(0) @binding(0) var<storage, read> input: array<");
    s.append(T::TYPE_TOKEN);
    s.append(">;\n@group(0) @binding(1) var<storage, read_write> output: array<");
    s.append(T::TYPE_TOKEN);
    s.append(">;\n\nvar<workgroup> shared_data: array<");
    s.append(T::TYPE_TOKEN);
    s.append(", ");
    s.append(wg_digits.as_str());
    s.append(">;\n\n@compute @workgroup_size(");
    s.append(wg_digits.as_str());
    s.append(")\nfn main(\n    @builtin(global_invocation_id) global_id: vec3<u32>,\n    @builtin(local_invocation_id) local_id: vec3<u32>,\n    @builtin(workgroup_id) workgroup_id: vec3<u32>\n) {\n    let i = global_id.x;\n    let num_elements = arrayLength(&input);\n    \n    if (i < num_elements) {\n        shared_data[local_id.x] = input[i];\n    } else {\n        shared_data[local_id.x] = ");
    s.append(identity);
    s.append(";\n    }\n    \n    workgroupBarrier();\n    \n    for (var stride = ");
    s.append(wg_digits.as_str());
    s.append("u / 2u; stride > 0u; stride = stride / 2u) {\n        if (local_id.x < stride) {\n            let lhs = shared_data[local_id.x];\n            let rhs = shared_data[local_id.x + stride];\n            shared_data[local_id.x] = ");
    s.append(expr);
    s.append(";\n        }\n        workgroupBarrier();\n    }\n    \n    if (local_id.x == 0u) {\n        output[workgroup_id.x] = shared_data[0];\n    }\n}\n");
    s
}

/// The final single-workgroup reduction over `ty`: each of the `wg` lanes
/// folds every `wg`-th input into an accumulator starting at the identity,
/// then the lanes tree-reduce and lane zero writes output element zero.
pub open spec fn final_reduction_source_spec(ty: Seq<char>, wg: nat, identity: Seq<char>, expr: Seq<char>) -> Seq<char> {
    final_reduction_source_before_kernel(ty, wg, identity, expr)
        + "var<workgroup> shared_data: array<"@
        + ty
        + ", "@
        + decimal_spec(wg)
        + ">;\n\n@compute @workgroup_size("@
        + decimal_spec(wg)
        + ")\nfn main(@builtin(local_invocation_id) local_id: vec3<u32>) {\n    let lane = local_id.x;\n    let num_elements = arrayLength(&input);\n    var acc: "@
        + ty
        + " = "@
        + identity
        + ";\n    var i = lane;\n    loop {\n        if (i >= num_elements) {\n            break;\n        }\n        let lhs = acc;\n        let rhs = input[i];\n        acc = "@
        + expr
        + ";\n        i = i + "@
        + decimal_spec(wg)
        + "u;\n    }\n    shared_data[lane] = acc;\n    workgroupBarrier();\n\n    for (var stride = "@
        + decimal_spec(wg)
        + "u / 2u; stride > 0u; stride = stride / 2u) {\n        if (lane < stride) {\n            let lhs = shared_data[lane];\n            let rhs = shared_data[lane + stride];\n            shared_data[lane] = "@
        + expr
        + ";\n        }\n        workgroupBarrier();\n    }\n\n    if (lane == 0u) {\n        output[0u] = shared_data[0];\n    }\n}\n"@
}

/// The kernel text before its workgroup storage and entry point: the
/// uniform layouts and buffer bindings.
pub open spec fn final_reduction_source_before_kernel(ty: Seq<char>, wg: nat, identity: Seq<char>, expr: Seq<char>) -> Seq<char> {
    "@group(0) @binding(0) var<storage, read> input: array<"@
        + ty
        + ">;\n@group(0) @binding(1) var<storage, read_write> output: array<"@
        + ty
        + ">;\n\n"@
}

/// The WGSL source of this kernel for `T`.
pub fn final_reduction_shader_source<T: DialectScalar>(width: BlockWidth, identity: &str, expr: &str) -> (s: String)
    ensures
        s@ == final_reduction_source_spec(T::TYPE_TOKEN@, width.spec_get() as nat, identity@, expr@),
{
    let wg_digits = decimal(width.get() as u64);
    let mut s = String::from_str("@group(0) @binding(0) var<storage, read> input: array<");
    s.append(T::TYPE_TOKEN);
    s.append(">;\n@group(0) @binding(1) var<storage, read_write> output: array<");
    s.append(T::TYPE_TOKEN);
    s.append(">;\n\n");
    s.append("var<workgroup> shared_data: array<");
    s.append(T::TYPE_TOKEN);
    s.append(", ");
    s.append(wg_digits.as_str());
    s.append(">;\n\n@compute @workgroup_size(");
    s.append(wg_digits.as_str());
    s.append(")\nfn main(@builtin(local_invocation_id) local_id: vec3<u32>) {\n    let lane = local_id.x;\n    let num_elements = arrayLength(&input);\n    var acc: ");
    s.append(T::TYPE_TOKEN);
    s.append(" = ");
    s.append(identity);
    s.append(";\n    var i = lane;\n    loop {\n        if (i >= num_elements) {\n            break;\n        }\n        let lhs = acc;\n        let rhs = input[i];\n        acc = ");
    s.append(expr);
    s.append(";\n        i = i + ");
    s.append(wg_digits.as_str());
    s.append("u;\n    }\n    shared_data[lane] = acc;\n    workgroupBarrier();\n\n    for (var stride = ");
    s.append(wg_digits.as_str());
    s.append("u / 2u; stride > 0u; stride = stride / 2u) {\n        if (lane < stride) {\n            let lhs = shared_data[lane];\n            let rhs = shared_data[lane + stride];\n            shared_data[lane] = ");
    s.append(expr);
    s.append(";\n        }\n        workgroupBarrier();\n    }\n\n    if (lane == 0u) {\n        output[0u] = shared_data[0];\n    }\n}\n");
    s
}

/// The grid-strided axis reduction over `ty`: one workgroup of `wg` lanes per
/// output value, each lane folding every `wg`-th element of the reduced axis
/// before the lanes tree-reduce.
pub open spec fn axis_reduction_parallel_source_spec(ty: Seq<char>, wg: nat, identity: Seq<char>, expr: Seq<char>) -> Seq<char> {
    axis_reduction_parallel_source_before_kernel(ty, wg, identity, expr)
        + "var<workgroup> partials: array<"@
        + ty
        + ", "@
        + decimal_spec(wg)
        + ">;\n\n@compute @workgroup_size("@
        + decimal_spec(wg)
        + ")\nfn main(\n    @builtin(workgroup_id) workgroup_id: vec3<u32>,\n    @builtin(local_invocation_id) local_id: vec3<u32>\n) {\n    let i = workgroup_id.x;\n    let lane = local_id.x;\n    if (i >= axis_meta.offsets.w) {\n        return;\n    }\n\n    let axis = axis_meta.offsets.z;\n    let axis_len = select(axis_meta.input_shape.y, axis_meta.input_shape.x, axis == 0u);\n    let out_row = select(i, 0u, axis == 0u);\n    let out_col = select(0u, i, axis == 0u);\n\n    var acc: "@
        + ty
        + " = "@
        + identity
        + ";\n    var idx = lane;\n    loop {\n        if (idx >= axis_len) {\n            break;\n        }\n        let in_row = select(out_row, idx, axis == 0u);\n        let in_col = select(idx, out_col, axis == 0u);\n        let in_off = i32(axis_meta.offsets.x)\n            + i32(in_row) * axis_meta.input_strides.x\n            + i32(in_col) * axis_meta.input_strides.y;\n        let lhs = acc;\n        let rhs = input[u32(in_off)];\n        acc = "@
        + expr
        + ";\n        idx = idx + "@
        + decimal_spec(wg)
        + "u;\n    }\n    partials[lane] = acc;\n    workgroupBarrier();\n\n    var stride = "@
        + decimal_spec(wg)
        + "u / 2u;\n    loop {\n        if (stride == 0u) {\n            break;\n        }\n        if (lane < stride) {\n            let lhs = partials[lane];\n            let rhs = partials[lane + stride];\n            partials[lane] = "@
        + expr
        + ";\n        }\n        workgroupBarrier();\n        stride = stride / 2u;\n    }\n\n    if (lane == 0u) {\n        let out_off = i32(axis_meta.offsets.y)\n            + i32(out_row) * axis_meta.output_strides.x\n            + i32(out_col) * axis_meta.output_strides.y;\n        output[u32(out_off)] = partials[0u];\n    }\n}\n"@
}

/// The kernel text before its workgroup storage and entry point: the
/// uniform layouts and buffer bindings.
pub open spec fn axis_reduction_parallel_source_before_kernel(ty: Seq<char>, wg: nat, identity: Seq<char>, expr: Seq<char>) -> Seq<char> {
    "\nstruct AxisReductionMeta {\n    input_shape: vec2<u32>,\n    input_strides: vec2<i32>,\n    output_strides: vec2<i32>,\n    offsets: vec4<u32>,\n}\n\n@group(0) @binding(0) var<uniform> axis_meta: AxisReductionMeta;\n@group(0) @binding(1) var<storage, read> input: array<"@
        + ty
        + ">;\n@group(0) @binding(2) var<storage, read_write> output: array<"@
        + ty
        + ">;\n\n"@
}

/// The WGSL source of this kernel for `T`.
pub fn axis_reduction_parallel_shader_source<T: DialectScalar>(width: BlockWidth, identity: &str, expr: &str) -> (s: String)
    ensures
        s@ == axis_reduction_parallel_source_spec(T::TYPE_TOKEN@, width.spec_get() as nat, identity@, expr@),
{
    let wg_digits = decimal(width.get() as u64);
    let mut s = String::from_str("\nstruct AxisReductionMeta {\n    input_shape: vec2<u32>,\n    input_strides: vec2<i32>,\n    output_strides: vec2<i32>,\n    offsets: vec4<u32>,\n}\n\n@group(0) @binding(0) var<uniform> axis_meta: AxisReductionMeta;\n@group(0) @binding(1) var<storage, read> input: array<");
    s.append(T::TYPE_TOKEN);
    s.append(">;\n@group(0) @binding(2) var<storage, read_write> output: array<");
    s.append(T::TYPE_TOKEN);
    s.append(">;\n\n");
    s.append("var<workgroup> partials: array<");
    s.append(T::TYPE_TOKEN);
    s.append(", ");
    s.append(wg_digits.as_str());
    s.append(">;\n\n@compute @workgroup_size(");
    s.append(wg_digits.as_str());
    s.append(")\nfn main(\n    @builtin(workgroup_id) workgroup_id: vec3<u32>,\n    @builtin(local_invocation_id) local_id: vec3<u32>\n) {\n    let i = workgroup_id.x;\n    let lane = local_id.x;\n    if (i >= axis_meta.offsets.w) {\n        return;\n    }\n\n    let axis = axis_meta.offsets.z;\n    let axis_len = select(axis_meta.input_shape.y, axis_meta.input_shape.x, axis == 0u);\n    let out_row = select(i, 0u, axis == 0u);\n    let out_col = select(0u, i, axis == 0u);\n\n    var acc: ");
    s.append(T::TYPE_TOKEN);
    s.append(" = ");
    s.append(identity);
    s.append(";\n    var idx = lane;\n    loop {\n        if (idx >= axis_len) {\n            break;\n        }\n        let in_row = select(out_row, idx, axis == 0u);\n        let in_col = select(idx, out_col, axis == 0u);\n        let in_off = i32(axis_meta.offsets.x)\n            + i32(in_row) * axis_meta.input_strides.x\n            + i32(in_col) * axis_meta.input_strides.y;\n        let lhs = acc;\n        let rhs = input[u32(in_off)];\n        acc = ");
    s.append(expr);
    s.append(";\n        idx = idx + ");
    s.append(wg_digits.as_str());
    s.append("u;\n    }\n    partials[lane] = acc;\n    workgroupBarrier();\n\n    var stride = ");
    s.append(wg_digits.as_str());
    s.append("u / 2u;\n    loop {\n        if (stride == 0u) {\n            break;\n        }\n        if (lane < stride) {\n            let lhs = partials[lane];\n            let rhs = partials[lane + stride];\n            partials[lane] = ");
    s.append(expr);
    s.append(";\n        }\n        workgroupBarrier();\n        stride = stride / 2u;\n    }\n\n    if (lane == 0u) {\n        let out_off = i32(axis_meta.offsets.y)\n            + i32(out_row) * axis_meta.output_strides.x\n            + i32(out_col) * axis_meta.output_strides.y;\n        output[u32(out_off)] = partials[0u];\n    }\n}\n");
    s
}

/// The grid-strided axis mean over `ty`: the parallel axis sum divided by
/// the reduced extent.
pub open spec fn mean_axis_parallel_source_spec(ty: Seq<char>, wg: nat, identity: Seq<char>) -> Seq<char> {
    "\nstruct AxisReductionMeta {\n    input_shape: vec2<u32>,\n    input_strides: vec2<i32>,\n    output_strides: vec2<i32>,\n    offsets: vec4<u32>,\n}\n\n@group(0) @binding(0) var<uniform> axis_meta: AxisReductionMeta;\n@group(0) @binding(1) var<storage, read> input: array<"@
        + ty
        + ">;\n@group(0) @binding(2) var<storage, read_write> output: array<"@
        + ty
        + ">;\n\nvar<workgroup> partials: array<"@
        + ty
        + ", "@
        + decimal_spec(wg)
        + ">;\n\n@compute @workgroup_size("@
        + decimal_spec(wg)
        + ")\nfn main(\n    @builtin(workgroup_id) workgroup_id: vec3<u32>,\n    @builtin(local_invocation_id) local_id: vec3<u32>\n) {\n    let i = workgroup_id.x;\n    let lane = local_id.x;\n    if (i >= axis_meta.offsets.w) {\n        return;\n    }\n\n    let axis = axis_meta.offsets.z;\n    let axis_len = select(axis_meta.input_shape.y, axis_meta.input_shape.x, axis == 0u);\n    let out_row = select(i, 0u, axis == 0u);\n    let out_col = select(0u, i, axis == 0u);\n\n    var acc: "@
        + ty
        + " = "@
        + identity
        + ";\n    var idx = lane;\n    loop {\n        if (idx >= axis_len) {\n            break;\n        }\n        let in_row = select(out_row, idx, axis == 0u);\n        let in_col = select(idx, out_col, axis == 0u);\n        let in_off = i32(axis_meta.offsets.x)\n            + i32(in_row) * axis_meta.input_strides.x\n            + i32(in_col) * axis_meta.input_strides.y;\n        acc = acc + input[u32(in_off)];\n        idx = idx + "@
        + decimal_spec(wg)
        + "u;\n    }\n    partials[lane] = acc;\n    workgroupBarrier();\n\n    var stride = "@
        + decimal_spec(wg)
        + "u / 2u;\n    loop {\n        if (stride == 0u) {\n            break;\n        }\n        if (lane < stride) {\n            partials[lane] = partials[lane] + partials[lane + stride];\n        }\n        workgroupBarrier();\n        stride = stride / 2u;\n    }\n\n    if (lane == 0u) {\n        let out_off = i32(axis_meta.offsets.y)\n            + i32(out_row) * axis_meta.output_strides.x\n            + i32(out_col) * axis_meta.output_strides.y;\n        output[u32(out_off)] = partials[0u] / "@
        + ty
        + "(axis_len);\n    }\n}\n"@
}

/// The WGSL source of this kernel for `T`.
pub fn mean_axis_parallel_shader_source<T: DialectScalar>(width: BlockWidth, identity: &str) -> (s: String)
    ensures
        s@ == mean_axis_parallel_source_spec(T::TYPE_TOKEN@, width.spec_get() as nat, identity@),
{
    let wg_digits = decimal(width.get() as u64);
    let mut s = String::from_str("\nstruct AxisReductionMeta {\n    input_shape: vec2<u32>,\n    input_strides: vec2<i32>,\n    output_strides: vec2<i32>,\n    offsets: vec4<u32>,\n}\n\n@group(0) @binding(0) var<uniform> axis_meta: AxisReductionMeta;\n@group(0) @binding(1) var<storage, read> input: array<");
    s.append(T::TYPE_TOKEN);
    s.append(">;\n@group(0) @binding(2) var<storage, read_write> output: array<");
    s.append(T::TYPE_TOKEN);
    s.append(">;\n\nvar<workgroup> partials: array<");
    s.append(T::TYPE_TOKEN);
    s.append(", ");
    s.append(wg_digits.as_str());
    s.append(">;\n\n@compute @workgroup_size(");
    s.append(wg_digits.as_str());
    s.append(")\nfn main(\n    @builtin(workgroup_id) workgroup_id: vec3<u32>,\n    @builtin(local_invocation_id) local_id: vec3<u32>\n) {\n    let i = workgroup_id.x;\n    let lane = local_id.x;\n    if (i >= axis_meta.offsets.w) {\n        return;\n    }\n\n    let axis = axis_meta.offsets.z;\n    let axis_len = select(axis_meta.input_shape.y, axis_meta.input_shape.x, axis == 0u);\n    let out_row = select(i, 0u, axis == 0u);\n    let out_col = select(0u, i, axis == 0u);\n\n    var acc: ");
    s.append(T::TYPE_TOKEN);
    s.append(" = ");
    s.append(identity);
    s.append(";\n    var idx = lane;\n    loop {\n        if (idx >= axis_len) {\n            break;\n        }\n        let in_row = select(out_row, idx, axis == 0u);\n        let in_col = select(idx, out_col, axis == 0u);\n        let in_off = i32(axis_meta.offsets.x)\n            + i32(in_row) * axis_meta.input_strides.x\n            + i32(in_col) * axis_meta.input_strides.y;\n        acc = acc + input[u32(in_off)];\n        idx = idx + ");
    s.append(wg_digits.as_str());
    s.append("u;\n    }\n    partials[lane] = acc;\n    workgroupBarrier();\n\n    var stride = ");
    s.append(wg_digits.as_str());
    s.append("u / 2u;\n    loop {\n        if (stride == 0u) {\n            break;\n        }\n        if (lane < stride) {\n            partials[lane] = partials[lane] + partials[lane + stride];\n        }\n        workgroupBarrier();\n        stride = stride / 2u;\n    }\n\n    if (lane == 0u) {\n        let out_off = i32(axis_meta.offsets.y)\n            + i32(out_row) * axis_meta.output_strides.x\n            + i32(out_col) * axis_meta.output_strides.y;\n        output[u32(out_off)] = partials[0u] / ");
    s.append(T::TYPE_TOKEN);
    s.append("(axis_len);\n    }\n}\n");
    s
}

/// The leading-axis reduction over `ty`, tiled for coalesced reads: each
/// workgroup of `wg` lanes covers `tile columns` adjacent outputs with
/// `tile rows` lanes per column (the tile shape `axis0_tile_shape` gives).
pub open spec fn axis0_tiled_source_spec(ty: Seq<char>, wg: nat, identity: Seq<char>, expr: Seq<char>) -> Seq<char> {
    "\nstruct AxisReductionMeta {\n    input_shape: vec2<u32>,\n    input_strides: vec2<i32>,\n    output_strides: vec2<i32>,\n    offsets: vec4<u32>,\n}\n\n@group(0) @binding(0) var<uniform> axis_meta: AxisReductionMeta;\n@group(0) @binding(1) var<storage, read> input: array<"@
        + ty
        + ">;\n@group(0) @binding(2) var<storage, read_write> output: array<"@
        + ty
        + ">;\n\nvar<workgroup> partials: array<"@
        + ty
        + ", "@
        + decimal_spec(wg)
        + ">;\n\n@compute @workgroup_size("@
        + decimal_spec(tile_shape_spec(wg as int).0 as nat)
        + ", "@
        + decimal_spec(tile_shape_spec(wg as int).1 as nat)
        + ")\nfn main(\n    @builtin(workgroup_id) workgroup_id: vec3<u32>,\n    @builtin(local_invocation_id) local_id: vec3<u32>\n) {\n    let out_col = workgroup_id.x * "@
        + decimal_spec(tile_shape_spec(wg as int).0 as nat)
        + "u + local_id.x;\n    let row_lane = local_id.y;\n    let partial_idx = row_lane * "@
        + decimal_spec(tile_shape_spec(wg as int).0 as nat)
        + "u + local_id.x;\n    let axis_len = axis_meta.input_shape.x;\n\n    var value: "@
        + ty
        + " = "@
        + identity
        + ";\n    if (out_col < axis_meta.offsets.w) {\n        var row = row_lane;\n        loop {\n            if (row >= axis_len) {\n                break;\n            }\n            let in_off = i32(axis_meta.offsets.x)\n                + i32(row) * axis_meta.input_strides.x\n                + i32(out_col) * axis_meta.input_strides.y;\n            let lhs = value;\n            let rhs = input[u32(in_off)];\n            value = "@
        + expr
        + ";\n            row = row + "@
        + decimal_spec(tile_shape_spec(wg as int).1 as nat)
        + "u;\n        }\n    }\n    partials[partial_idx] = value;\n    workgroupBarrier();\n\n    var stride = "@
        + decimal_spec(tile_shape_spec(wg as int).1 as nat)
        + "u / 2u;\n    loop {\n        if (stride == 0u) {\n            break;\n        }\n        if (row_lane < stride) {\n            let lhs = partials[partial_idx];\n            let rhs = partials[(row_lane + stride) * "@
        + decimal_spec(tile_shape_spec(wg as int).0 as nat)
        + "u + local_id.x];\n            partials[partial_idx] = "@
        + expr
        + ";\n        }\n        workgroupBarrier();\n        stride = stride / 2u;\n    }\n\n    if (row_lane == 0u && out_col < axis_meta.offsets.w) {\n        let out_off = i32(axis_meta.offsets.y) + i32(out_col) * axis_meta.output_strides.y;\n        output[u32(out_off)] = partials[local_id.x];\n    }\n}\n"@
}

/// The WGSL source of this kernel for `T`.
pub fn axis_reduction_axis0_tiled_shader_source<T: DialectScalar>(width: BlockWidth, identity: &str, expr: &str) -> (s: String)
    ensures
        s@ == axis0_tiled_source_spec(T::TYPE_TOKEN@, width.spec_get() as nat, identity@, expr@),
{
    let wg_digits = decimal(width.get() as u64);
    let (tile_cols, tile_rows) = axis0_tile_shape(width);
    let cols_digits = decimal(tile_cols as u64);
    let rows_digits = decimal(tile_rows as u64);
    let mut s = String::from_str("\nstruct AxisReductionMeta {\n    input_shape: vec2<u32>,\n    input_strides: vec2<i32>,\n    output_strides: vec2<i32>,\n    offsets: vec4<u32>,\n}\n\n@group(0) @binding(0) var<uniform> axis_meta: AxisReductionMeta;\n@group(0) @binding(1) var<storage, read> input: array<");
    s.append(T::TYPE_TOKEN);
    s.append(">;\n@group(0) @binding(2) var<storage, read_write> output: array<");
    s.append(T::TYPE_TOKEN);
    s.append(">;\n\nvar<workgroup> partials: array<");
    s.append(T::TYPE_TOKEN);
    s.append(", ");
    s.append(wg_digits.as_str());
    s.append(">;\n\n@compute @workgroup_size(");
    s.append(cols_digits.as_str());
    s.append(", ");
    s.append(rows_digits.as_str());
    s.append(")\nfn main(\n    @builtin(workgroup_id) workgroup_id: vec3<u32>,\n    @builtin(local_invocation_id) local_id: vec3<u32>\n) {\n    let out_col = workgroup_id.x * ");
    s.append(cols_digits.as_str());
    s.append("u + local_id.x;\n    let row_lane = local_id.y;\n    let partial_idx = row_lane * ");
    s.append(cols_digits.as_str());
    s.append("u + local_id.x;\n    let axis_len = axis_meta.input_shape.x;\n\n    var value: ");
    s.append(T::TYPE_TOKEN);
    s.append(" = ");
    s.append(identity);
    s.append(";\n    if (out_col < axis_meta.offsets.w) {\n        var row = row_lane;\n        loop {\n            if (row >= axis_len) {\n                break;\n            }\n            let in_off = i32(axis_meta.offsets.x)\n                + i32(row) * axis_meta.input_strides.x\n                + i32(out_col) * axis_meta.input_strides.y;\n            let lhs = value;\n            let rhs = input[u32(in_off)];\n            value = ");
    s.append(expr);
    s.append(";\n            row = row + ");
    s.append(rows_digits.as_str());
    s.append("u;\n        }\n    }\n    partials[partial_idx] = value;\n    workgroupBarrier();\n\n    var stride = ");
    s.append(rows_digits.as_str());
    s.append("u / 2u;\n    loop {\n        if (stride == 0u) {\n            break;\n        }\n        if (row_lane < stride) {\n            let lhs = partials[partial_idx];\n            let rhs = partials[(row_lane + stride) * ");
    s.append(cols_digits.as_str());
    s.append("u + local_id.x];\n            partials[partial_idx] = ");
    s.append(expr);
    s.append(";\n        }\n        workgroupBarrier();\n        stride = stride / 2u;\n    }\n\n    if (row_lane == 0u && out_col < axis_meta.offsets.w) {\n        let out_off = i32(axis_meta.offsets.y) + i32(out_col) * axis_meta.output_strides.y;\n        output[u32(out_off)] = partials[local_id.x];\n    }\n}\n");
    s
}

/// The leading-axis mean over `ty` with the tiled layout of the axis-0
/// reduction, dividing each column sum by the reduced extent.
pub open spec fn mean_axis0_tiled_source_spec(ty: Seq<char>, wg: nat, identity: Seq<char>) -> Seq<char> {
    "\nstruct AxisReductionMeta {\n    input_shape: vec2<u32>,\n    input_strides: vec2<i32>,\n    output_strides: vec2<i32>,\n    offsets: vec4<u32>,\n}\n\n@group(0) @binding(0) var<uniform> axis_meta: AxisReductionMeta;\n@group(0) @binding(1) var<storage, read> input: array<"@
        + ty
        + ">;\n@group(0) @binding(2) var<storage, read_write> output: array<"@
        + ty
        + ">;\n\nvar<workgroup> partials: array<"@
        + ty
        + ", "@
        + decimal_spec(wg)
        + ">;\n\n@compute @workgroup_size("@
        + decimal_spec(tile_shape_spec(wg as int).0 as nat)
        + ", "@
        + decimal_spec(tile_shape_spec(wg as int).1 as nat)
        + ")\nfn main(\n    @builtin(workgroup_id) workgroup_id: vec3<u32>,\n    @builtin(local_invocation_id) local_id: vec3<u32>\n) {\n    let out_col = workgroup_id.x * "@
        + decimal_spec(tile_shape_spec(wg as int).0 as nat)
        + "u + local_id.x;\n    let row_lane = local_id.y;\n    let partial_idx = row_lane * "@
        + decimal_spec(tile_shape_spec(wg as int).0 as nat)
        + "u + local_id.x;\n    let axis_len = axis_meta.input_shape.x;\n\n    var value: "@
        + ty
        + " = "@
        + identity
        + ";\n    if (out_col < axis_meta.offsets.w) {\n        var row = row_lane;\n        loop {\n            if (row >= axis_len) {\n                break;\n            }\n            let in_off = i32(axis_meta.offsets.x)\n                + i32(row) * axis_meta.input_strides.x\n                + i32(out_col) * axis_meta.input_strides.y;\n            value = value + input[u32(in_off)];\n            row = row + "@
        + decimal_spec(tile_shape_spec(wg as int).1 as nat)
        + "u;\n        }\n    }\n    partials[partial_idx] = value;\n    workgroupBarrier();\n\n    var stride = "@
        + decimal_spec(tile_shape_spec(wg as int).1 as nat)
        + "u / 2u;\n    loop {\n        if (stride == 0u) {\n            break;\n        }\n        if (row_lane < stride) {\n            partials[partial_idx] = partials[partial_idx]\n                + partials[(row_lane + stride) * "@
        + decimal_spec(tile_shape_spec(wg as int).0 as nat)
        + "u + local_id.x];\n        }\n        workgroupBarrier();\n        stride = stride / 2u;\n    }\n\n    if (row_lane == 0u && out_col < axis_meta.offsets.w) {\n        let out_off = i32(axis_meta.offsets.y) + i32(out_col) * axis_meta.output_strides.y;\n        output[u32(out_off)] = partials[local_id.x] / "@
        + ty
        + "(axis_len);\n    }\n}\n"@
}

/// The WGSL source of this kernel for `T`.
pub fn mean_axis0_tiled_shader_source<T: DialectScalar>(width: BlockWidth, identity: &str) -> (s: String)
    ensures
        s@ == mean_axis0_tiled_source_spec(T::TYPE_TOKEN@, width.spec_get() as nat, identity@),
{
    let wg_digits = decimal(width.get() as u64);
    let (tile_cols, tile_rows) = axis0_tile_shape(width);
    let cols_digits = decimal(tile_cols as u64);
    let rows_digits = decimal(tile_rows as u64);
    let mut s = String::from_str("\nstruct AxisReductionMeta {\n    input_shape: vec2<u32>,\n    input_strides: vec2<i32>,\n    output_strides: vec2<i32>,\n    offsets: vec4<u32>,\n}\n\n@group(0) @binding(0) var<uniform> axis_meta: AxisReductionMeta;\n@group(0) @binding(1) var<storage, read> input: array<");
    s.append(T::TYPE_TOKEN);
    s.append(">;\n@group(0) @binding(2) var<storage, read_write> output: array<");
    s.append(T::TYPE_TOKEN);
    s.append(">;\n\nvar<workgroup> partials: array<");
    s.append(T::TYPE_TOKEN);
    s.append(", ");
    s.append(wg_digits.as_str());
    s.append(">;\n\n@compute @workgroup_size(");
    s.append(cols_digits.as_str());
    s.append(", ");
    s.append(rows_digits.as_str());
    s.append(")\nfn main(\n    @builtin(workgroup_id) workgroup_id: vec3<u32>,\n    @builtin(local_invocation_id) local_id: vec3<u32>\n) {\n    let out_col = workgroup_id.x * ");
    s.append(cols_digits.as_str());
    s.append("u + local_id.x;\n    let row_lane = local_id.y;\n    let partial_idx = row_lane * ");
    s.append(cols_digits.as_str());
    s.append("u + local_id.x;\n    let axis_len = axis_meta.input_shape.x;\n\n    var value: ");
    s.append(T::TYPE_TOKEN);
    s.append(" = ");
    s.append(identity);
    s.append(";\n    if (out_col < axis_meta.offsets.w) {\n        var row = row_lane;\n        loop {\n            if (row >= axis_len) {\n                break;\n            }\n            let in_off = i32(axis_meta.offsets.x)\n                + i32(row) * axis_meta.input_strides.x\n                + i32(out_col) * axis_meta.input_strides.y;\n            value = value + input[u32(in_off)];\n            row = row + ");
    s.append(rows_digits.as_str());
    s.append("u;\n        }\n    }\n    partials[partial_idx] = value;\n    workgroupBarrier();\n\n    var stride = ");
    s.append(rows_digits.as_str());
    s.append("u / 2u;\n    loop {\n        if (stride == 0u) {\n            break;\n        }\n        if (row_lane < stride) {\n            partials[partial_idx] = partials[partial_idx]\n                + partials[(row_lane + stride) * ");
    s.append(cols_digits.as_str());
    s.append("u + local_id.x];\n        }\n        workgroupBarrier();\n        stride = stride / 2u;\n    }\n\n    if (row_lane == 0u && out_col < axis_meta.offsets.w) {\n        let out_off = i32(axis_meta.offsets.y) + i32(out_col) * axis_meta.output_strides.y;\n        output[u32(out_off)] = partials[local_id.x] / ");
    s.append(T::TYPE_TOKEN);
    s.append("(axis_len);\n    }\n}\n");
    s
}

/// The axis scan over `ty`: one workgroup of `wg` lanes per scanned line
/// (bit 0 of the uniform direction word picks the axis, bit 1 reverses).
/// Each lane scans a contiguous chunk with `expr` from the identity, lane
/// zero turns the chunk totals into exclusive prefixes, and each lane then
/// combines its prefix into its chunk.
pub open spec fn scan_source_spec(ty: Seq<char>, wg: nat, identity: Seq<char>, expr: Seq<char>) -> Seq<char> {
    "\nstruct AxisScanMeta {\n    input_shape: vec2<u32>,\n    input_strides: vec2<i32>,\n    output_strides: vec2<i32>,\n    offsets: vec4<u32>,\n}\n\n@group(0) @binding(0) var<uniform> scan_meta: AxisScanMeta;\n@group(0) @binding(1) var<storage, read> input: array<"@
        + ty
        + ">;\n@group(0) @binding(2) var<storage, read_write> output: array<"@
        + ty
        + ">;\n\nfn source_offset(row: u32, col: u32) -> u32 {\n    let off = i32(scan_meta.offsets.x)\n        + i32(row) * scan_meta.input_strides.x\n        + i32(col) * scan_meta.input_strides.y;\n    return u32(off);\n}\n\nfn dest_offset(row: u32, col: u32) -> u32 {\n    let off = i32(scan_meta.offsets.y)\n        + i32(row) * scan_meta.output_strides.x\n        + i32(col) * scan_meta.output_strides.y;\n    return u32(off);\n}\n\nvar<workgroup> partial: array<"@
        + ty
        + ", "@
        + decimal_spec(wg)
        + ">;\n\n@compute @workgroup_size("@
        + decimal_spec(wg)
        + ")\nfn main(\n    @builtin(workgroup_id) workgroup: vec3<u32>,\n    @builtin(local_invocation_id) local: vec3<u32>,\n) {\n    let line = workgroup.x;\n    let lane = local.x;\n\n    let rows = scan_meta.input_shape.x;\n    let cols = scan_meta.input_shape.y;\n    let axis = scan_meta.offsets.z & 1u;\n    let reverse = (scan_meta.offsets.z & 2u) != 0u;\n    let len = select(cols, rows, axis == 0u);\n    let chunk_len = (len + "@
        + decimal_spec(wg)
        + "u - 1u) / "@
        + decimal_spec(wg)
        + "u;\n    let start = lane * chunk_len;\n    let end = min(start + chunk_len, len);\n    var local_acc: "@
        + ty
        + " = "@
        + identity
        + ";\n\n    for (var s = start; s < end; s = s + 1u) {\n        let idx = select(s, len - 1u - s, reverse);\n        let row = select(line, idx, axis == 0u);\n        let col = select(idx, line, axis == 0u);\n        let lhs = local_acc;\n        let rhs = input[source_offset(row, col)];\n        local_acc = "@
        + expr
        + ";\n        output[dest_offset(row, col)] = local_acc;\n    }\n    partial[lane] = local_acc;\n    workgroupBarrier();\n\n    if (lane == 0u) {\n        var prefix: "@
        + ty
        + " = "@
        + identity
        + ";\n        for (var chunk = 0u; chunk < "@
        + decimal_spec(wg)
        + "u; chunk = chunk + 1u) {\n            let total = partial[chunk];\n            partial[chunk] = prefix;\n            let lhs = prefix;\n            let rhs = total;\n            prefix = "@
        + expr
        + ";\n        }\n    }\n    workgroupBarrier();\n\n    let prefix = partial[lane];\n    for (var s = start; s < end; s = s + 1u) {\n        let idx = select(s, len - 1u - s, reverse);\n        let row = select(line, idx, axis == 0u);\n        let col = select(idx, line, axis == 0u);\n        let lhs = prefix;\n        let rhs = output[dest_offset(row, col)];\n        output[dest_offset(row, col)] = "@
        + expr
        + ";\n    }\n}\n"@
}

/// The WGSL source of this kernel for `T`.
pub fn scan_shader_source<T: DialectScalar>(width: BlockWidth, identity: &str, expr: &str) -> (s: String)
    ensures
        s@ == scan_source_spec(T::TYPE_TOKEN@, width.spec_get() as nat, identity@, expr@),
{
    let wg_digits = decimal(width.get() as u64);
    let mut s = String::from_str("\nstruct AxisScanMeta {\n    input_shape: vec2<u32>,\n    input_strides: vec2<i32>,\n    output_strides: vec2<i32>,\n    offsets: vec4<u32>,\n}\n\n@group(0) @binding(0) var<uniform> scan_meta: AxisScanMeta;\n@group(0) @binding(1) var<storage, read> input: array<");
    s.append(T::TYPE_TOKEN);
    s.append(">;\n@group(0) @binding(2) var<storage, read_write> output: array<");
    s.append(T::TYPE_TOKEN);
    s.append(">;\n\nfn source_offset(row: u32, col: u32) -> u32 {\n    let off = i32(scan_meta.offsets.x)\n        + i32(row) * scan_meta.input_strides.x\n        + i32(col) * scan_meta.input_strides.y;\n    return u32(off);\n}\n\nfn dest_offset(row: u32, col: u32) -> u32 {\n    let off = i32(scan_meta.offsets.y)\n        + i32(row) * scan_meta.output_strides.x\n        + i32(col) * scan_meta.output_strides.y;\n    return u32(off);\n}\n\nvar<workgroup> partial: array<");
    s.append(T::TYPE_TOKEN);
    s.append(", ");
    s.append(wg_digits.as_str());
    s.append(">;\n\n@compute @workgroup_size(");
    s.append(wg_digits.as_str());
    s.append(")\nfn main(\n    @builtin(workgroup_id) workgroup: vec3<u32>,\n    @builtin(local_invocation_id) local: vec3<u32>,\n) {\n    let line = workgroup.x;\n    let lane = local.x;\n\n    let rows = scan_meta.input_shape.x;\n    let cols = scan_meta.input_shape.y;\n    let axis = scan_meta.offsets.z & 1u;\n    let reverse = (scan_meta.offsets.z & 2u) != 0u;\n    let len = select(cols, rows, axis == 0u);\n    let chunk_len = (len + ");
    s.append(wg_digits.as_str());
    s.append("u - 1u) / ");
    s.append(wg_digits.as_str());
    s.append("u;\n    let start = lane * chunk_len;\n    let end = min(start + chunk_len, len);\n    var local_acc: ");
    s.append(T::TYPE_TOKEN);
    s.append(" = ");
    s.append(identity);
    s.append(";\n\n    for (var s = start; s < end; s = s + 1u) {\n        let idx = select(s, len - 1u - s, reverse);\n        let row = select(line, idx, axis == 0u);\n        let col = select(idx, line, axis == 0u);\n        let lhs = local_acc;\n        let rhs = input[source_offset(row, col)];\n        local_acc = ");
    s.append(expr);
    s.append(";\n        output[dest_offset(row, col)] = local_acc;\n    }\n    partial[lane] = local_acc;\n    workgroupBarrier();\n\n    if (lane == 0u) {\n        var prefix: ");
    s.append(T::TYPE_TOKEN);
    s.append(" = ");
    s.append(identity);
    s.append(";\n        for (var chunk = 0u; chunk < ");
    s.append(wg_digits.as_str());
    s.append("u; chunk = chunk + 1u) {\n            let total = partial[chunk];\n            partial[chunk] = prefix;\n            let lhs = prefix;\n            let rhs = total;\n            prefix = ");
    s.append(expr);
    s.append(";\n        }\n    }\n    workgroupBarrier();\n\n    let prefix = partial[lane];\n    for (var s = start; s < end; s = s + 1u) {\n        let idx = select(s, len - 1u - s, reverse);\n        let row = select(line, idx, axis == 0u);\n        let col = select(idx, line, axis == 0u);\n        let lhs = prefix;\n        let rhs = output[dest_offset(row, col)];\n        output[dest_offset(row, col)] = ");
    s.append(expr);
    s.append(";\n    }\n}\n");
    s
}

/// The sequential axis scan over `ty`: one invocation per scanned line walks
/// it in order (reversed when bit 1 of the direction word is set), combining
/// with `expr` from the identity and writing every prefix.
pub open spec fn sequential_scan_source_spec(ty: Seq<char>, wg: nat, identity: Seq<char>, expr: Seq<char>) -> Seq<char> {
    sequential_scan_source_before_kernel(ty, wg, identity, expr)
        + "fn source_offset(row: u32, col: u32) -> u32 {"@
        + "\n    let off = i32(scan_meta.offsets.x)\n        + i32(row) * scan_meta.input_strides.x\n        + i32(col) * scan_meta.input_strides.y;\n    return u32(off);\n}\n\nfn dest_offset(row: u32, col: u32) -> u32 {\n    let off = i32(scan_meta.offsets.y)\n        + i32(row) * scan_meta.output_strides.x\n        + i32(col) * scan_meta.output_strides.y;\n    return u32(off);\n}\n\n// One thread owns one full scan line and walks it sequentially, writing every\n// prefix: O(L) work per length-L line. The combine order is strictly\n// left-to-right (right-to-left when reversed), matching a sequential\n// fold exactly (bitwise-identical floating-point results).\n@compute @workgroup_size("@
        + decimal_spec(wg)
        + ")\nfn main(@builtin(global_invocation_id) gid: vec3<u32>) {\n    let line = gid.x;\n    if (line >= scan_meta.offsets.w) {\n        return;\n    }\n\n    let rows = scan_meta.input_shape.x;\n    let cols = scan_meta.input_shape.y;\n    let axis = scan_meta.offsets.z & 1u;\n    let reverse = (scan_meta.offsets.z & 2u) != 0u;\n    let len = select(cols, rows, axis == 0u);\n    var acc: "@
        + ty
        + " = "@
        + identity
        + ";\n\n    // `axis` and `reverse` are uniform across the dispatch, so these selects\n    // never diverge within a subgroup.\n    for (var s = 0u; s < len; s = s + 1u) {\n        let idx = select(s, len - 1u - s, reverse);\n        let row = select(line, idx, axis == 0u);\n        let col = select(idx, line, axis == 0u);\n        let lhs = acc;\n        let rhs = input[source_offset(row, col)];\n        acc = "@
        + expr
        + ";\n        output[dest_offset(row, col)] = acc;\n    }\n}\n"@
}

/// The kernel text before its workgroup storage and entry point: the
/// uniform layouts and buffer bindings.
pub open spec fn sequential_scan_source_before_kernel(ty: Seq<char>, wg: nat, identity: Seq<char>, expr: Seq<char>) -> Seq<char> {
    "\nstruct AxisScanMeta {\n    input_shape: vec2<u32>,\n    input_strides: vec2<i32>,\n    output_strides: vec2<i32>,\n    offsets: vec4<u32>,\n}\n\n@group(0) @binding(0) var<uniform> scan_meta: AxisScanMeta;\n@group(0) @binding(1) var<storage, read> input: array<"@
        + ty
        + ">;\n@group(0) @binding(2) var<storage, read_write> output: array<"@
        + ty
        + ">;\n\n"@
}

/// The WGSL source of this kernel for `T`.
pub fn sequential_scan_shader_source<T: DialectScalar>(width: BlockWidth, identity: &str, expr: &str) -> (s: String)
    ensures
        s@ == sequential_scan_source_spec(T::TYPE_TOKEN@, width.spec_get() as nat, identity@, expr@),
{
    let wg_digits = decimal(width.get() as u64);
    let mut s = String::from_str("\nstruct AxisScanMeta {\n    input_shape: vec2<u32>,\n    input_strides: vec2<i32>,\n    output_strides: vec2<i32>,\n    offsets: vec4<u32>,\n}\n\n@group(0) @binding(0) var<uniform> scan_meta: AxisScanMeta;\n@group(0) @binding(1) var<storage, read> input: array<");
    s.append(T::TYPE_TOKEN);
    s.append(">;\n@group(0) @binding(2) var<storage, read_write> output: array<");
    s.append(T::TYPE_TOKEN);
    s.append(">;\n\n");
    s.append("fn source_offset(row: u32, col: u32) -> u32 {");
    s.append("\n    let off = i32(scan_meta.offsets.x)\n        + i32(row) * scan_meta.input_strides.x\n        + i32(col) * scan_meta.input_strides.y;\n    return u32(off);\n}\n\nfn dest_offset(row: u32, col: u32) -> u32 {\n    let off = i32(scan_meta.offsets.y)\n        + i32(row) * scan_meta.output_strides.x\n        + i32(col) * scan_meta.output_strides.y;\n    return u32(off);\n}\n\n// One thread owns one full scan line and walks it sequentially, writing every\n// prefix: O(L) work per length-L line. The combine order is strictly\n// left-to-right (right-to-left when reversed), matching a sequential\n// fold exactly (bitwise-identical floating-point results).\n@compute @workgroup_size(");
    s.append(wg_digits.as_str());
    s.append(")\nfn main(@builtin(global_invocation_id) gid: vec3<u32>) {\n    let line = gid.x;\n    if (line >= scan_meta.offsets.w) {\n        return;\n    }\n\n    let rows = scan_meta.input_shape.x;\n    let cols = scan_meta.input_shape.y;\n    let axis = scan_meta.offsets.z & 1u;\n    let reverse = (scan_meta.offsets.z & 2u) != 0u;\n    let len = select(cols, rows, axis == 0u);\n    var acc: ");
    s.append(T::TYPE_TOKEN);
    s.append(" = ");
    s.append(identity);
    s.append(";\n\n    // `axis` and `reverse` are uniform across the dispatch, so these selects\n    // never diverge within a subgroup.\n    for (var s = 0u; s < len; s = s + 1u) {\n        let idx = select(s, len - 1u - s, reverse);\n        let row = select(line, idx, axis == 0u);\n        let col = select(idx, line, axis == 0u);\n        let lhs = acc;\n        let rhs = input[source_offset(row, col)];\n        acc = ");
    s.append(expr);
    s.append(";\n        output[dest_offset(row, col)] = acc;\n    }\n}\n");
    s
}

/// The CSR matrix-vector product over `ty` with additive identity `zero`:
/// one invocation per row, summing the products of the row's stored values
/// with the gathered vector entries.
pub open spec fn spmv_source_spec(ty: Seq<char>, zero: Seq<char>, wg: nat) -> Seq<char> {
    spmv_source_before_kernel(ty, zero, wg)
        + "@compute @workgroup_size("@
        + decimal_spec(wg)
        + ")\nfn main(@builtin(global_invocation_id) gid: vec3<u32>) {\n    let row = gid.x;\n    if (row >= arrayLength(&y)) {\n        return;\n    }\n\n    let row_ptr = sparse_meta.offsets.x;\n    let begin = indices[row_ptr + row];\n    let end = indices[row_ptr + row + 1u];\n    var acc = "@
        + ty
        + "("@
        + zero
        + ");\n    for (var idx = begin; idx < end; idx = idx + 1u) {\n        acc = acc + values[idx] * x[indices[idx]];\n    }\n    y[row] = acc;\n}\n"@
}

/// The kernel text before its workgroup storage and entry point: the
/// uniform layouts and buffer bindings.
pub open spec fn spmv_source_before_kernel(ty: Seq<char>, zero: Seq<char>, wg: nat) -> Seq<char> {
    "\nstruct SpmvMeta {\n    offsets: vec4<u32>,\n}\n\n@group(0) @binding(0) var<uniform> sparse_meta: SpmvMeta;\n@group(0) @binding(1) var<storage, read> values: array<"@
        + ty
        + ">;\n@group(0) @binding(2) var<storage, read> indices: array<u32>;\n@group(0) @binding(3) var<storage, read> x: array<"@
        + ty
        + ">;\n@group(0) @binding(4) var<storage, read_write> y: array<"@
        + ty
        + ">;\n\n"@
}

/// The WGSL source of this kernel for `T`.
pub fn spmv_shader_source<T: MatmulZero>(width: BlockWidth) -> (s: String)
    ensures
        s@ == spmv_source_spec(T::TYPE_TOKEN@, T::WGSL_ZERO@, width.spec_get() as nat),
{
    let wg_digits = decimal(width.get() as u64);
    let mut s = String::from_str("\nstruct SpmvMeta {\n    offsets: vec4<u32>,\n}\n\n@group(0) @binding(0) var<uniform> sparse_meta: SpmvMeta;\n@group(0) @binding(1) var<storage, read> values: array<");
    s.append(T::TYPE_TOKEN);
    s.append(">;\n@group(0) @binding(2) var<storage, read> indices: array<u32>;\n@group(0) @binding(3) var<storage, read> x: array<");
    s.append(T::TYPE_TOKEN);
    s.append(">;\n@group(0) @binding(4) var<storage, read_write> y: array<");
    s.append(T::TYPE_TOKEN);
    s.append(">;\n\n");
    s.append("@compute @workgroup_size(");
    s.append(wg_digits.as_str());
    s.append(")\nfn main(@builtin(global_invocation_id) gid: vec3<u32>) {\n    let row = gid.x;\n    if (row >= arrayLength(&y)) {\n        return;\n    }\n\n    let row_ptr = sparse_meta.offsets.x;\n    let begin = indices[row_ptr + row];\n    let end = indices[row_ptr + row + 1u];\n    var acc = ");
    s.append(T::TYPE_TOKEN);
    s.append("(");
    s.append(T::WGSL_ZERO);
    s.append(");\n    for (var idx = begin; idx < end; idx = idx + 1u) {\n        acc = acc + values[idx] * x[indices[idx]];\n    }\n    y[row] = acc;\n}\n");
    s
}

/// The CSR matrix-matrix product over `ty` with additive identity `zero`:
/// one invocation per output element, summing the products of the row's
/// stored values with the strided dense right-hand side.
pub open spec fn spmm_source_spec(ty: Seq<char>, zero: Seq<char>, wg: nat) -> Seq<char> {
    "\nstruct SpmmMeta {\n    matrix_shape: vec2<u32>,\n    b_shape: vec2<u32>,\n    b_strides: vec2<i32>,\n    offsets: vec2<u32>,\n}\n\n@group(0) @binding(0) var<uniform> sparse_meta: SpmmMeta;\n@group(0) @binding(1) var<storage, read> values: array<"@
        + ty
        + ">;\n@group(0) @binding(2) var<storage, read> indices: array<u32>;\n@group(0) @binding(3) var<storage, read> b: array<"@
        + ty
        + ">;\n@group(0) @binding(4) var<storage, read_write> c: array<"@
        + ty
        + ">;\n\n@compute @workgroup_size("@
        + decimal_spec(wg)
        + ")\nfn main(@builtin(global_invocation_id) gid: vec3<u32>) {\n    let flat = gid.x;\n    let rows = sparse_meta.matrix_shape.x;\n    let cols = sparse_meta.b_shape.y;\n    let len = rows * cols;\n    if (flat >= len) {\n        return;\n    }\n\n    let row = flat / cols;\n    let col = flat - row * cols;\n    let row_ptr = sparse_meta.offsets.y;\n    let begin = indices[row_ptr + row];\n    let end = indices[row_ptr + row + 1u];\n    var acc = "@
        + ty
        + "("@
        + zero
        + ");\n    for (var idx = begin; idx < end; idx = idx + 1u) {\n        let b_row = indices[idx];\n        let b_offset = i32(sparse_meta.offsets.x)\n            + i32(b_row) * sparse_meta.b_strides.x\n            + i32(col) * sparse_meta.b_strides.y;\n        acc = acc + values[idx] * b[u32(b_offset)];\n    }\n    c[flat] = acc;\n}\n"@
}

/// The WGSL source of this kernel for `T`.
pub fn spmm_shader_source<T: MatmulZero>(width: BlockWidth) -> (s: String)
    ensures
        s@ == spmm_source_spec(T::TYPE_TOKEN@, T::WGSL_ZERO@, width.spec_get() as nat),
{
    let wg_digits = decimal(width.get() as u64);
    let mut s = String::from_str("\nstruct SpmmMeta {\n    matrix_shape: vec2<u32>,\n    b_shape: vec2<u32>,\n    b_strides: vec2<i32>,\n    offsets: vec2<u32>,\n}\n\n@group(0) @binding(0) var<uniform> sparse_meta: SpmmMeta;\n@group(0) @binding(1) var<storage, read> values: array<");
    s.append(T::TYPE_TOKEN);
    s.append(">;\n@group(0) @binding(2) var<storage, read> indices: array<u32>;\n@group(0) @binding(3) var<storage, read> b: array<");
    s.append(T::TYPE_TOKEN);
    s.append(">;\n@group(0) @binding(4) var<storage, read_write> c: array<");
    s.append(T::TYPE_TOKEN);
    s.append(">;\n\n@compute @workgroup_size(");
    s.append(wg_digits.as_str());
    s.append(")\nfn main(@builtin(global_invocation_id) gid: vec3<u32>) {\n    let flat = gid.x;\n    let rows = sparse_meta.matrix_shape.x;\n    let cols = sparse_meta.b_shape.y;\n    let len = rows * cols;\n    if (flat >= len) {\n        return;\n    }\n\n    let row = flat / cols;\n    let col = flat - row * cols;\n    let row_ptr = sparse_meta.offsets.y;\n    let begin = indices[row_ptr + row];\n    let end = indices[row_ptr + row + 1u];\n    var acc = ");
    s.append(T::TYPE_TOKEN);
    s.append("(");
    s.append(T::WGSL_ZERO);
    s.append(");\n    for (var idx = begin; idx < end; idx = idx + 1u) {\n        let b_row = indices[idx];\n        let b_offset = i32(sparse_meta.offsets.x)\n            + i32(b_row) * sparse_meta.b_strides.x\n            + i32(col) * sparse_meta.b_strides.y;\n        acc = acc + values[idx] * b[u32(b_offset)];\n    }\n    c[flat] = acc;\n}\n");
    s
}

/// The `Parameters` uniform of a stateful update: one `f32` field per name.
pub open spec fn parameter_fields_spec(fields: Seq<&str>) -> Seq<char>
    decreases fields.len(),
{
    if fields.len() == 0 {
        seq![]
    } else {
        parameter_fields_spec(fields.drop_last()) + "    "@ + fields.last()@ + ": f32,\n"@
    }
}

/// The `Parameters` uniform declaration of a stateful update.
pub open spec fn parameters_declaration_spec(fields: Seq<&str>) -> Seq<char> {
    "struct Parameters {\n"@ + parameter_fields_spec(fields) + "}\n"@
}

/// The WGSL declaration of a stateful update's `Parameters` uniform.
pub fn parameters_declaration(fields: &[&str]) -> (s: String)
    ensures
        s@ == parameters_declaration_spec(fields@),
{
    let mut s = String::from_str("struct Parameters {\n");
    let mut i: usize = 0;
    while i < fields.len()
        invariant
            i <= fields@.len(),
            s@ == "struct Parameters {\n"@ + parameter_fields_spec(fields@.subrange(0, i as int)),
        decreases fields@.len() - i,
    {
        s.append("    ");
        s.append(fields[i]);
        s.append(": f32,\n");
        proof {
            assert(fields@.subrange(0, i + 1).drop_last() =~= fields@.subrange(0, i as int));
        }
        i = i + 1;
    }
    proof {
        assert(fields@.subrange(0, i as int) =~= fields@);
    }
    s.append("}\n");
    s
}

/// The stateful parameter update kernel with workgroups of `wg` lanes:
/// binding 0 the uniform record, 1 the `Parameters` uniform, 2 the
/// parameter, 3 the gradient, 4 the first state and, with two states, 5 the
/// second. Each invocation decodes its element's offsets over eight axes,
/// runs `body` on the loaded values and stores the parameter and states back.
pub open spec fn stateful_update_source_spec(fields: Seq<&str>, two_states: bool, wg: nat, body: Seq<char>) -> Seq<char> {
    "struct Meta {\n    shape: array<vec4<u32>, 2>,\n    strides: array<array<vec4<i32>, 2>, 4>,\n    offsets: vec4<u32>,\n    dispatch: vec4<u32>,\n}\n"@
        + parameters_declaration_spec(fields)
        + "\n@group(0) @binding(0) var<uniform> lmeta: Meta;\n@group(0) @binding(1) var<uniform> parameters: Parameters;\n@group(0) @binding(2) var<storage, read_write> parameter: array<f32>;\n@group(0) @binding(3) var<storage, read> gradient: array<f32>;\n@group(0) @binding(4) var<storage, read_write> state_zero: array<f32>;\n"@
        + (if two_states { "@group(0) @binding(5) var<storage, read_write> state_one: array<f32>;\n"@ } else { ""@ })
        + "\n@compute @workgroup_size("@
        + decimal_spec(wg)
        + ")\nfn main(@builtin(global_invocation_id) gid: vec3<u32>) {\n    let linear = gid.x;\n    if (linear >= lmeta.dispatch.x) { return; }\n    var remainder = linear;\n    var parameter_offset = i32(lmeta.offsets.x);\n    var gradient_offset = i32(lmeta.offsets.y);\n    var state_zero_offset = i32(lmeta.offsets.z);\n"@
        + (if two_states { "    var state_one_offset = i32(lmeta.offsets.w);\n"@ } else { ""@ })
        + "    for (var dimension: i32 = 7; dimension >= 0; dimension = dimension - 1) {\n        let lane = dimension / 4;\n        let component = dimension % 4;\n        let extent = lmeta.shape[lane][component];\n        let index = i32(remainder % extent);\n        remainder = remainder / extent;\n        parameter_offset = parameter_offset + index * lmeta.strides[0][lane][component];\n        gradient_offset = gradient_offset + index * lmeta.strides[1][lane][component];\n        state_zero_offset = state_zero_offset + index * lmeta.strides[2][lane][component];\n"@
        + (if two_states { "        state_one_offset = state_one_offset + index * lmeta.strides[3][lane][component];\n"@ } else { ""@ })
        + "    }\n    let parameter_value = parameter[u32(parameter_offset)];\n    let gradient_value = gradient[u32(gradient_offset)];\n    let state_zero_value = state_zero[u32(state_zero_offset)];\n    var parameter_next = parameter_value;\n    var state_zero_next = state_zero_value;\n"@
        + (if two_states { "    let state_one_value = state_one[u32(state_one_offset)];\n    var state_one_next = state_one_value;\n"@ } else { ""@ })
        + "    "@
        + body
        + "\n    parameter[u32(parameter_offset)] = parameter_next;\n    state_zero[u32(state_zero_offset)] = state_zero_next;\n"@
        + (if two_states { "    state_one[u32(state_one_offset)] = state_one_next;\n"@ } else { ""@ })
        + "}\n"@
}

/// The WGSL source of a stateful update with the given parameter fields,
/// one or two state buffers, and update `body`.
pub fn stateful_update_shader_source(fields: &[&str], two_states: bool, width: BlockWidth, body: &str) -> (s: String)
    ensures
        s@ == stateful_update_source_spec(fields@, two_states, width.spec_get() as nat, body@),
{
    let wg_digits = decimal(width.get() as u64);
    let params = parameters_declaration(fields);
    let state_one_binding = if two_states {
        "@group(0) @binding(5) var<storage, read_write> state_one: array<f32>;\n"
    } else {
        ""
    };
    let state_one_decode = if two_states {
        "    var state_one_offset = i32(lmeta.offsets.w);\n"
    } else {
        ""
    };
    let state_one_stride = if two_states {
        "        state_one_offset = state_one_offset + index * lmeta.strides[3][lane][component];\n"
    } else {
        ""
    };
    let state_one_load = if two_states {
        "    let state_one_value = state_one[u32(state_one_offset)];\n    var state_one_next = state_one_value;\n"
    } else {
        ""
    };
    let state_one_store = if two_states {
        "    state_one[u32(state_one_offset)] = state_one_next;\n"
    } else {
        ""
    };
    let mut s = String::from_str("struct Meta {\n    shape: array<vec4<u32>, 2>,\n    strides: array<array<vec4<i32>, 2>, 4>,\n    offsets: vec4<u32>,\n    dispatch: vec4<u32>,\n}\n");
    s.append(params.as_str());
    s.append("\n@group(0) @binding(0) var<uniform> lmeta: Meta;\n@group(0) @binding(1) var<uniform> parameters: Parameters;\n@group(0) @binding(2) var<storage, read_write> parameter: array<f32>;\n@group(0) @binding(3) var<storage, read> gradient: array<f32>;\n@group(0) @binding(4) var<storage, read_write> state_zero: array<f32>;\n");
    s.append(state_one_binding);
    s.append("\n@compute @workgroup_size(");
    s.append(wg_digits.as_str());
    s.append(")\nfn main(@builtin(global_invocation_id) gid: vec3<u32>) {\n    let linear = gid.x;\n    if (linear >= lmeta.dispatch.x) { return; }\n    var remainder = linear;\n    var parameter_offset = i32(lmeta.offsets.x);\n    var gradient_offset = i32(lmeta.offsets.y);\n    var state_zero_offset = i32(lmeta.offsets.z);\n");
    s.append(state_one_decode);
    s.append("    for (var dimension: i32 = 7; dimension >= 0; dimension = dimension - 1) {\n        let lane = dimension / 4;\n        let component = dimension % 4;\n        let extent = lmeta.shape[lane][component];\n        let index = i32(remainder % extent);\n        remainder = remainder / extent;\n        parameter_offset = parameter_offset + index * lmeta.strides[0][lane][component];\n        gradient_offset = gradient_offset + index * lmeta.strides[1][lane][component];\n        state_zero_offset = state_zero_offset + index * lmeta.strides[2][lane][component];\n");
    s.append(state_one_stride);
    s.append("    }\n    let parameter_value = parameter[u32(parameter_offset)];\n    let gradient_value = gradient[u32(gradient_offset)];\n    let state_zero_value = state_zero[u32(state_zero_offset)];\n    var parameter_next = parameter_value;\n    var state_zero_next = state_zero_value;\n");
    s.append(state_one_load);
    s.append("    ");
    s.append(body);
    s.append("\n    parameter[u32(parameter_offset)] = parameter_next;\n    state_zero[u32(state_zero_offset)] = state_zero_next;\n");
    s.append(state_one_store);
    s.append("}\n");
    s
}

} // verus!
