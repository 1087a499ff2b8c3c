//! WGSL sources of the fused elementwise and reduction kernels.

use crate::fusion::FusedReduction;
use crate::linalg::DialectScalar;
use crate::text::{decimal, decimal_spec};
use vstd::prelude::*;

verus! {

/// Scalar capabilities needed by provider-owned WGSL fusion: the identity
/// literals of the reductions and the mean's divisor expression.
pub trait WgpuFusionScalar: DialectScalar {
    /// WGSL identity literal for addition.
    const ZERO: &'static str;
    /// WGSL identity literal for multiplication.
    const ONE: &'static str;
    /// WGSL lower-bound literal for maximum reduction.
    const LOWEST: &'static str;
    /// WGSL upper-bound literal for minimum reduction.
    const HIGHEST: &'static str;
    /// WGSL expression converting the runtime axis length for mean reduction.
    const MEAN_DIVISOR: &'static str;
}

/// The WGSL record both fusion kernels read each layout from.
pub open spec fn layout_struct_spec() -> Seq<char> {
    "struct LayoutInfo {\n    offset: u32,\n    rank: u32,\n    length: u32,\n    axis: u32,\n    extent: u32,\n    shape: array<u32, 8>,\n    strides: array<i32, 8>,\n}\n"@
}

/// The WGSL record both fusion kernels read each layout from.
pub fn wgsl_layout() -> (s: &'static str)
    ensures
        s@ == layout_struct_spec(),
{
    "struct LayoutInfo {\n    offset: u32,\n    rank: u32,\n    length: u32,\n    axis: u32,\n    extent: u32,\n    shape: array<u32, 8>,\n    strides: array<i32, 8>,\n}\n"
}

/// The statements that compute the output element's address.
pub open spec fn output_offset_spec() -> Seq<char> {
    "    var output_offset: i32 = i32(output_layout.offset);\n    for (var output_axis: u32 = 0u; output_axis < output_layout.rank; output_axis = output_axis + 1u) {\n        output_offset = output_offset + i32(coordinates[output_axis]) * output_layout.strides[output_axis];\n    }\n"@
}

/// The statements that compute the output element's address.
pub fn output_offset() -> (s: &'static str)
    ensures
        s@ == output_offset_spec(),
{
    "    var output_offset: i32 = i32(output_layout.offset);\n    for (var output_axis: u32 = 0u; output_axis < output_layout.rank; output_axis = output_axis + 1u) {\n        output_offset = output_offset + i32(coordinates[output_axis]) * output_layout.strides[output_axis];\n    }\n"
}

/// The binding of input `index`.
pub open spec fn input_declaration_spec(index: nat, ty: Seq<char>) -> Seq<char> {
    "@group(0) @binding("@ + decimal_spec(index) + ") var<storage, read> storage_input_"@
        + decimal_spec(index) + ": array<"@ + ty + ">;\n"@
}

/// The bindings of inputs `0..count`, in order.
pub open spec fn input_declarations_spec(count: nat, ty: Seq<char>) -> Seq<char>
    decreases count,
{
    if count == 0 {
        seq![]
    } else {
        input_declarations_spec((count - 1) as nat, ty) + input_declaration_spec(
            (count - 1) as nat,
            ty,
        )
    }
}

/// First part of an input load: the base offset and the axis loop header.
pub open spec fn load_head(i: Seq<char>) -> Seq<char> {
    "    var input_offset_"@ + i + ": i32 = i32(layouts["@ + i + "].offset);\nfor (var input_axis_"@ + i
        + ": u32 = 0u; input_axis_"@ + i + " < output_layout.rank; input_axis_"@ + i
        + " = input_axis_"@ + i + " + 1u) {\n"@
}

/// Second part of an input load: the stride step of a non-broadcast axis.
pub open spec fn load_step(i: Seq<char>) -> Seq<char> {
    "if (layouts["@ + i + "].shape[input_axis_"@ + i + "] > 1u) {\ninput_offset_"@ + i
        + " = input_offset_"@ + i + " + i32(coordinates[input_axis_"@ + i + "]) * layouts["@ + i
        + "].strides[input_axis_"@ + i + "];\n}\n}\n"@
}

/// Last part of an input load: the load itself.
pub open spec fn load_value(i: Seq<char>, ty: Seq<char>) -> Seq<char> {
    "let input_"@ + i + ": "@ + ty + " = storage_input_"@ + i + "[u32(input_offset_"@ + i
        + ")];\n"@
}

/// The statements that load input `index` at the current coordinates, with
/// broadcast axes (extent one) skipped.
pub open spec fn input_load_spec(index: nat, ty: Seq<char>) -> Seq<char> {
    let i = decimal_spec(index);
    load_head(i) + load_step(i) + load_value(i, ty)
}

fn append_load_head(s: &mut String, i: &str)
    ensures
        final(s)@ == old(s)@ + load_head(i@),
{
    s.append("    var input_offset_");
    s.append(i);
    s.append(": i32 = i32(layouts[");
    s.append(i);
    s.append("].offset);\nfor (var input_axis_");
    s.append(i);
    s.append(": u32 = 0u; input_axis_");
    s.append(i);
    s.append(" < output_layout.rank; input_axis_");
    s.append(i);
    s.append(" = input_axis_");
    s.append(i);
    s.append(" + 1u) {\n");
    assert(s@ =~= old(s)@ + load_head(i@));
}

fn append_load_step(s: &mut String, i: &str)
    ensures
        final(s)@ == old(s)@ + load_step(i@),
{
    s.append("if (layouts[");
    s.append(i);
    s.append("].shape[input_axis_");
    s.append(i);
    s.append("] > 1u) {\ninput_offset_");
    s.append(i);
    s.append(" = input_offset_");
    s.append(i);
    s.append(" + i32(coordinates[input_axis_");
    s.append(i);
    s.append("]) * layouts[");
    s.append(i);
    s.append("].strides[input_axis_");
    s.append(i);
    s.append("];\n}\n}\n");
    assert(s@ =~= old(s)@ + load_step(i@));
}

fn append_load_value(s: &mut String, i: &str, ty: &str)
    ensures
        final(s)@ == old(s)@ + load_value(i@, ty@),
{
    s.append("let input_");
    s.append(i);
    s.append(": ");
    s.append(ty);
    s.append(" = storage_input_");
    s.append(i);
    s.append("[u32(input_offset_");
    s.append(i);
    s.append(")];\n");
    assert(s@ =~= old(s)@ + load_value(i@, ty@));
}

/// The loads of inputs `0..count`, in order.
pub open spec fn input_loads_spec(count: nat, ty: Seq<char>) -> Seq<char>
    decreases count,
{
    if count == 0 {
        seq![]
    } else {
        input_loads_spec((count - 1) as nat, ty) + input_load_spec((count - 1) as nat, ty)
    }
}

/// The bindings of `input_count` inputs of scalar type `T`.
pub fn input_declarations<T: DialectScalar>(input_count: usize) -> (s: String)
    ensures
        s@ == input_declarations_spec(input_count as nat, T::TYPE_TOKEN@),
{
    let mut s = String::new();
    let mut index: usize = 0;
    while index < input_count
        invariant
            index <= input_count,
            s@ == input_declarations_spec(index as nat, T::TYPE_TOKEN@),
        decreases input_count - index,
    {
        let digits = decimal(index as u64);
        s.append("@group(0) @binding(");
        s.append(digits.as_str());
        s.append(") var<storage, read> storage_input_");
        s.append(digits.as_str());
        s.append(": array<");
        s.append(T::TYPE_TOKEN);
        s.append(">;\n");
        proof {
            assert(s@ =~= input_declarations_spec((index + 1) as nat, T::TYPE_TOKEN@));
        }
        index = index + 1;
    }
    s
}

/// The loads of `input_count` inputs of scalar type `T`.
pub fn input_loads<T: DialectScalar>(input_count: usize) -> (s: String)
    ensures
        s@ == input_loads_spec(input_count as nat, T::TYPE_TOKEN@),
{
    let mut s = String::new();
    let mut index: usize = 0;
    while index < input_count
        invariant
            index <= input_count,
            s@ == input_loads_spec(index as nat, T::TYPE_TOKEN@),
        decreases input_count - index,
    {
        let d = decimal(index as u64);
        let i = d.as_str();
        let ghost before = s@;
        append_load_head(&mut s, i);
        append_load_step(&mut s, i);
        append_load_value(&mut s, i, T::TYPE_TOKEN);
        assert(s@ =~= before + input_load_spec(index as nat, T::TYPE_TOKEN@));
        proof {
            assert(s@ =~= input_loads_spec((index + 1) as nat, T::TYPE_TOKEN@));
        }
        index = index + 1;
    }
    s
}

/// The shared head of both kernels up to the coordinate decode: output and
/// layout bindings, the entry point, the bounds check and the row-major
/// decode of the output index.
pub open spec fn kernel_head_spec(output_binding: nat, ty: Seq<char>) -> Seq<char> {
    "@group(0) @binding("@ + decimal_spec(output_binding)
        + ") var<storage, read_write> output: array<"@ + ty + ">;\n@group(0) @binding("@
        + decimal_spec(output_binding + 1)
        + ") var<storage, read> layouts: array<LayoutInfo>;\n\n@compute @workgroup_size(256)\nfn main(@builtin(global_invocation_id) global_id: vec3<u32>) {\n    let index = global_id.x;\n    let output_layout = layouts["@
        + decimal_spec(output_binding)
        + "];\n    if (index >= output_layout.length) {\n        return;\n    }\n    var coordinates: array<u32, 8>;\n    var remaining = index;\n    for (var coordinate_axis: i32 = i32(output_layout.rank) - 1; coordinate_axis >= 0; coordinate_axis = coordinate_axis - 1) {\n        let dimension = output_layout.shape[u32(coordinate_axis)];\n        coordinates[u32(coordinate_axis)] = remaining % dimension;\n        remaining = remaining / dimension;\n    }\n"@
}

fn kernel_head(s: &mut String, output_binding: usize, ty: &str)
    requires
        output_binding < usize::MAX,
    ensures
        final(s)@ == old(s)@ + kernel_head_spec(output_binding as nat, ty@),
{
    let out = decimal(output_binding as u64);
    let layouts = decimal((output_binding + 1) as u64);
    s.append("@group(0) @binding(");
    s.append(out.as_str());
    s.append(") var<storage, read_write> output: array<");
    s.append(ty);
    s.append(">;\n@group(0) @binding(");
    s.append(layouts.as_str());
    s.append(
        ") var<storage, read> layouts: array<LayoutInfo>;\n\n@compute @workgroup_size(256)\nfn main(@builtin(global_invocation_id) global_id: vec3<u32>) {\n    let index = global_id.x;\n    let output_layout = layouts[",
    );
    s.append(out.as_str());
    s.append(
        "];\n    if (index >= output_layout.length) {\n        return;\n    }\n    var coordinates: array<u32, 8>;\n    var remaining = index;\n    for (var coordinate_axis: i32 = i32(output_layout.rank) - 1; coordinate_axis >= 0; coordinate_axis = coordinate_axis - 1) {\n        let dimension = output_layout.shape[u32(coordinate_axis)];\n        coordinates[u32(coordinate_axis)] = remaining % dimension;\n        remaining = remaining / dimension;\n    }\n",
    );
    assert(s@ =~= old(s)@ + kernel_head_spec(output_binding as nat, ty@));
}

/// The fused elementwise kernel over `count` inputs of type `ty`: each
/// invocation decodes its output coordinates, loads every input there and
/// stores `expression`.
pub open spec fn elementwise_source_spec(count: nat, expression: Seq<char>, ty: Seq<char>) -> Seq<char> {
    layout_struct_spec() + "\n"@ + input_declarations_spec(count, ty) + kernel_head_spec(count, ty)
        + input_loads_spec(count, ty) + "    "@ + output_offset_spec()
        + "    output[u32(output_offset)] = "@ + expression + ";\n}\n"@
}

/// Generate the provider-owned wrapper for an elementwise expression.
pub fn elementwise_source<T: DialectScalar>(input_count: usize, expression: &str) -> (s: String)
    requires
        input_count < usize::MAX,
    ensures
        s@ == elementwise_source_spec(input_count as nat, expression@, T::TYPE_TOKEN@),
{
    let mut s = String::from_str(wgsl_layout());
    s.append("\n");
    let inputs = input_declarations::<T>(input_count);
    s.append(inputs.as_str());
    kernel_head(&mut s, input_count, T::TYPE_TOKEN);
    let loads = input_loads::<T>(input_count);
    s.append(loads.as_str());
    s.append("    ");
    s.append(output_offset());
    s.append("    output[u32(output_offset)] = ");
    s.append(expression);
    s.append(";\n}\n");
    assert(s@ =~= elementwise_source_spec(input_count as nat, expression@, T::TYPE_TOKEN@));
    s
}

/// Identity, combination and final value of a fused reduction, as WGSL.
pub open spec fn reduction_parts<T: WgpuFusionScalar>(reduction: FusedReduction) -> (Seq<char>, Seq<char>, Seq<char>) {
    match reduction {
        FusedReduction::Sum => (T::ZERO@, "lhs + rhs"@, "acc"@),
        FusedReduction::Product => (T::ONE@, "lhs * rhs"@, "acc"@),
        FusedReduction::Mean => (T::ZERO@, "lhs + rhs"@, "acc / "@ + T::MEAN_DIVISOR@),
        FusedReduction::Maximum => (T::LOWEST@, "max(lhs, rhs)"@, "acc"@),
        FusedReduction::Minimum => (T::HIGHEST@, "min(lhs, rhs)"@, "acc"@),
    }
}

/// The fused reduction kernel: each invocation walks the reduced axis of its
/// output position, combining `expression` from `identity`, then stores the
/// final value.
pub open spec fn reduction_source_spec<T: WgpuFusionScalar>(
    count: nat,
    expression: Seq<char>,
    reduction: FusedReduction,
) -> Seq<char> {
    let ty = T::TYPE_TOKEN@;
    let (identity, combine, final_value) = reduction_parts::<T>(reduction);
    layout_struct_spec() + "\n"@ + input_declarations_spec(count, ty) + "\n"@ + kernel_head_spec(
        count,
        ty,
    ) + "    var acc: "@ + ty + " = "@ + identity
        + ";\n    let axis_length = output_layout.extent;\n    for (var reduction_index: u32 = 0u; reduction_index < axis_length; reduction_index = reduction_index + 1u) {\n        coordinates[output_layout.axis] = reduction_index;\n"@
        + input_loads_spec(count, ty) + "        let expression_value = "@ + expression
        + ";\n        let lhs = acc;\n        let rhs = expression_value;\n        acc = "@ + combine
        + ";\n    }\n    coordinates[output_layout.axis] = 0u;\n"@ + output_offset_spec()
        + "    output[u32(output_offset)] = "@ + final_value + ";\n}\n"@
}

/// Generate the provider-owned wrapper for an expression followed by an axis
/// reduction.
pub fn reduction_source<T: WgpuFusionScalar>(
    input_count: usize,
    expression: &str,
    reduction: FusedReduction,
) -> (s: String)
    requires
        input_count < usize::MAX,
    ensures
        s@ == reduction_source_spec::<T>(input_count as nat, expression@, reduction),
{
    let (identity, combine): (&str, &str) = match reduction {
        FusedReduction::Sum => (T::ZERO, "lhs + rhs"),
        FusedReduction::Product => (T::ONE, "lhs * rhs"),
        FusedReduction::Mean => (T::ZERO, "lhs + rhs"),
        FusedReduction::Maximum => (T::LOWEST, "max(lhs, rhs)"),
        FusedReduction::Minimum => (T::HIGHEST, "min(lhs, rhs)"),
    };
    let final_value = match reduction {
        FusedReduction::Mean => {
            let mut f = String::from_str("acc / ");
            f.append(T::MEAN_DIVISOR);
            f
        },
        _ => String::from_str("acc"),
    };
    assert(identity@ == reduction_parts::<T>(reduction).0);
    assert(combine@ == reduction_parts::<T>(reduction).1);
    assert(final_value@ == reduction_parts::<T>(reduction).2);
    let mut s = String::from_str(wgsl_layout());
    s.append("\n");
    let inputs = input_declarations::<T>(input_count);
    s.append(inputs.as_str());
    s.append("\n");
    kernel_head(&mut s, input_count, T::TYPE_TOKEN);
    s.append("    var acc: ");
    s.append(T::TYPE_TOKEN);
    s.append(" = ");
    s.append(identity);
    s.append(
        ";\n    let axis_length = output_layout.extent;\n    for (var reduction_index: u32 = 0u; reduction_index < axis_length; reduction_index = reduction_index + 1u) {\n        coordinates[output_layout.axis] = reduction_index;\n",
    );
    let loads = input_loads::<T>(input_count);
    s.append(loads.as_str());
    s.append("        let expression_value = ");
    s.append(expression);
    s.append(";\n        let lhs = acc;\n        let rhs = expression_value;\n        acc = ");
    s.append(combine);
    s.append(";\n    }\n    coordinates[output_layout.axis] = 0u;\n");
    s.append(output_offset());
    s.append("    output[u32(output_offset)] = ");
    s.append(final_value.as_str());
    s.append(";\n}\n");
    assert(s@ =~= reduction_source_spec::<T>(input_count as nat, expression@, reduction));
    s
}

} // verus!
