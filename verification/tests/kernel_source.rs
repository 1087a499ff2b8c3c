use hephaestus_wgpu::kernel_source::{
    binary_shader, contiguous_binary_shader, contiguous_scalar_shader, contiguous_unary_shader,
    kron_shader_source, matmul_shader_source, matrix_properties_shader_source, scalar_shader,
    unary_shader, wgsl_decode, wgsl_meta,
};
use hephaestus_wgpu::pipeline::BlockWidth;

#[test]
fn elementwise_kernels_bind_meta_inputs_and_output_in_order() {
    let unary = unary_shader::<u32>(BlockWidth::standard(), "x * 2u");
    assert!(unary.starts_with(wgsl_meta()));
    assert!(unary.contains("@group(0) @binding(1) var<storage, read> a: array<u32>;"));
    assert!(unary.contains("@group(0) @binding(2) var<storage, read_write> out: array<u32>;"));
    assert!(unary.contains("@compute @workgroup_size(256)"));
    assert!(unary.contains(wgsl_decode()));
    assert!(unary.ends_with("    out[u32(o_off)] = x * 2u;\n}\n"));

    let binary = binary_shader::<i32>(BlockWidth::new(64).unwrap(), "lhs - rhs");
    assert!(binary.contains("@group(0) @binding(2) var<storage, read> b: array<i32>;"));
    assert!(binary.contains("@group(0) @binding(3) var<storage, read_write> out: array<i32>;"));
    assert!(binary.contains("@compute @workgroup_size(64)"));
    assert!(binary.contains("    out[u32(o_off)] = lhs - rhs;\n"));

    let scalar = scalar_shader::<u32>(BlockWidth::standard(), "max(lhs, rhs)");
    assert!(scalar.contains("@group(0) @binding(2) var<uniform> scalar: u32;"));
    assert!(scalar.contains("    let rhs = scalar;\n"));
}

#[test]
fn matrix_kernels_use_the_scalar_tokens() {
    let matmul = matmul_shader_source::<i32>();
    assert!(matmul.contains("var<workgroup> A_shared: array<array<i32, 16>, 16>;"));
    assert!(matmul.contains("var sum = i32(0);"));
    assert!(!matmul.contains("{ty}"));
    let unsigned = matmul_shader_source::<u32>();
    assert!(unsigned.contains("var sum = u32(0u);"));

    let kron = kron_shader_source::<u32>();
    assert!(kron.contains("@group(0) @binding(2) var<storage, read_write> out: array<u32>;"));
    assert!(kron.contains("out[u32(out_offset)] = a[u32(a_offset)] * b[u32(b_offset)];"));

    let properties = matrix_properties_shader_source::<Rank32>();
    assert!(properties.contains("@group(0) @binding(4) var<storage, read_write> det_out: array<f32>;"));
    assert!(properties.contains("let threshold = max_abs * f32(rank_meta.tolerance);"));
}

struct Rank32;

impl hephaestus_wgpu::linalg::DialectScalar for Rank32 {
    const TYPE_TOKEN: &'static str = "f32";
}

impl hephaestus_wgpu::MatrixRankScalar for Rank32 {}

#[test]
fn contiguous_kernels_index_their_buffers_directly() {
    let unary = contiguous_unary_shader::<u32>(BlockWidth::standard(), "x + 1u");
    assert!(unary.contains("@group(0) @binding(1) var<storage, read_write> out: array<u32>;"));
    assert!(unary.contains("    out[i] = x + 1u;\n"));
    let binary = contiguous_binary_shader::<i32>(BlockWidth::new(128).unwrap(), "lhs * rhs");
    assert!(binary.contains("@compute @workgroup_size(128)"));
    assert!(binary.contains("    let rhs = b[i];\n"));
    let scalar = contiguous_scalar_shader::<u32>(BlockWidth::standard(), "lhs / rhs");
    assert!(scalar.contains("@group(0) @binding(1) var<uniform> scalar: u32;"));
}
