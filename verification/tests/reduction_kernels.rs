use hephaestus_wgpu::pipeline::BlockWidth;
use hephaestus_wgpu::reduction_kernels::{
    axis_reduction_axis0_tiled_shader_source, axis_reduction_parallel_shader_source,
    final_reduction_shader_source, mean_axis0_tiled_shader_source,
    mean_axis_parallel_shader_source, parameters_declaration, scan_shader_source,
    sequential_scan_shader_source, spmm_shader_source, spmv_shader_source,
    stateful_update_shader_source, tree_pass_shader_source,
};

#[test]
fn reduction_kernels_substitute_identity_and_combine() {
    let width = BlockWidth::standard();
    let tree = tree_pass_shader_source::<u32>(width, "0u", "lhs + rhs");
    assert!(tree.contains("var<workgroup> shared_data: array<u32, 256>;"));
    assert!(tree.contains("shared_data[local_id.x] = 0u;"));
    assert!(tree.contains("shared_data[local_id.x] = lhs + rhs;"));
    let last = final_reduction_shader_source::<i32>(width, "-2147483648", "max(lhs, rhs)");
    assert!(last.contains("var acc: i32 = -2147483648;"));
    assert!(last.contains("i = i + 256u;"));
    let parallel = axis_reduction_parallel_shader_source::<u32>(width, "1u", "lhs * rhs");
    assert!(parallel.contains("@compute @workgroup_size(256)"));
    assert!(!parallel.contains("{expr}"));
    let mean = mean_axis_parallel_shader_source::<u32>(width, "0u");
    assert!(mean.contains("output[u32(out_off)] = partials[0u] / u32(axis_len);"));
}

#[test]
fn leading_axis_kernels_use_the_planned_tile() {
    let tiled = axis_reduction_axis0_tiled_shader_source::<u32>(BlockWidth::standard(), "0u", "lhs + rhs");
    assert!(tiled.contains("@compute @workgroup_size(32, 8)"));
    assert!(tiled.contains("let out_col = workgroup_id.x * 32u + local_id.x;"));
    let narrow = mean_axis0_tiled_shader_source::<u32>(BlockWidth::new(16).unwrap(), "0u");
    assert!(narrow.contains("@compute @workgroup_size(16, 1)"));
}

#[test]
fn scan_and_sparse_kernels_bind_their_operands() {
    let scan = scan_shader_source::<i32>(BlockWidth::standard(), "0", "lhs + rhs");
    assert!(scan.contains("var<workgroup> partial: array<i32, 256>;"));
    assert!(scan.contains("local_acc = lhs + rhs;"));
    let sequential = sequential_scan_shader_source::<u32>(BlockWidth::new(64).unwrap(), "0u", "lhs + rhs");
    assert!(sequential.contains("@compute @workgroup_size(64)"));
    let spmv = spmv_shader_source::<u32>(BlockWidth::standard());
    assert!(spmv.contains("var acc = u32(0u);"));
    assert!(spmv.contains("@group(0) @binding(4) var<storage, read_write> y: array<u32>;"));
    let spmm = spmm_shader_source::<i32>(BlockWidth::standard());
    assert!(spmm.contains("var acc = i32(0);"));
    assert!(spmm.contains("c[flat] = acc;"));
}

#[test]
fn stateful_update_kernel_binds_the_second_state_only_when_present() {
    assert_eq!(
        parameters_declaration(&["learning_rate", "beta"]),
        "struct Parameters {\n    learning_rate: f32,\n    beta: f32,\n}\n"
    );
    assert_eq!(parameters_declaration(&[]), "struct Parameters {\n}\n");
    let one = stateful_update_shader_source(&["lr"], false, BlockWidth::standard(), "parameter_next = parameter_value - parameters.lr * gradient_value;");
    assert!(!one.contains("state_one"));
    assert!(one.contains("@compute @workgroup_size(256)"));
    assert!(one.contains("    parameter_next = parameter_value - parameters.lr * gradient_value;\n"));
    let two = stateful_update_shader_source(&["lr", "beta"], true, BlockWidth::standard(), "state_one_next = state_one_value;");
    assert!(two.contains("@group(0) @binding(5) var<storage, read_write> state_one: array<f32>;"));
    assert!(two.contains("    state_one[u32(state_one_offset)] = state_one_next;\n"));
}
