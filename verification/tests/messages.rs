use hephaestus_wgpu::fft::plan::radix_parameters;
use hephaestus_wgpu::fft::strategy::axis_strategy_for;
use hephaestus_wgpu::fusion::{
    check_output_injectivity, check_reduction_extent, validate_binding_count,
    validate_expression_source, FusedReduction,
};
use hephaestus_wgpu::layout::StridedLayout;
use hephaestus_wgpu::linalg::{dot_length, kron_output_shape, rank_preflight, to_u32};
use hephaestus_wgpu::pipeline::{covering_domain, BlockWidth};
use hephaestus_wgpu::reduction::{axis_len, check_scan_rank, validate_reduction_width};
use hephaestus_wgpu::sparse::validate_csr;
use hephaestus_wgpu::stencil::laplacian_dims;
use hephaestus_wgpu::{BoundaryCondition, HephaestusError};

fn message(error: HephaestusError) -> String {
    match error {
        HephaestusError::InvalidConfiguration { message }
        | HephaestusError::DispatchFailed { message }
        | HephaestusError::AllocationFailed { message } => message,
        HephaestusError::LengthMismatch { .. } => String::new(),
    }
}

#[test]
fn reduction_errors_name_the_offending_value() {
    let width = BlockWidth::new(12).unwrap();
    assert_eq!(
        message(validate_reduction_width(width).unwrap_err()),
        "reduction block width 12 must be a power of two of at least 2"
    );
    assert_eq!(
        message(axis_len([2, 3], 5).unwrap_err()),
        "axis 5 is out of bounds for rank-2 reduction"
    );
    assert_eq!(
        message(check_scan_rank(3).unwrap_err()),
        "scan currently supports only rank-2 operands, got rank 3"
    );
}

#[test]
fn linear_algebra_errors_print_shapes() {
    let a = StridedLayout::new(vec![4], vec![1], 0);
    let b = StridedLayout::new(vec![5], vec![1], 0);
    assert_eq!(
        message(dot_length(&a, &b).unwrap_err()),
        "dot product shape mismatch: lhs [4], rhs [5]"
    );
    let wide = StridedLayout::new(vec![2, 3], vec![3, 1], 0);
    assert_eq!(
        message(rank_preflight(&wide, 6, true).unwrap_err()),
        "det requires a square matrix, got shape [2, 3]"
    );
    assert_eq!(
        message(kron_output_shape([usize::MAX, 1], [2, 1]).unwrap_err()),
        format!("Kronecker row count overflows usize: {} * 2", usize::MAX)
    );
    assert_eq!(
        message(to_u32(1usize << 32, "CSR row count").unwrap_err()),
        "CSR row count 4294967296 exceeds u32 range"
    );
}

#[test]
fn grid_and_stencil_errors_name_the_axis() {
    assert_eq!(
        message(covering_domain([usize::MAX, 1, 1], [1, 1, 1]).unwrap_err()),
        format!("dispatch domain axis 0 needs {} workgroups, exceeding u32", usize::MAX)
    );
    assert_eq!(
        message(laplacian_dims(1, 7, BoundaryCondition::Neumann).unwrap_err()),
        "Laplacian grid axes must contain at least two points: nx=1, ny=7"
    );
}

#[test]
fn csr_and_fusion_errors_explain_the_rejection() {
    assert_eq!(
        message(validate_csr(1, &[0], &[1, 1], 1, 1).unwrap_err()),
        "CSR row pointers must start at zero"
    );
    assert_eq!(
        message(validate_expression_source(" \n").unwrap_err()),
        "fusion expression must not be empty"
    );
    assert_eq!(
        message(validate_binding_count(7, 8).unwrap_err()),
        "fusion requires 9 storage bindings, device limit is 8"
    );
    assert_eq!(
        message(check_reduction_extent(FusedReduction::Mean, 0).unwrap_err()),
        "fused Mean reduction does not define an empty axis"
    );
    let layout = StridedLayout::new(vec![2], vec![0], 0);
    assert_eq!(
        message(check_output_injectivity(&layout, Ok(false)).unwrap_err()),
        "fusion output layout must be injective"
    );
}

#[test]
fn fft_planning_errors_explain_the_rejection() {
    assert_eq!(
        message(axis_strategy_for(0).unwrap_err()),
        "Bluestein convolution length overflows for axis 0"
    );
    assert_eq!(
        message(radix_parameters(12, 4).unwrap_err()),
        "radix root length 12 does not cover FFT length 4"
    );
}
