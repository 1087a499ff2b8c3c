use hephaestus_wgpu::layout::StridedLayout;
use hephaestus_wgpu::loss::{address_limit, narrow, status_code, CrossEntropyMeta, LayoutMeta};
use hephaestus_wgpu::loss_kernels::{
    backward_accumulate, forward_rows, prelude, shader, StatusCodes, BACKWARD_ACCUMULATE,
    FORWARD_ROWS,
};
use hephaestus_wgpu::pipeline::DispatchGrid;
use hephaestus_wgpu::stencil::laplacian_dims;
use hephaestus_wgpu::text::{decimal, framed_decimal};
use hephaestus_wgpu::{
    BoundaryCondition, Fdtd3dKernel, HephaestusError, Laplacian2DKernel, Staggered3DKernel,
};

#[test]
fn laplacian_dims_of_a_valid_grid() {
    let dims = laplacian_dims(4, 5, BoundaryCondition::Dirichlet).unwrap();
    assert_eq!(dims, [4, 5, 0, 0]);
}

#[test]
fn laplacian_dims_rejects_too_small_axes() {
    assert!(matches!(
        laplacian_dims(1, 4, BoundaryCondition::Neumann),
        Err(HephaestusError::InvalidConfiguration { .. })
    ));
    assert!(matches!(
        laplacian_dims(4, 1, BoundaryCondition::Neumann),
        Err(HephaestusError::InvalidConfiguration { .. })
    ));
}

#[test]
fn boundary_conditions_have_distinct_codes() {
    assert_eq!(BoundaryCondition::Dirichlet.as_u32(), 0);
    assert_eq!(BoundaryCondition::Neumann.as_u32(), 1);
    assert_eq!(BoundaryCondition::Periodic.as_u32(), 2);
    assert_eq!(
        laplacian_dims(9, 3, BoundaryCondition::Periodic).unwrap(),
        [9, 3, 2, 0]
    );
}

#[test]
fn laplacian_grid_covers_the_domain_in_eight_by_eight_tiles() {
    let kernel = Laplacian2DKernel::new("laplacian");
    assert_eq!(*kernel.kernel(), "laplacian");
    let grid = kernel.dispatch_grid(20, 20, 17, 8).unwrap();
    assert_eq!(grid, DispatchGrid { x: 3, y: 1, z: 1 });
    match kernel.dispatch_grid(20, 21, 17, 8) {
        Err(HephaestusError::DispatchFailed { message }) => assert_eq!(
            message,
            "Laplacian input length 20 does not match output length 21"
        ),
        other => panic!("unexpected result {:?}", other),
    }
}

#[test]
fn three_dimensional_stencils_cover_their_grids() {
    let staggered = Staggered3DKernel::new(1u8, 2u8);
    assert_eq!(*staggered.gradient_kernel(), 1);
    assert_eq!(*staggered.divergence_kernel(), 2);
    assert_eq!(
        staggered.dispatch_grid([9, 4, 1]),
        DispatchGrid { x: 3, y: 1, z: 1 }
    );
    let fdtd = Fdtd3dKernel::new(3u8, 4u8);
    assert_eq!(*fdtd.velocity_kernel(), 3);
    assert_eq!(*fdtd.pressure_kernel(), 4);
    assert_eq!(
        fdtd.dispatch_grid(16, 17, 5),
        DispatchGrid { x: 2, y: 3, z: 2 }
    );
}

#[test]
fn cross_entropy_metadata_pads_to_four_axes() {
    let logits = StridedLayout::new(vec![3, 5], vec![6, 1], 2);
    let meta = LayoutMeta::new(&logits).unwrap();
    assert_eq!(meta.shape, [3, 5, 1, 1]);
    assert_eq!(meta.address, [6, 1, 2, 0]);
    let vector = StridedLayout::new(vec![3], vec![-1], 2);
    let meta = LayoutMeta::new(&vector).unwrap();
    assert_eq!(meta.shape, [3, 1, 1, 1]);
    assert_eq!(meta.address, [-1, 0, 2, 0]);
}

#[test]
fn cross_entropy_metadata_rejects_what_the_kernels_cannot_address() {
    let rank3 = StridedLayout::new(vec![1, 1, 1], vec![1, 1, 1], 0);
    assert!(matches!(
        LayoutMeta::new(&rank3),
        Err(HephaestusError::InvalidConfiguration { .. })
    ));
    let far = StridedLayout::new(vec![2], vec![1], i32::MAX as usize);
    assert!(LayoutMeta::new(&far).is_err());
    let wide = StridedLayout::new(vec![2], vec![1isize << 40], 0);
    assert!(LayoutMeta::new(&wide).is_err());
    assert!(matches!(
        narrow(1usize << 40, "batch"),
        Err(HephaestusError::InvalidConfiguration { .. })
    ));
    assert_eq!(narrow(7, "batch").unwrap(), 7);
    assert_eq!(address_limit(), i32::MAX as usize);
}

#[test]
fn cross_entropy_launch_metadata_describes_every_operand() {
    let logits = StridedLayout::new(vec![2, 3], vec![3, 1], 0);
    let targets = StridedLayout::new(vec![2], vec![1], 0);
    let loss = StridedLayout::new(vec![1], vec![1], 0);
    let probabilities = StridedLayout::new(vec![2, 3], vec![1, 2], 0);
    let meta =
        CrossEntropyMeta::forward(2, 3, 17, &logits, &targets, &loss, &probabilities).unwrap();
    assert_eq!(meta.dimensions, [2, 3, 17, 0]);
    assert_eq!(meta.probabilities.address, [1, 2, 0, 0]);
    assert_eq!(meta.logit_gradient.shape, [1, 1, 1, 1]);
    let backward =
        CrossEntropyMeta::backward(2, 3, 0, &loss, &probabilities, &targets, &logits).unwrap();
    assert_eq!(backward.logit_gradient.shape, [2, 3, 1, 1]);
    assert_eq!(backward.logits.shape, [1, 1, 1, 1]);
    let rank3 = StridedLayout::new(vec![1, 1, 1], vec![1, 1, 1], 0);
    assert!(CrossEntropyMeta::forward(2, 3, 0, &rank3, &targets, &loss, &probabilities).is_err());
}

#[test]
fn kernel_status_sentinel_means_success() {
    assert_eq!(status_code(u32::MAX), 0);
    assert_eq!(status_code(3), 3);
    assert_eq!(status_code(0), 0);
}

#[test]
fn decimal_rendering_matches_formatting() {
    for n in [0u64, 7, 10, 99, 1234567890, u64::MAX] {
        assert_eq!(decimal(n), n.to_string());
    }
    assert_eq!(framed_decimal("axis ", 12, " is out"), "axis 12 is out");
}

#[test]
fn cross_entropy_kernels_share_the_prelude() {
    let codes = StatusCodes {
        nonfinite_logits: 1,
        target_out_of_range: 2,
        nonfinite_forward: 3,
        nonfinite_output_gradient: 4,
        invalid_probabilities: 5,
        nonfinite_destination: 6,
        nonfinite_backward: 7,
    };
    let prelude = prelude(128, codes);
    assert!(prelude.contains("const WORKGROUP_WIDTH: u32 = 128u;\n"));
    assert!(prelude.contains("const STATUS_TARGET_OUT_OF_RANGE: u32 = 2u;\n"));
    assert!(prelude.contains("const STATUS_NON_FINITE_BACKWARD: u32 = 7u;\n"));
    let forward = shader(FORWARD_ROWS, 128, codes);
    assert_eq!(forward, format!("{}\n{}", prelude, forward_rows()));
    let accumulate = shader(BACKWARD_ACCUMULATE, 64, codes);
    assert!(accumulate.ends_with(backward_accumulate()));
    assert!(accumulate.contains("const WORKGROUP_WIDTH: u32 = 64u;\n"));
}
