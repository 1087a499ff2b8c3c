use hephaestus_wgpu::layout::StridedLayout;
use hephaestus_wgpu::pipeline::BlockWidth;
use hephaestus_wgpu::reduction::{
    axis0_tile_shape, axis_len, check_full_reduction_output, check_scan_rank,
    plan_mixed_reduction_batch, plan_reduction, plan_reduction_source, reduced_output_layout,
    reject_empty_axis, select_axis_reduction_kernel, AxisReductionKernel, BatchDispatch,
    ReductionPass, ReductionSource, ReductionWork, ScalarWorkShape,
};
use hephaestus_wgpu::HephaestusError;

fn width(w: u32) -> BlockWidth {
    BlockWidth::new(w).unwrap()
}

#[test]
fn reduction_of_nothing_or_one_value_needs_no_tree() {
    let empty = plan_reduction(0, BlockWidth::standard()).unwrap();
    assert!(empty.is_empty());
    assert_eq!(empty.tree_depth(), 0);
    let single = plan_reduction(1, BlockWidth::standard()).unwrap();
    assert!(single.has_singleton_copy());
    assert_eq!(single.pass(0), None);
}

#[test]
fn small_reduction_is_one_final_pass() {
    let work = plan_reduction(100, BlockWidth::standard()).unwrap();
    assert_eq!(work.tree_depth(), 1);
    assert_eq!(
        work.pass(0),
        Some(ReductionPass { final_pass: true, groups: 1, out_len: 1 })
    );
}

#[test]
fn large_reduction_shrinks_by_the_width_each_level() {
    // 70000 values exceed 256 * 256, so one level first leaves ceil(70000 / 256).
    let work = plan_reduction(70_000, BlockWidth::standard()).unwrap();
    match work {
        ReductionWork::Tree(passes) => {
            assert_eq!(
                passes,
                vec![
                    ReductionPass { final_pass: false, groups: 274, out_len: 274 },
                    ReductionPass { final_pass: true, groups: 1, out_len: 1 },
                ]
            );
        }
        _ => panic!("expected a reduction tree"),
    }
}

#[test]
fn every_reduction_tree_ends_in_one_value() {
    for len in [2usize, 5, 17, 4096, 4097, 1_000_000] {
        let work = plan_reduction(len, width(4)).unwrap();
        let depth = work.tree_depth();
        assert!(depth >= 1);
        let last = work.pass(depth - 1).unwrap();
        assert!(last.final_pass);
        assert_eq!(last.out_len, 1);
    }
}

#[test]
fn reduction_width_must_be_a_power_of_two_of_at_least_two() {
    let odd = plan_reduction(10, width(3)).unwrap_err();
    assert!(matches!(odd, HephaestusError::InvalidConfiguration { .. }));
    let one = plan_reduction(10, width(1)).unwrap_err();
    assert!(matches!(one, HephaestusError::InvalidConfiguration { .. }));
}

#[test]
fn reduction_with_too_many_first_level_groups_fails_dispatch() {
    let err = plan_reduction(10_000_000_000, width(2)).unwrap_err();
    assert!(matches!(err, HephaestusError::DispatchFailed { .. }));
}

#[test]
fn mixed_batch_groups_dependent_stages_in_separate_passes() {
    let scalar = [
        ScalarWorkShape { singleton_copy: true, depth: 0 },
        ScalarWorkShape { singleton_copy: false, depth: 2 },
        ScalarWorkShape { singleton_copy: false, depth: 1 },
    ];
    let plan = plan_mixed_reduction_batch(&scalar, &[true, false, true]);
    assert!(plan.submit);
    assert_eq!(plan.singleton_copies, vec![0]);
    assert_eq!(
        plan.stages,
        vec![
            vec![
                BatchDispatch::Axis(0),
                BatchDispatch::Axis(2),
                BatchDispatch::Scalar(1, 0),
                BatchDispatch::Scalar(2, 0),
            ],
            vec![BatchDispatch::Scalar(1, 1)],
        ]
    );
}

#[test]
fn mixed_batch_without_work_submits_nothing() {
    let scalar = [ScalarWorkShape { singleton_copy: false, depth: 0 }];
    let plan = plan_mixed_reduction_batch(&scalar, &[false]);
    assert!(!plan.submit);
    assert!(plan.singleton_copies.is_empty());
    assert!(plan.stages.is_empty());
    let axis_only = plan_mixed_reduction_batch(&[], &[true]);
    assert!(axis_only.submit);
    assert_eq!(axis_only.stages, vec![vec![BatchDispatch::Axis(0)]]);
}

#[test]
fn axis_reduction_kernels_tile_the_leading_axis() {
    assert_eq!(axis0_tile_shape(BlockWidth::standard()), (32, 8));
    assert_eq!(axis0_tile_shape(width(16)), (16, 1));
    assert_eq!(
        select_axis_reduction_kernel(true, 100, BlockWidth::standard()),
        (AxisReductionKernel::Axis0Tiled, 4)
    );
    assert_eq!(
        select_axis_reduction_kernel(false, 100, BlockWidth::standard()),
        (AxisReductionKernel::Parallel, 100)
    );
}

#[test]
fn axis_reductions_check_the_axis() {
    assert_eq!(axis_len([3, 4], 1).unwrap(), 4);
    assert!(matches!(
        axis_len([3, 4], 2),
        Err(HephaestusError::DispatchFailed { .. })
    ));
    assert!(reject_empty_axis(3, "mean", 0).is_ok());
    match reject_empty_axis(0, "mean", 1) {
        Err(HephaestusError::DispatchFailed { message }) => {
            assert_eq!(message, "mean is undefined for empty axis 1");
        }
        other => panic!("unexpected {other:?}"),
    }
}

#[test]
fn axis_reduction_keeps_the_reduced_axis_with_length_one() {
    let (rows, len) = reduced_output_layout([3, 4], 0).unwrap();
    assert_eq!(rows.shape, vec![1, 4]);
    assert_eq!(rows.strides, vec![4, 1]);
    assert_eq!(len, 4);
    let (cols, len) = reduced_output_layout([3, 4], 1).unwrap();
    assert_eq!(cols.shape, vec![3, 1]);
    assert_eq!(cols.strides, vec![1, 1]);
    assert_eq!(len, 3);
    assert!(reduced_output_layout([3, 4], 2).is_err());
}

#[test]
fn reduction_source_reuses_only_dense_row_major_buffers() {
    let dense = StridedLayout::new(vec![2, 3], vec![3, 1], 0);
    assert!(matches!(
        plan_reduction_source(&dense, 6).unwrap(),
        ReductionSource::Reuse
    ));
    match plan_reduction_source(&dense, 8).unwrap() {
        ReductionSource::Gather(layout, len) => {
            assert_eq!(layout.strides, vec![3, 1]);
            assert_eq!(len, 6);
        }
        other => panic!("unexpected {other:?}"),
    }
    let transposed = StridedLayout::new(vec![3, 2], vec![1, 3], 0);
    assert!(matches!(
        plan_reduction_source(&transposed, 6).unwrap(),
        ReductionSource::Gather(_, 6)
    ));
    let empty = StridedLayout::new(vec![0, 3], vec![3, 1], 0);
    assert!(matches!(
        plan_reduction_source(&empty, 0).unwrap(),
        ReductionSource::Empty
    ));
    assert!(matches!(
        plan_reduction_source(&dense, 5),
        Err(HephaestusError::InvalidConfiguration { .. })
    ));
}

#[test]
fn full_reduction_output_is_one_unaliased_value() {
    let one = StridedLayout::new(vec![1], vec![1], 0);
    assert!(check_full_reduction_output(&one, 1, false).is_ok());
    assert!(matches!(
        check_full_reduction_output(&one, 1, true),
        Err(HephaestusError::DispatchFailed { .. })
    ));
    let two = StridedLayout::new(vec![2], vec![1], 0);
    assert!(matches!(
        check_full_reduction_output(&two, 2, false),
        Err(HephaestusError::DispatchFailed { .. })
    ));
    assert!(matches!(
        check_full_reduction_output(&one, 0, false),
        Err(HephaestusError::InvalidConfiguration { .. })
    ));
}

#[test]
fn scans_accept_rank_two_only() {
    assert!(check_scan_rank(2).is_ok());
    assert!(matches!(
        check_scan_rank(3),
        Err(HephaestusError::DispatchFailed { .. })
    ));
}
