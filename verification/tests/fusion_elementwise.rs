use hephaestus_wgpu::elementwise::{
    contiguous_preflight, plan_map_reduction, prepare_elementwise, ElementwiseOperand,
};
use hephaestus_wgpu::fusion::{
    check_output_injectivity, check_reduction_extent, expression_shape, metadata_for_elementwise,
    plan_fusion_launch, reduction_key, reduction_metadata, validate_binding_count,
    validate_common, validate_expression_source, FusedReduction, FusionLaunch, FusionLayoutInfo,
    FusionOperand,
};
use hephaestus_wgpu::layout::{LayoutError, StridedLayout};
use hephaestus_wgpu::pipeline::BlockWidth;
use hephaestus_wgpu::reduction::ReductionWork;
use hephaestus_wgpu::HephaestusError;

fn operand(shape: &[usize], strides: &[isize], buffer_len: usize) -> FusionOperand {
    FusionOperand {
        layout: StridedLayout::new(shape.to_vec(), strides.to_vec(), 0),
        buffer_len,
    }
}

fn ew(shape: &[usize], strides: &[isize], buffer_len: usize) -> ElementwiseOperand {
    ElementwiseOperand {
        layout: StridedLayout::new(shape.to_vec(), strides.to_vec(), 0),
        buffer_len,
    }
}

#[test]
fn fused_expression_is_one_non_blank_fragment() {
    assert!(validate_expression_source("x0 * x1 + 1.0").is_ok());
    for bad in ["", "  \t\n", "x0; x1", "{ x0 }"] {
        assert!(matches!(
            validate_expression_source(bad),
            Err(HephaestusError::InvalidConfiguration { .. })
        ));
    }
}

#[test]
fn fusion_layout_info_pads_to_eight_axes() {
    let layout = StridedLayout::new(vec![2, 3], vec![3, 1], 1);
    let info = FusionLayoutInfo::from_layout(&layout, None).unwrap();
    assert_eq!(info.offset, 1);
    assert_eq!(info.rank, 2);
    assert_eq!(info.length, 6);
    assert_eq!((info.axis, info.extent), (0, 1));
    assert_eq!(info.shape, [2, 3, 1, 1, 1, 1, 1, 1]);
    assert_eq!(info.strides, [3, 1, 0, 0, 0, 0, 0, 0]);
    let reduced = FusionLayoutInfo::from_layout(&layout, Some((1, 3))).unwrap();
    assert_eq!((reduced.axis, reduced.extent), (1, 3));
    let rank9 = StridedLayout::new(vec![1; 9], vec![1; 9], 0);
    assert!(matches!(
        FusionLayoutInfo::from_layout(&rank9, None),
        Err(HephaestusError::InvalidConfiguration { .. })
    ));
}

#[test]
fn fusion_binding_count_includes_output_and_layouts() {
    assert!(validate_binding_count(3, 5).is_ok());
    assert!(matches!(
        validate_binding_count(4, 5),
        Err(HephaestusError::InvalidConfiguration { .. })
    ));
}

#[test]
fn fusion_operands_are_validated_together() {
    let inputs = [operand(&[2, 3], &[3, 1], 6)];
    let output = operand(&[2, 3], &[3, 1], 6);
    assert_eq!(validate_common(&inputs, &[false], &output, 8).unwrap(), 6);
    assert!(validate_common(&inputs, &[true], &output, 8).is_err());
    assert!(validate_common(&[], &[], &output, 8).is_err());
    assert!(validate_common(&inputs, &[false], &output, 2).is_err());
    let short = [operand(&[2, 3], &[3, 1], 5)];
    assert!(validate_common(&short, &[false], &output, 8).is_err());
    let repeated = operand(&[2, 3], &[0, 1], 6);
    assert!(matches!(
        validate_common(&inputs, &[false], &repeated, 8),
        Err(HephaestusError::DispatchFailed { .. })
    ));
}

#[test]
fn fusion_output_must_be_injective() {
    let layout = StridedLayout::new(vec![2, 3], vec![3, 1], 0);
    assert_eq!(check_output_injectivity(&layout, Ok(true)).unwrap(), 6);
    assert!(matches!(
        check_output_injectivity(&layout, Ok(false)),
        Err(HephaestusError::DispatchFailed { .. })
    ));
    let failure = LayoutError { message: String::from("overflow") };
    match check_output_injectivity(&layout, Err(failure)) {
        Err(HephaestusError::DispatchFailed { message }) => {
            assert_eq!(message, "fusion output injectivity proof failed: overflow");
        }
        other => panic!("unexpected {other:?}"),
    }
    let rank9 = StridedLayout::new(vec![1; 9], vec![1; 9], 0);
    assert!(matches!(
        check_output_injectivity(&rank9, Ok(true)),
        Err(HephaestusError::InvalidConfiguration { .. })
    ));
}

#[test]
fn expression_shape_broadcasts_trailing_axes() {
    let inputs = [operand(&[3, 1], &[1, 1], 3), operand(&[4], &[1], 4)];
    assert_eq!(expression_shape(&inputs).unwrap(), vec![3, 4]);
    let clash = [operand(&[3, 2], &[2, 1], 6), operand(&[4], &[1], 4)];
    assert!(matches!(
        expression_shape(&clash),
        Err(HephaestusError::DispatchFailed { .. })
    ));
    assert_eq!(expression_shape(&[]).unwrap(), Vec::<usize>::new());
}

#[test]
fn elementwise_fusion_metadata_broadcasts_inputs_to_the_output() {
    let inputs = [operand(&[3], &[1], 3)];
    let output = operand(&[2, 3], &[3, 1], 6);
    let infos = metadata_for_elementwise(&inputs, &output).unwrap();
    assert_eq!(infos.len(), 2);
    assert_eq!(infos[0].shape, [2, 3, 1, 1, 1, 1, 1, 1]);
    assert_eq!(infos[0].strides, [0, 1, 0, 0, 0, 0, 0, 0]);
    assert_eq!(infos[1].strides, [3, 1, 0, 0, 0, 0, 0, 0]);
    let mismatched = [operand(&[4], &[1], 4)];
    assert!(metadata_for_elementwise(&mismatched, &output).is_err());
}

#[test]
fn reduction_fusion_metadata_carries_the_reduced_axis() {
    let inputs = [operand(&[2, 3], &[3, 1], 6)];
    let output = operand(&[2, 1], &[1, 1], 2);
    let (infos, extent) = reduction_metadata(&inputs, &output, 1).unwrap();
    assert_eq!(extent, 3);
    assert_eq!(infos.len(), 2);
    assert_eq!((infos[1].axis, infos[1].extent), (1, 3));
    assert!(matches!(
        reduction_metadata(&inputs, &output, 2),
        Err(HephaestusError::InvalidConfiguration { .. })
    ));
    let wrong = operand(&[2, 3], &[3, 1], 6);
    assert!(matches!(
        reduction_metadata(&inputs, &wrong, 1),
        Err(HephaestusError::DispatchFailed { .. })
    ));
}

#[test]
fn fused_reductions_without_identity_reject_empty_axes() {
    assert!(check_reduction_extent(FusedReduction::Sum, 0).is_ok());
    assert!(check_reduction_extent(FusedReduction::Product, 0).is_ok());
    for strict in [FusedReduction::Mean, FusedReduction::Maximum, FusedReduction::Minimum] {
        assert!(matches!(
            check_reduction_extent(strict, 0),
            Err(HephaestusError::InvalidConfiguration { .. })
        ));
        assert!(check_reduction_extent(strict, 1).is_ok());
    }
}

#[test]
fn fused_launch_binds_inputs_then_output_then_layouts() {
    assert_eq!(plan_fusion_launch(0, 2, 3).unwrap(), None);
    assert_eq!(
        plan_fusion_launch(1000, 2, 3).unwrap(),
        Some(FusionLaunch { rank: 2, input_count: 3, output_binding: 3, layout_binding: 4, groups: 4 })
    );
    assert_eq!(reduction_key(FusedReduction::Sum, "x0 * x1"), "Sum:x0 * x1");
    assert_ne!(
        reduction_key(FusedReduction::Maximum, "x0"),
        reduction_key(FusedReduction::Minimum, "x0")
    );
}

#[test]
fn elementwise_metadata_pads_shapes_and_strides_to_four_axes() {
    let a = ew(&[2, 3], &[3, 1], 6);
    let b = ew(&[3], &[1], 3);
    let out = ew(&[2, 3], &[3, 1], 6);
    let plan = prepare_elementwise(&a, Some(&b), &out, false, BlockWidth::standard())
        .unwrap()
        .unwrap();
    assert_eq!(plan.meta.shape, [1, 1, 2, 3]);
    assert_eq!(plan.meta.a_strides, [0, 0, 3, 1]);
    assert_eq!(plan.meta.b_strides, [0, 0, 0, 1]);
    assert_eq!(plan.meta.out_strides, [0, 0, 3, 1]);
    assert_eq!(plan.meta.offsets, [0, 0, 0, 6]);
    assert_eq!(plan.groups, 1);
    let unary = prepare_elementwise(&a, None, &out, false, BlockWidth::standard())
        .unwrap()
        .unwrap();
    assert_eq!(unary.meta.b_strides, [0, 0, 0, 0]);
}

#[test]
fn elementwise_dispatch_rejects_aliasing_and_unsupported_ranks() {
    let a = ew(&[2, 3], &[3, 1], 6);
    let out = ew(&[2, 3], &[3, 1], 6);
    match prepare_elementwise(&a, None, &out, true, BlockWidth::standard()) {
        Err(HephaestusError::DispatchFailed { message }) => {
            assert_eq!(message, "output buffer must not alias input buffer")
        }
        other => panic!("unexpected {other:?}"),
    }
    match prepare_elementwise(&a, Some(&a), &out, true, BlockWidth::standard()) {
        Err(HephaestusError::DispatchFailed { message }) => {
            assert_eq!(message, "output buffer must not alias any input buffer")
        }
        other => panic!("unexpected {other:?}"),
    }
    let rank5 = ew(&[1, 1, 1, 1, 1], &[1, 1, 1, 1, 1], 1);
    match prepare_elementwise(&rank5, None, &rank5, false, BlockWidth::standard()) {
        Err(HephaestusError::DispatchFailed { message }) => {
            assert_eq!(message, "elementwise dispatch supports rank <= 4, got rank 5")
        }
        other => panic!("unexpected {other:?}"),
    }
    let mismatched = ew(&[4], &[1], 4);
    assert!(matches!(
        prepare_elementwise(&mismatched, None, &out, true, BlockWidth::standard()),
        Err(HephaestusError::InvalidConfiguration { .. })
    ));
    let short_out = ew(&[2, 3], &[3, 1], 5);
    assert!(matches!(
        prepare_elementwise(&a, None, &short_out, false, BlockWidth::standard()),
        Err(HephaestusError::InvalidConfiguration { .. })
    ));
    let row = ew(&[1, 3], &[3, 1], 3);
    let empty = ew(&[0, 3], &[3, 1], 0);
    assert!(prepare_elementwise(&row, None, &empty, false, BlockWidth::standard())
        .unwrap()
        .is_none());
    let short = ew(&[2, 3], &[3, 1], 5);
    assert!(matches!(
        prepare_elementwise(&short, None, &out, false, BlockWidth::standard()),
        Err(HephaestusError::InvalidConfiguration { .. })
    ));
}

#[test]
fn map_reduction_adds_a_tree_only_for_several_partials() {
    let a = ew(&[2, 3], &[3, 1], 6);
    let b = ew(&[3], &[1], 3);
    let plan = plan_map_reduction(&a, &b).unwrap().unwrap();
    assert_eq!(plan.meta.shape, [1, 1, 2, 3]);
    assert_eq!(plan.meta.b_strides, [0, 0, 0, 1]);
    assert_eq!(plan.meta.out_strides, [1, 1, 1, 1]);
    assert_eq!(plan.meta.offsets, [0, 0, 0, 6]);
    assert_eq!(plan.groups, 1);
    assert!(plan.tree.is_none());
    let long = ew(&[1000], &[1], 1000);
    let plan = plan_map_reduction(&long, &long).unwrap().unwrap();
    assert_eq!(plan.groups, 4);
    assert!(matches!(plan.tree, Some(ReductionWork::Tree(ref passes)) if passes.len() == 1));
    let empty = ew(&[0], &[1], 0);
    assert!(plan_map_reduction(&empty, &b).unwrap().is_none());
}

#[test]
fn contiguous_dispatch_checks_lengths_then_aliasing() {
    let width = BlockWidth::standard();
    assert!(matches!(
        contiguous_preflight(4, false, "left", Some((5, false)), 4, width),
        Err(HephaestusError::LengthMismatch { host_len: 4, device_len: 5 })
    ));
    assert!(matches!(
        contiguous_preflight(4, false, "unary", None, 3, width),
        Err(HephaestusError::LengthMismatch { host_len: 3, device_len: 4 })
    ));
    match contiguous_preflight(4, true, "scalar", None, 4, width) {
        Err(HephaestusError::DispatchFailed { message }) => {
            assert_eq!(message, "output buffer must not alias scalar input");
        }
        other => panic!("unexpected {other:?}"),
    }
    match contiguous_preflight(4, false, "left", Some((4, true)), 4, width) {
        Err(HephaestusError::DispatchFailed { message }) => {
            assert_eq!(message, "output buffer must not alias right input");
        }
        other => panic!("unexpected {other:?}"),
    }
    assert_eq!(contiguous_preflight(0, false, "unary", None, 0, width).unwrap(), None);
    assert_eq!(contiguous_preflight(600, false, "left", Some((600, false)), 600, width).unwrap(), Some(3));
}
