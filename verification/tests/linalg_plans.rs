use hephaestus_wgpu::layout::StridedLayout;
use hephaestus_wgpu::linalg::{
    batched_matmul_output_shape, batched_matmul_plan, dot_length, kron_output_shape,
    kron_preflight, map_layout, matmul_output_shape, matmul_preflight, matpow_preflight,
    norm_plan, MatmulPlan, rank_preflight, to_i32, to_u32, trace_diagonal,
};
use hephaestus_wgpu::HephaestusError;

fn l(shape: &[usize], strides: &[isize], offset: usize) -> StridedLayout {
    StridedLayout::new(shape.to_vec(), strides.to_vec(), offset)
}

#[test]
fn narrowing_rejects_out_of_range_values() {
    assert_eq!(to_u32(7, "rows").unwrap(), 7);
    assert!(matches!(
        to_u32(1usize << 32, "rows"),
        Err(HephaestusError::DispatchFailed { .. })
    ));
    assert_eq!(to_i32(-3, "stride").unwrap(), -3);
    match to_i32(-(1isize << 40), "stride") {
        Err(HephaestusError::DispatchFailed { message }) => {
            assert_eq!(message, "stride -1099511627776 exceeds i32 range");
        }
        other => panic!("unexpected {other:?}"),
    }
}

#[test]
fn matrix_uniforms_pack_rank_two_layouts() {
    let packed = map_layout(&l(&[2, 3], &[3, 1], 5)).unwrap();
    assert_eq!(packed.shape, [2, 3]);
    assert_eq!(packed.strides, [3, 1]);
    assert_eq!(packed.offset, 5);
    assert!(map_layout(&l(&[2, 3], &[1isize << 40, 1], 0)).is_err());
}

#[test]
fn product_shapes_follow_their_definitions() {
    assert_eq!(matmul_output_shape([2, 3], [3, 4]).unwrap(), [2, 4]);
    match matmul_output_shape([2, 3], [2, 4]) {
        Err(HephaestusError::DispatchFailed { message }) => {
            assert_eq!(message, "matmul dimension mismatch: lhs [2, 3], rhs [2, 4]");
        }
        other => panic!("unexpected {other:?}"),
    }
    assert_eq!(kron_output_shape([2, 3], [4, 5]).unwrap(), [8, 15]);
    assert!(kron_output_shape([usize::MAX, 1], [2, 1]).is_err());
    assert_eq!(batched_matmul_output_shape([1, 2, 3], [5, 3, 4]).unwrap(), [5, 2, 4]);
    assert!(batched_matmul_output_shape([2, 2, 3], [5, 3, 4]).is_err());
    assert!(batched_matmul_output_shape([5, 2, 3], [5, 2, 4]).is_err());
}

#[test]
fn matmul_launch_tiles_the_output_by_sixteen() {
    let lhs = l(&[20, 3], &[3, 1], 0);
    let rhs = l(&[3, 40], &[40, 1], 0);
    let out = l(&[20, 40], &[40, 1], 0);
    let launch = match matmul_preflight(&lhs, 60, &rhs, 120, &out, 800, false).unwrap() {
        MatmulPlan::Product(launch) => launch,
        other => panic!("unexpected {other:?}"),
    };
    assert_eq!((launch.groups_x, launch.groups_y), (3, 2));
    assert_eq!(launch.lhs.shape, [20, 3]);
    assert_eq!(launch.rhs.strides, [40, 1]);
    assert_eq!(launch.out.shape, [20, 40]);
}

#[test]
fn matmul_preflight_rejects_invalid_operands() {
    let lhs = l(&[2, 3], &[3, 1], 0);
    let rhs = l(&[3, 4], &[4, 1], 0);
    let out = l(&[2, 4], &[4, 1], 0);
    assert!(matches!(
        matmul_preflight(&lhs, 6, &rhs, 12, &out, 8, true),
        Err(HephaestusError::DispatchFailed { .. })
    ));
    assert!(matches!(
        matmul_preflight(&lhs, 5, &rhs, 12, &out, 8, false),
        Err(HephaestusError::InvalidConfiguration { .. })
    ));
    let repeated = l(&[2, 4], &[0, 1], 0);
    assert!(matches!(
        matmul_preflight(&lhs, 6, &rhs, 12, &repeated, 8, false),
        Err(HephaestusError::DispatchFailed { .. })
    ));
    let wrong = l(&[2, 5], &[5, 1], 0);
    assert!(matmul_preflight(&lhs, 6, &rhs, 12, &wrong, 10, false).is_err());
    let empty = l(&[0, 3], &[3, 1], 0);
    let empty_out = l(&[0, 4], &[4, 1], 0);
    assert!(matches!(
        matmul_preflight(&empty, 0, &rhs, 12, &empty_out, 0, false).unwrap(),
        MatmulPlan::Empty
    ));
}

#[test]
fn matmul_over_an_empty_inner_dimension_fills_the_output_with_zero() {
    let lhs = l(&[20, 0], &[7, 1], 0);
    let rhs = l(&[0, 40], &[1, 1], 0);
    let out = l(&[20, 40], &[1, 20], 3);
    let launch = match matmul_preflight(&lhs, 0, &rhs, 0, &out, 803, false).unwrap() {
        MatmulPlan::ZeroFill(launch) => launch,
        other => panic!("unexpected {other:?}"),
    };
    assert_eq!((launch.groups_x, launch.groups_y), (3, 2));
    assert_eq!(launch.lhs.shape, [20, 0]);
    assert_eq!(launch.rhs.shape, [0, 40]);
    assert_eq!(launch.out.shape, [20, 40]);
    assert_eq!(launch.out.strides, [1, 20]);
    assert_eq!(launch.out.offset, 3);
    let wide = l(&[20, 40], &[1isize << 40, 1], 0);
    assert!(matches!(
        matmul_preflight(&lhs, 0, &rhs, 0, &wide, usize::MAX, false),
        Err(HephaestusError::DispatchFailed { .. })
    ));
    let no_rows = l(&[0, 0], &[1, 1], 0);
    let no_rows_out = l(&[0, 40], &[40, 1], 0);
    assert!(matches!(
        matmul_preflight(&no_rows, 0, &rhs, 0, &no_rows_out, 0, false).unwrap(),
        MatmulPlan::Empty
    ));
}

#[test]
fn kronecker_launch_covers_the_product_shape() {
    let lhs = l(&[2, 2], &[2, 1], 0);
    let rhs = l(&[3, 9], &[9, 1], 0);
    let out = l(&[6, 18], &[18, 1], 0);
    let launch = kron_preflight(&lhs, 4, &rhs, 27, &out, 108, false).unwrap().unwrap();
    assert_eq!((launch.groups_x, launch.groups_y), (2, 1));
    let wrong = l(&[6, 17], &[17, 1], 0);
    assert!(kron_preflight(&lhs, 4, &rhs, 27, &wrong, 102, false).is_err());
    assert!(matches!(
        kron_preflight(&lhs, 4, &rhs, 26, &out, 108, false),
        Err(HephaestusError::InvalidConfiguration { .. })
    ));
    assert!(matches!(
        kron_preflight(&lhs, 4, &rhs, 27, &out, 108, true),
        Err(HephaestusError::DispatchFailed { .. })
    ));
    let tall = l(&[usize::MAX, 1], &[1, 1], 0);
    let pair = l(&[2, 1], &[1, 1], 0);
    match kron_preflight(&tall, 0, &pair, 2, &out, 108, false) {
        Err(HephaestusError::DispatchFailed { message }) => assert_eq!(
            message,
            format!("Kronecker row count overflows usize: {} * 2", usize::MAX)
        ),
        other => panic!("unexpected {other:?}"),
    }
}

#[test]
fn batched_matmul_splits_into_per_entry_products() {
    let lhs = l(&[2, 2, 3], &[6, 3, 1], 0);
    let rhs = l(&[1, 3, 4], &[12, 4, 1], 0);
    let out = l(&[2, 2, 4], &[8, 4, 1], 0);
    let products = batched_matmul_plan(&lhs, 12, &rhs, 12, &out, 16).unwrap();
    assert_eq!(products.len(), 2);
    assert_eq!(products[1].lhs.shape, vec![2, 3]);
    assert_eq!(products[1].lhs.strides, vec![3, 1]);
    assert_eq!(products[1].lhs.offset, 6);
    assert_eq!(products[1].rhs.offset, 0);
    assert_eq!(products[1].out.offset, 8);
    let wrong_batch = l(&[3, 2, 4], &[8, 4, 1], 0);
    assert!(batched_matmul_plan(&lhs, 12, &rhs, 12, &wrong_batch, 24).is_err());
}

#[test]
fn square_matrix_operations_check_their_input() {
    assert_eq!(matpow_preflight(&l(&[3, 3], &[3, 1], 0), 9).unwrap(), 3);
    assert!(matches!(
        matpow_preflight(&l(&[2, 3], &[3, 1], 0), 6),
        Err(HephaestusError::DispatchFailed { .. })
    ));
    assert!(matches!(
        matpow_preflight(&l(&[3, 3], &[3, 1], 0), 8),
        Err(HephaestusError::InvalidConfiguration { .. })
    ));
    let diagonal = trace_diagonal(&l(&[3, 3], &[3, 1], 2)).unwrap().unwrap();
    assert_eq!(diagonal.shape, vec![3]);
    assert_eq!(diagonal.strides, vec![4]);
    assert_eq!(diagonal.offset, 2);
    assert!(trace_diagonal(&l(&[0, 0], &[0, 1], 0)).unwrap().is_none());
    assert!(trace_diagonal(&l(&[2, 3], &[3, 1], 0)).is_err());
    assert_eq!(dot_length(&l(&[4], &[1], 0), &l(&[4], &[2], 1)).unwrap(), 4);
    assert!(dot_length(&l(&[4], &[1], 0), &l(&[5], &[1], 0)).is_err());
}

#[test]
fn rank_kernel_needs_a_non_empty_addressable_matrix() {
    let m = l(&[2, 3], &[3, 1], 0);
    let launch = rank_preflight(&m, 6, false).unwrap();
    assert_eq!(launch.shape, [2, 3]);
    assert_eq!(launch.strides, [3, 1]);
    assert_eq!(launch.scratch_len, 6);
    assert!(matches!(
        rank_preflight(&m, 6, true),
        Err(HephaestusError::DispatchFailed { .. })
    ));
    assert!(rank_preflight(&l(&[0, 3], &[3, 1], 0), 0, false).is_err());
    assert!(matches!(
        rank_preflight(&m, 5, false),
        Err(HephaestusError::InvalidConfiguration { .. })
    ));
}

#[test]
fn norm_temporary_is_row_major() {
    let (len, temp) = norm_plan(&l(&[2, 3], &[1, 2], 0)).unwrap().unwrap();
    assert_eq!(len, 6);
    assert_eq!(temp.strides, vec![3, 1]);
    assert_eq!(temp.offset, 0);
    assert!(norm_plan(&l(&[0], &[1], 0)).unwrap().is_none());
}
