use hephaestus_wgpu::layout::StridedLayout;

fn layout(shape: &[usize], strides: &[isize], offset: usize) -> StridedLayout {
    StridedLayout::new(shape.to_vec(), strides.to_vec(), offset)
}

#[test]
fn checked_size_is_the_extent_product() {
    let l = layout(&[2, 3, 4], &[12, 4, 1], 0);
    assert_eq!(l.ndim(), 3);
    assert_eq!(l.checked_size().unwrap(), 24);
    let scalar = layout(&[], &[], 5);
    assert_eq!(scalar.checked_size().unwrap(), 1);
}

#[test]
fn checked_size_rejects_overflowing_extents() {
    let l = layout(&[usize::MAX, 2], &[1, 1], 0);
    assert!(l.checked_size().is_err());
}

#[test]
fn min_max_offsets_follow_negative_strides() {
    // Reversed rows: offset 6 walks back by 3 per row.
    let l = layout(&[3, 3], &[-3, 1], 6);
    assert_eq!(l.checked_min_max_offsets().unwrap(), (0, 8));
    let below_zero = layout(&[3], &[-1], 1);
    assert!(below_zero.checked_min_max_offsets().is_err());
}

#[test]
fn storage_validation_checks_the_largest_offset() {
    let l = layout(&[2, 3], &[3, 1], 2);
    assert!(l.validate_storage_len(8).is_ok());
    let err = l.validate_storage_len(7).unwrap_err();
    assert!(!err.message.is_empty());
    let empty = layout(&[0, 3], &[3, 1], 100);
    assert!(empty.validate_storage_len(0).is_ok());
}

#[test]
fn broadcast_prepends_and_expands_with_zero_strides() {
    let row = layout(&[1, 3], &[3, 1], 4);
    let b = row.broadcast(&[2, 2, 3]).unwrap();
    assert_eq!(b.shape, vec![2, 2, 3]);
    assert_eq!(b.strides, vec![0, 0, 1]);
    assert_eq!(b.offset, 4);
    assert!(row.broadcast(&[2, 4]).is_err());
    assert!(row.broadcast(&[3]).is_err());
}

#[test]
fn c_contiguous_strides_are_row_major() {
    let l = StridedLayout::c_contiguous(&[2, 3, 4]).unwrap();
    assert_eq!(l.strides, vec![12, 4, 1]);
    assert_eq!(l.offset, 0);
    assert!(l.is_c_contiguous());
    let shifted = layout(&[2, 3, 4], &[12, 4, 1], 1);
    assert!(!shifted.is_c_contiguous());
    let transposed = layout(&[3, 2], &[1, 3], 0);
    assert!(!transposed.is_c_contiguous());
    assert!(StridedLayout::c_contiguous(&[usize::MAX, 2]).is_err());
}

#[test]
fn injectivity_detects_repeated_addresses() {
    let dense = layout(&[2, 3], &[3, 1], 0);
    assert!(dense.is_injective().unwrap());
    let repeated = layout(&[2, 3], &[0, 1], 0);
    assert!(!repeated.is_injective().unwrap());
    let single = layout(&[1, 1], &[0, 0], 0);
    assert!(single.is_injective().unwrap());
    let overlapping = layout(&[2, 2], &[1, 1], 0);
    assert!(!overlapping.is_injective().unwrap());
    let interleaved = layout(&[2, 3], &[1, 2], 4);
    assert!(interleaved.is_injective().unwrap());
    let reversed = layout(&[3, 2], &[-2, -1], 5);
    assert!(reversed.is_injective().unwrap());
    let skewed = layout(&[3, 3], &[2, 4], 0);
    assert!(!skewed.is_injective().unwrap());
}

#[test]
fn zero_stride_aliasing_needs_a_long_axis() {
    assert!(layout(&[4, 2], &[0, 1], 0).has_zero_stride_aliasing());
    assert!(!layout(&[4, 2], &[0, 1], 0).is_injective().unwrap());
    assert!(!layout(&[1, 2], &[0, 1], 0).has_zero_stride_aliasing());
    assert!(!layout(&[0, 2], &[0, 1], 0).has_zero_stride_aliasing());
    assert!(!layout(&[4, 2], &[2, 1], 0).has_zero_stride_aliasing());
}
