use hephaestus_wgpu::layout::StridedLayout;
use hephaestus_wgpu::sparse::{
    check_sparse_batch_devices, csr_parts_from_image, csr_upload_image, pack_csr_indices,
    spmm_preflight, spmv_preflight, unpack_csr_indices, validate_csr, SparseLaunch,
};
use hephaestus_wgpu::{GpuCsrMatrix, HephaestusError};

#[test]
fn csr_validation_accepts_a_well_formed_matrix() {
    // [[1, 0, 2], [0, 0, 0], [0, 3, 0]]
    assert!(validate_csr(3, &[0, 2, 1], &[0, 2, 2, 3], 3, 3).is_ok());
}

#[test]
fn csr_validation_rejects_each_broken_invariant() {
    let cases: [(&[usize], &[usize]); 5] = [
        (&[0, 2, 1], &[0, 2, 3]),
        (&[0, 2, 1], &[1, 2, 2, 3]),
        (&[0, 2, 1], &[0, 2, 2, 4]),
        (&[0, 2, 1], &[0, 2, 1, 3]),
        (&[0, 3, 1], &[0, 2, 2, 3]),
    ];
    for (cols, rows) in cases {
        let err = validate_csr(3, cols, rows, 3, 3).unwrap_err();
        assert!(matches!(err, HephaestusError::InvalidConfiguration { .. }));
    }
    assert!(validate_csr(3, &[0, 2], &[0, 2, 2, 3], 3, 3).is_err());
}

#[test]
fn packed_csr_indices_unpack_to_the_parts_that_were_packed() {
    let cols = [0usize, 2, 1];
    let rows = [0usize, 2, 2, 3];
    let packed = pack_csr_indices(&cols, &rows).unwrap();
    assert_eq!(packed, vec![0, 2, 1, 0, 2, 2, 3]);
    let (c, r) = unpack_csr_indices(&packed, cols.len());
    assert_eq!(c, cols.to_vec());
    assert_eq!(r, rows.to_vec());
}

#[test]
fn packing_rejects_indices_beyond_u32() {
    let err = pack_csr_indices(&[1usize << 33], &[0, 1]).unwrap_err();
    assert!(matches!(err, HephaestusError::DispatchFailed { .. }));
}

#[test]
fn gpu_csr_matrix_reports_its_parts() {
    let m = GpuCsrMatrix::from_buffers(vec![1u8, 2, 3], vec![0u32, 2, 1, 0, 2, 2, 3], 3, 3, 4);
    assert_eq!(m.shape(), (3, 4));
    assert_eq!(m.nnz(), 3);
    assert_eq!(m.row_ptr_offset(), 3);
    assert_eq!(m.values(), &vec![1u8, 2, 3]);
    assert_eq!(m.indices().len(), 7);
}

#[test]
fn spmv_checks_lengths_then_plans_the_grid() {
    assert!(matches!(
        spmv_preflight(3, 4, 3, 5, 3),
        Err(HephaestusError::LengthMismatch { host_len: 4, device_len: 5 })
    ));
    assert!(matches!(
        spmv_preflight(3, 4, 3, 4, 2),
        Err(HephaestusError::LengthMismatch { host_len: 3, device_len: 2 })
    ));
    assert_eq!(spmv_preflight(0, 4, 0, 4, 0).unwrap(), None);
    assert_eq!(
        spmv_preflight(300, 4, 17, 4, 300).unwrap(),
        Some(SparseLaunch { groups: 2, row_ptr_offset: 17 })
    );
}

#[test]
fn spmm_checks_the_dense_operand_and_packs_its_uniforms() {
    let b = StridedLayout::new(vec![4, 2], vec![2, 1], 1);
    assert!(matches!(
        spmm_preflight(3, 5, 3, &b, 9, 6),
        Err(HephaestusError::LengthMismatch { host_len: 5, device_len: 4 })
    ));
    assert!(matches!(
        spmm_preflight(3, 4, 3, &b, 9, 5),
        Err(HephaestusError::LengthMismatch { host_len: 6, device_len: 5 })
    ));
    assert!(matches!(
        spmm_preflight(3, 4, 3, &b, 8, 6),
        Err(HephaestusError::InvalidConfiguration { .. })
    ));
    let launch = spmm_preflight(3, 4, 3, &b, 9, 6).unwrap().unwrap();
    assert_eq!(launch.matrix_shape, [3, 4]);
    assert_eq!(launch.b_shape, [4, 2]);
    assert_eq!(launch.b_strides, [2, 1]);
    assert_eq!(launch.offsets, [1, 3]);
    assert_eq!(launch.groups, 1);
    let empty_rhs = StridedLayout::new(vec![4, 0], vec![0, 1], 0);
    assert!(spmm_preflight(3, 4, 3, &empty_rhs, 0, 0).unwrap().is_none());
}

#[test]
fn sparse_batches_share_one_device() {
    assert_eq!(check_sparse_batch_devices(&[]).unwrap(), false);
    assert_eq!(check_sparse_batch_devices(&[7, 7, 7]).unwrap(), true);
    assert!(matches!(
        check_sparse_batch_devices(&[7, 8]),
        Err(HephaestusError::DispatchFailed { .. })
    ));
}

#[test]
fn csr_upload_then_download_gives_back_the_parts() {
    let cols = vec![0usize, 2, 1, 2];
    let row_ptr = vec![0usize, 2, 2, 4];
    let image = csr_upload_image(4, &cols, &row_ptr, 3, 3).unwrap();
    assert_eq!(image, vec![0u32, 2, 1, 2, 0, 2, 2, 4]);
    let (c, r) = csr_parts_from_image(&image, cols.len(), 4, 3, 3).unwrap();
    assert_eq!(c, cols);
    assert_eq!(r, row_ptr);
}

#[test]
fn csr_upload_refuses_invalid_or_wide_parts() {
    assert!(matches!(
        csr_upload_image(2, &[0, 5], &[0, 1, 2], 2, 3),
        Err(HephaestusError::InvalidConfiguration { .. })
    ));
    assert!(matches!(
        csr_upload_image(1, &[1usize << 33], &[0, 1], 1, usize::MAX),
        Err(HephaestusError::DispatchFailed { .. })
    ));
}

#[test]
fn csr_download_refuses_an_inconsistent_image() {
    match csr_parts_from_image(&[0u32, 7, 0, 1, 2], 2, 2, 2, 3) {
        Err(HephaestusError::AllocationFailed { message }) => assert_eq!(
            message,
            "Failed to reconstruct CPU CsrMatrix: CSR column index 7 is out of bounds"
        ),
        other => panic!("unexpected {other:?}"),
    }
}
