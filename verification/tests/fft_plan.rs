use hephaestus_wgpu::fft::plan::{chirp_phase, radix_parameters, try_host_vector, validate_storage_limit, RadixStages};
use hephaestus_wgpu::fft::strategy::{
    axis_strategy_for, axis_workspace_elements, next_power_of_two, select_fused_strategy, Axis,
    AxisStrategy, DeviceLimits, FUSED_WORKGROUP_STORAGE_BYTES,
};
use hephaestus_wgpu::HephaestusError;

#[test]
fn strategy_selects_radix_and_bluestein_without_rank_clones() {
    assert_eq!(
        axis_strategy_for(64).expect("valid radix strategy"),
        AxisStrategy::StagedRadix2
    );
    assert_eq!(
        axis_strategy_for(12).expect("valid Bluestein strategy"),
        AxisStrategy::ChirpZ { n: 12, m: 32 }
    );
}

#[test]
fn workspace_accounts_for_axis_batch_geometry() {
    let dimensions = [2, 3, 4];
    assert_eq!(
        axis_workspace_elements(dimensions, Axis::Y, AxisStrategy::ChirpZ { n: 3, m: 8 })
            .expect("valid workspace geometry"),
        Some(64)
    );
}

#[test]
fn fused_radix_eliminates_workspace_when_device_limits_allow_it() {
    let limits = DeviceLimits {
        max_buffer_size: u64::MAX,
        max_compute_workgroup_size_x: 256,
        max_compute_workgroup_size_y: 256,
        max_compute_workgroup_size_z: 64,
        max_compute_invocations_per_workgroup: 256,
        max_compute_workgroup_storage_size: FUSED_WORKGROUP_STORAGE_BYTES,
        max_storage_buffers_per_shader_stage: Some(8),
        max_buffers_and_acceleration_structures_per_shader_stage: Some(8),
        max_immediate_size: 0,
    };
    let strategy = select_fused_strategy(AxisStrategy::StagedRadix2, 256, 16_384, limits, 65_535);
    assert_eq!(strategy, AxisStrategy::FusedRadix2);
    assert_eq!(
        validate_storage_limit::<f32>(
            u64::MAX,
            65_535,
            256 * 128 * 128,
            [256, 128, 128],
            [AxisStrategy::FusedRadix2; 3],
        )
        .expect("fused geometry is valid"),
        None
    );
}

#[test]
fn storage_validation_covers_bluestein_workspace_and_dispatch_limits() {
    let dimensions = [3, 1, 1];
    let strategies = [
        AxisStrategy::ChirpZ { n: 3, m: 8 },
        AxisStrategy::StagedRadix2,
        AxisStrategy::StagedRadix2,
    ];
    assert!(validate_storage_limit::<f32>(31, u32::MAX, 3, dimensions, strategies).is_err());
    assert!(validate_storage_limit::<f32>(u64::MAX, 0, 3, dimensions, strategies).is_err());
    assert_eq!(
        validate_storage_limit::<f32>(u64::MAX, 1, 3, dimensions, strategies)
            .expect("one workgroup covers the prepared workspace"),
        Some(8)
    );
    assert!(
        validate_storage_limit::<f32>(
            u64::MAX,
            65_535,
            1 << 24,
            [1 << 24, 1, 1],
            [AxisStrategy::StagedRadix2; 3],
        )
        .is_err()
    );
}

#[test]
fn host_preparation_allocation_failure_is_typed() {
    match try_host_vector::<u8>(usize::MAX, "test staging") {
        Err(HephaestusError::AllocationFailed { message }) => {
            assert!(message.contains("FFT test staging host allocation"));
            assert!(message.contains(&usize::MAX.to_string()));
        }
        other => panic!("expected typed allocation failure, got {other:?}"),
    }
}

#[test]
fn host_staging_vector_starts_empty_with_room() {
    let values = try_host_vector::<u32>(16, "roots").expect("small staging allocation");
    assert!(values.is_empty());
    assert!(values.capacity() >= 16);
}

#[test]
fn next_power_of_two_rounds_up_and_rejects_overflow() {
    assert_eq!(next_power_of_two(0).unwrap(), 1);
    assert_eq!(next_power_of_two(1).unwrap(), 1);
    assert_eq!(next_power_of_two(5).unwrap(), 8);
    assert_eq!(next_power_of_two(64).unwrap(), 64);
    assert_eq!(next_power_of_two(65).unwrap(), 128);
    assert!(matches!(
        next_power_of_two(usize::MAX),
        Err(HephaestusError::InvalidConfiguration { .. })
    ));
}

#[test]
fn bluestein_rejects_a_convolution_length_that_overflows() {
    assert!(matches!(
        axis_strategy_for(usize::MAX / 2 + 3),
        Err(HephaestusError::InvalidConfiguration { .. })
    ));
    assert_eq!(axis_strategy_for(1).unwrap(), AxisStrategy::StagedRadix2);
    assert_eq!(axis_strategy_for(3).unwrap(), AxisStrategy::ChirpZ { n: 3, m: 8 });
}

#[test]
fn radix_parameters_halve_the_root_and_offset_the_scales() {
    assert_eq!(radix_parameters(64, 16).unwrap(), (32, 68));
    assert_eq!(radix_parameters(8, 8).unwrap(), (4, 11));
    assert!(radix_parameters(8, 16).is_err());
    assert!(radix_parameters(12, 4).is_err());
}

#[test]
fn radix_stage_counts_follow_the_transform_length() {
    let two = RadixStages::radix_two(8, 3, true, 4, 11);
    assert_eq!(two.butterflies.len(), 3);
    assert_eq!(two.butterflies[2].stage, 2);
    assert_eq!(two.inverse_scale.unwrap().inverse, 1);
    let four = RadixStages::radix_four(16, 2, false, 8, 20);
    assert_eq!(four.butterflies.len(), 2);
    assert!(four.inverse_scale.is_none());
    assert!(four.radix_four);
    let empty = RadixStages::empty();
    assert_eq!(empty.fft_len, 0);
    assert!(empty.butterflies.is_empty());
}

#[test]
fn fused_strategy_needs_enough_workgroup_storage() {
    let limits = DeviceLimits {
        max_buffer_size: u64::MAX,
        max_compute_workgroup_size_x: 256,
        max_compute_workgroup_size_y: 256,
        max_compute_workgroup_size_z: 64,
        max_compute_invocations_per_workgroup: 256,
        max_compute_workgroup_storage_size: FUSED_WORKGROUP_STORAGE_BYTES - 1,
        max_storage_buffers_per_shader_stage: Some(8),
        max_buffers_and_acceleration_structures_per_shader_stage: Some(8),
        max_immediate_size: 0,
    };
    assert_eq!(
        select_fused_strategy(AxisStrategy::StagedRadix2, 256, 16, limits, 65_535),
        AxisStrategy::StagedRadix2
    );
    assert_eq!(
        select_fused_strategy(AxisStrategy::ChirpZ { n: 3, m: 8 }, 3, 1, limits, 65_535),
        AxisStrategy::ChirpZ { n: 3, m: 8 }
    );
}

#[test]
fn chirp_phase_is_reduced_modulo_two_pi() {
    // 980700^2 mod 2000006 = 1604696 = 1 * 1000003 + 604693.
    assert_eq!(chirp_phase(980_700, 1_000_003), (1, 604_693));
    assert_eq!(chirp_phase(5, 3), (0, 1));
    assert_eq!(chirp_phase(0, 7), (0, 0));
    assert_eq!(chirp_phase(u32::MAX, 1), (1, 0));
}
