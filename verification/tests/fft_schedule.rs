use hephaestus_wgpu::fft::geometry::plan_fft_geometry;
use hephaestus_wgpu::fft::schedule::{prepare_commands, product_grid, FftPass};
use hephaestus_wgpu::fft::strategy::{Axis, AxisStrategy, DeviceLimits, FUSED_WORKGROUP_STORAGE_BYTES};
use hephaestus_wgpu::pipeline::DispatchGrid;

fn limits(workgroup_storage: u32) -> DeviceLimits {
    DeviceLimits {
        max_buffer_size: u64::MAX,
        max_compute_workgroup_size_x: 256,
        max_compute_workgroup_size_y: 256,
        max_compute_workgroup_size_z: 64,
        max_compute_invocations_per_workgroup: 256,
        max_compute_workgroup_storage_size: workgroup_storage,
        max_storage_buffers_per_shader_stage: Some(8),
        max_buffers_and_acceleration_structures_per_shader_stage: Some(8),
        max_immediate_size: 0,
    }
}

#[test]
fn planned_geometry_schedules_radix_and_bluestein_axes() {
    let geometry = plan_fft_geometry::<f32>(&[8, 12], 96, false, limits(0), 65_535).unwrap();
    assert_eq!(geometry.dimensions, [8, 12, 1]);
    assert_eq!(geometry.strategy[0], AxisStrategy::StagedRadix2);
    assert_eq!(geometry.strategy[1], AxisStrategy::ChirpZ { n: 12, m: 32 });
    assert!(geometry.chirp[1].is_some());

    let forward = prepare_commands(&geometry, false, 65_535).unwrap();
    assert_eq!(forward.first().unwrap().pass, FftPass::Pack);
    assert_eq!(forward.first().unwrap().axis, Axis::Y);
    assert_eq!(forward.last().unwrap().pass, FftPass::Unpack);
    assert_eq!(forward.last().unwrap().axis, Axis::X);
    assert!(forward.iter().any(|c| c.pass == FftPass::ChirpPremultiply));
    assert!(forward.iter().all(|c| c.axis != Axis::Z));

    let inverse = prepare_commands(&geometry, true, 65_535).unwrap();
    assert_eq!(inverse.first().unwrap().axis, Axis::X);
    assert_eq!(inverse.last().unwrap().axis, Axis::Y);
    assert!(inverse.iter().any(|c| c.pass == FftPass::Scale));
}

#[test]
fn fused_axis_is_one_pass() {
    let geometry = plan_fft_geometry::<f32>(
        &[256],
        256,
        false,
        limits(FUSED_WORKGROUP_STORAGE_BYTES),
        65_535,
    )
    .unwrap();
    assert_eq!(geometry.strategy[0], AxisStrategy::FusedRadix2);
    assert_eq!(geometry.workspace_elements, None);
    let commands = prepare_commands(&geometry, false, 65_535).unwrap();
    assert_eq!(commands.len(), 1);
    assert_eq!(commands[0].pass, FftPass::Fused);
    assert_eq!(commands[0].axis, Axis::X);
}

#[test]
fn geometry_needs_full_width_workgroups() {
    let mut narrow = limits(0);
    narrow.max_compute_workgroup_size_x = 128;
    assert!(plan_fft_geometry::<f32>(&[8, 12], 96, false, narrow, 65_535).is_err());
}

#[test]
fn product_grid_covers_the_product_in_one_row() {
    assert_eq!(product_grid(3, 5).unwrap(), DispatchGrid { x: 1, y: 1, z: 1 });
    assert_eq!(
        product_grid(1000, 300).unwrap(),
        DispatchGrid { x: 1172, y: 1, z: 1 }
    );
}
