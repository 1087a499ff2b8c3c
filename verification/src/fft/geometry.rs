//! The device-independent geometry of a dense complex FFT plan: padded
//! extents, per-axis line counts and strategies, workspace and twiddle sizes,
//! pack parameters, Bluestein parameters and radix pass schedules.

use crate::error::HephaestusError;
use crate::fft::plan::{
    is_empty_stages, is_radix_stages, radix_parameters, radix_parameters_ok, radix_stages,
    storage_admissible, validate_storage_limit, workspace_spec, RadixStages,
};
use crate::fft::strategy::{
    axis_len_spec, axis_strategy_for, batch_spec, dimension, fused_admissible, radix_root_length,
    radix_root_spec, select_fused_strategy, strategy_plannable, strategy_spec, tz32, Axis,
    AxisStrategy, DeviceLimits, WORKGROUP_SIZE,
};
use crate::text::decimal;
use vstd::prelude::*;

verus! {

/// Uniform parameters of the pack and unpack passes of one axis.
#[derive(Debug, Clone, Copy, PartialEq, Eq, Structural)]
pub struct PackParams {
    pub n: u32,
    pub stage: u32,
    pub inverse: u32,
    pub batch_count: u32,
    pub nx: u32,
    pub ny: u32,
    pub nz: u32,
    pub axis: u32,
    pub fft_len: u32,
}

/// Uniform parameters of the Bluestein passes of one axis.
#[derive(Debug, Clone, Copy, PartialEq, Eq, Structural)]
pub struct ChirpParams {
    pub n: u32,
    pub m: u32,
    pub batch_count: u32,
}

/// The Bluestein schedule of one axis: its parameters and the forward and
/// inverse radix-two convolution passes over the padded length.
#[derive(Debug)]
pub struct ChirpPlan {
    pub params: ChirpParams,
    pub forward_radix: RadixStages,
    pub inverse_radix: RadixStages,
}

/// The device-independent geometry of a prepared FFT.
#[derive(Debug)]
pub struct FftGeometry {
    /// Rank of the transformed tensor.
    pub rank: usize,
    /// Extents padded with ones to three axes.
    pub dimensions: [usize; 3],
    /// Line count of each axis.
    pub batch: [u32; 3],
    /// Strategy of each axis.
    pub strategy: [AxisStrategy; 3],
    /// Length of the shared radix twiddle table.
    pub radix_root_length: usize,
    /// Length of the shared staging workspace, if any axis needs one.
    pub workspace_elements: Option<usize>,
    /// Pack and unpack parameters of each axis.
    pub pack: [PackParams; 3],
    /// Bluestein schedule of each chirp-z axis.
    pub chirp: [Option<ChirpPlan>; 3],
    /// Radix schedule of each staged axis.
    pub stages: [RadixStages; 3],
}

/// Extents padded with ones to three axes.
pub open spec fn pad3(shape: Seq<usize>) -> [usize; 3] {
    [
        if shape.len() > 0 {
            shape[0]
        } else {
            1
        },
        if shape.len() > 1 {
            shape[1]
        } else {
            1
        },
        if shape.len() > 2 {
            shape[2]
        } else {
            1
        },
    ]
}

/// The axis with shader index `i`.
pub open spec fn axis_of(i: int) -> Axis {
    if i == 0 {
        Axis::X
    } else if i == 1 {
        Axis::Y
    } else {
        Axis::Z
    }
}

/// The strategy chosen for axis `i`.
pub open spec fn selected_strategy(
    dims: [usize; 3],
    i: int,
    limits: DeviceLimits,
    max_workgroups_per_dimension: int,
) -> AxisStrategy {
    let base = strategy_spec(dims[i] as int);
    if base == AxisStrategy::StagedRadix2 && fused_admissible(
        dims[i] as int,
        batch_spec(axis_of(i), dims),
        limits,
        max_workgroups_per_dimension,
    ) {
        AxisStrategy::FusedRadix2
    } else {
        base
    }
}

/// The strategies of all three axes.
pub open spec fn strategies_spec(
    dims: [usize; 3],
    limits: DeviceLimits,
    max_workgroups_per_dimension: int,
) -> [AxisStrategy; 3] {
    [
        selected_strategy(dims, 0, limits, max_workgroups_per_dimension),
        selected_strategy(dims, 1, limits, max_workgroups_per_dimension),
        selected_strategy(dims, 2, limits, max_workgroups_per_dimension),
    ]
}

/// The length an axis is packed to: its extent, or the padded Bluestein
/// length.
pub open spec fn pack_fft_len(len: int, strategy: AxisStrategy) -> int {
    match strategy {
        AxisStrategy::ChirpZ { m, .. } => m as int,
        _ => len,
    }
}

/// The pack parameters of axis `i`.
pub open spec fn pack_spec(dims: [usize; 3], i: int, strategy: AxisStrategy) -> PackParams {
    PackParams {
        n: dims[i] as u32,
        stage: 0,
        inverse: 0,
        batch_count: batch_spec(axis_of(i), dims) as u32,
        nx: dims[0] as u32,
        ny: dims[1] as u32,
        nz: dims[2] as u32,
        axis: i as u32,
        fft_len: pack_fft_len(dims[i] as int, strategy) as u32,
    }
}

/// The Bluestein schedule of an axis with `strategy` is plannable.
pub open spec fn chirp_ok(strategy: AxisStrategy, root: int) -> bool {
    match strategy {
        AxisStrategy::ChirpZ { n, m } => n <= u32::MAX && m <= u32::MAX && radix_parameters_ok(
            root,
            m as u32,
        ),
        _ => true,
    }
}

/// `chirp` is the Bluestein schedule of an axis with `strategy`: present
/// exactly for chirp-z axes, with radix-two convolution passes over `m`.
pub open spec fn is_chirp_plan(
    chirp: Option<ChirpPlan>,
    strategy: AxisStrategy,
    batch: u32,
    root: int,
) -> bool {
    match strategy {
        AxisStrategy::ChirpZ { n, m } => chirp is Some && {
            let c = chirp->0;
            &&& c.params == ChirpParams { n: n as u32, m: m as u32, batch_count: batch }
            &&& is_radix_stages(
                c.forward_radix,
                m as u32,
                batch,
                false,
                (root / 2) as u32,
                (root + tz32(m as u32)) as u32,
                false,
            )
            &&& is_radix_stages(
                c.inverse_radix,
                m as u32,
                batch,
                true,
                (root / 2) as u32,
                (root + tz32(m as u32)) as u32,
                false,
            )
        },
        _ => chirp is None,
    }
}

/// The radix schedule of a staged axis is plannable.
pub open spec fn stages_ok(len: int, strategy: AxisStrategy, root: int) -> bool {
    strategy == AxisStrategy::StagedRadix2 ==> len <= u32::MAX && radix_parameters_ok(
        root,
        len as u32,
    )
}

/// `stages` is the radix schedule of an axis of `len` points.
pub open spec fn is_axis_stages(
    stages: RadixStages,
    len: int,
    strategy: AxisStrategy,
    batch: u32,
    inverse: bool,
    root: int,
) -> bool {
    if strategy == AxisStrategy::StagedRadix2 {
        is_radix_stages(
            stages,
            len as u32,
            batch,
            inverse,
            (root / 2) as u32,
            (root + tz32(len as u32)) as u32,
            tz32(len as u32) % 2 == 0,
        )
    } else {
        is_empty_stages(stages)
    }
}

/// Axis `i` of a plan over `dims` can be planned once the strategies are
/// known.
pub open spec fn axis_plannable(
    dims: [usize; 3],
    i: int,
    strategies: [AxisStrategy; 3],
    root: int,
) -> bool {
    &&& pack_fft_len(dims[i] as int, strategies[i]) <= u32::MAX
    &&& chirp_ok(strategies[i], root)
    &&& stages_ok(dims[i] as int, strategies[i], root)
}

/// Whether a plan over `shape` with `volume_elements` values of `elem_size`
/// bytes can be prepared on a device with `limits`.
pub open spec fn geometry_plannable(
    shape: Seq<usize>,
    volume_elements: int,
    limits: DeviceLimits,
    max_workgroups_per_dimension: int,
    elem_size: int,
) -> bool {
    let dims = pad3(shape);
    let strategies = strategies_spec(dims, limits, max_workgroups_per_dimension);
    let root = radix_root_spec(dims, strategies);
    &&& limits.max_compute_workgroup_size_x >= WORKGROUP_SIZE
    &&& limits.max_compute_invocations_per_workgroup >= WORKGROUP_SIZE
    &&& batch_spec(Axis::X, dims) <= u32::MAX
    &&& batch_spec(Axis::Y, dims) <= u32::MAX
    &&& batch_spec(Axis::Z, dims) <= u32::MAX
    &&& strategy_plannable(dims[0] as int)
    &&& strategy_plannable(dims[1] as int)
    &&& strategy_plannable(dims[2] as int)
    &&& storage_admissible(
        limits.max_buffer_size as int,
        max_workgroups_per_dimension,
        volume_elements,
        dims,
        strategies,
        elem_size,
    )
    &&& axis_plannable(dims, 0, strategies, root)
    &&& axis_plannable(dims, 1, strategies, root)
    &&& axis_plannable(dims, 2, strategies, root)
}

/// Axis `i` of `g` is planned as the specification says.
pub open spec fn axis_planned(g: FftGeometry, i: int, inverse: bool) -> bool {
    &&& g.batch[i] == batch_spec(axis_of(i), g.dimensions)
    &&& g.pack[i] == pack_spec(g.dimensions, i, g.strategy[i])
    &&& is_chirp_plan(g.chirp[i], g.strategy[i], g.batch[i], g.radix_root_length as int)
    &&& is_axis_stages(
        g.stages[i],
        g.dimensions[i] as int,
        g.strategy[i],
        g.batch[i],
        inverse,
        g.radix_root_length as int,
    )
}

/// `g` is the geometry planned for `shape` in the given direction on a
/// device with `limits`.
pub open spec fn planned_from(
    g: FftGeometry,
    shape: Seq<usize>,
    inverse: bool,
    limits: DeviceLimits,
    max_workgroups_per_dimension: int,
) -> bool {
    &&& g.rank == shape.len()
    &&& g.dimensions == pad3(shape)
    &&& g.strategy == strategies_spec(g.dimensions, limits, max_workgroups_per_dimension)
    &&& g.radix_root_length == radix_root_spec(g.dimensions, g.strategy)
    &&& match workspace_spec(g.dimensions, g.strategy) {
        None => g.workspace_elements is None,
        Some(n) => g.workspace_elements is Some && g.workspace_elements->0 == n,
    }
    &&& axis_planned(g, 0, inverse)
    &&& axis_planned(g, 1, inverse)
    &&& axis_planned(g, 2, inverse)
}

fn invalid(message: String) -> (e: HephaestusError)
    ensures
        e == (HephaestusError::InvalidConfiguration { message }),
{
    HephaestusError::InvalidConfiguration { message }
}

fn pad_dimensions(shape: &[usize]) -> (d: [usize; 3])
    requires
        shape.len() <= 3,
    ensures
        d == pad3(shape@),
{
    let mut d = [1usize; 3];
    let mut i: usize = 0;
    while i < shape.len()
        invariant
            i <= shape.len(),
            shape.len() <= 3,
            forall|j: int| 0 <= j < i ==> d[j] == shape@[j],
            forall|j: int| i <= j < 3 ==> d[j] == 1,
        decreases shape.len() - i,
    {
        d[i] = shape[i];
        i += 1;
    }
    assert(d@ =~= pad3(shape@)@);
    d
}

fn axis_batch(dimensions: [usize; 3], axis: Axis) -> (r: Result<u32, HephaestusError>)
    ensures
        r is Ok <==> batch_spec(axis, dimensions) <= u32::MAX,
        r is Ok ==> r->Ok_0 == batch_spec(axis, dimensions),
        r is Err ==> r->Err_0 is InvalidConfiguration,
{
    proof {
        assert(0 <= batch_spec(axis, dimensions)) by (nonlinear_arith)
            requires
                batch_spec(axis, dimensions) == dimensions[1] * dimensions[2] || batch_spec(
                    axis,
                    dimensions,
                ) == dimensions[0] * dimensions[2] || batch_spec(axis, dimensions)
                    == dimensions[0] * dimensions[1],
        ;
    }
    match axis.batch_count(dimensions) {
        None => Err(invalid(String::from_str("FFT axis batch count overflows"))),
        Some(count) => dimension(count, "axis batch count"),
    }
}

fn axis_strategy(
    dimensions: [usize; 3],
    i: usize,
    batch: u32,
    limits: DeviceLimits,
    max_workgroups_per_dimension: u32,
) -> (r: Result<AxisStrategy, HephaestusError>)
    requires
        i < 3,
        batch == batch_spec(axis_of(i as int), dimensions),
    ensures
        r is Ok <==> strategy_plannable(dimensions[i as int] as int),
        r is Ok ==> r->Ok_0 == selected_strategy(
            dimensions,
            i as int,
            limits,
            max_workgroups_per_dimension as int,
        ),
        r is Err ==> r->Err_0 is InvalidConfiguration,
{
    let base = axis_strategy_for(dimensions[i])?;
    Ok(select_fused_strategy(base, dimensions[i], batch, limits, max_workgroups_per_dimension))
}

fn pack_for(dimensions: [usize; 3], i: usize, batch: u32, strategy: AxisStrategy) -> (r: Result<
    PackParams,
    HephaestusError,
>)
    requires
        i < 3,
        dimensions[0] <= u32::MAX,
        dimensions[1] <= u32::MAX,
        dimensions[2] <= u32::MAX,
        batch == batch_spec(axis_of(i as int), dimensions),
    ensures
        r is Ok <==> pack_fft_len(dimensions[i as int] as int, strategy) <= u32::MAX,
        r is Ok ==> r->Ok_0 == pack_spec(dimensions, i as int, strategy),
        r is Err ==> r->Err_0 is InvalidConfiguration,
{
    let fft_len = match strategy {
        AxisStrategy::ChirpZ { m, .. } => dimension(m, "Bluestein workspace length")?,
        _ => dimension(dimensions[i], "axis length")?,
    };
    Ok(
        PackParams {
            n: dimensions[i] as u32,
            stage: 0,
            inverse: 0,
            batch_count: batch,
            nx: dimensions[0] as u32,
            ny: dimensions[1] as u32,
            nz: dimensions[2] as u32,
            axis: i as u32,
            fft_len,
        },
    )
}

fn chirp_for(strategy: AxisStrategy, batch: u32, root: usize) -> (r: Result<
    Option<ChirpPlan>,
    HephaestusError,
>)
    ensures
        r is Ok <==> chirp_ok(strategy, root as int),
        r is Ok ==> is_chirp_plan(r->Ok_0, strategy, batch, root as int),
        r is Err ==> r->Err_0 is InvalidConfiguration,
{
    match strategy {
        AxisStrategy::ChirpZ { n, m } => {
            let n_param = dimension(n, "Bluestein axis length")?;
            let m_param = dimension(m, "Bluestein workspace length")?;
            let (root_half, scale_index) = radix_parameters(root, m_param)?;
            Ok(
                Some(
                    ChirpPlan {
                        params: ChirpParams { n: n_param, m: m_param, batch_count: batch },
                        forward_radix: RadixStages::radix_two(
                            m_param,
                            batch,
                            false,
                            root_half,
                            scale_index,
                        ),
                        inverse_radix: RadixStages::radix_two(
                            m_param,
                            batch,
                            true,
                            root_half,
                            scale_index,
                        ),
                    },
                ),
            )
        },
        _ => Ok(None),
    }
}

/// Plan the geometry of an FFT over `shape` (rank at most three) holding
/// `volume_elements` values of `T`, in the given direction, for a device with
/// `limits` and `max_workgroups_per_dimension`.
#[verifier::rlimit(50)]
pub fn plan_fft_geometry<T>(
    shape: &[usize],
    volume_elements: usize,
    inverse: bool,
    limits: DeviceLimits,
    max_workgroups_per_dimension: u32,
) -> (r: Result<FftGeometry, HephaestusError>)
    requires
        shape.len() <= 3,
    ensures
        r is Ok <==> geometry_plannable(
            shape@,
            volume_elements as int,
            limits,
            max_workgroups_per_dimension as int,
            vstd::layout::size_of::<T>() as int,
        ),
        r is Ok ==> planned_from(
            r->Ok_0,
            shape@,
            inverse,
            limits,
            max_workgroups_per_dimension as int,
        ),
        r is Err ==> r->Err_0 is InvalidConfiguration,
{
    let dimensions = pad_dimensions(shape);
    if limits.max_compute_workgroup_size_x < WORKGROUP_SIZE
        || limits.max_compute_invocations_per_workgroup < WORKGROUP_SIZE {
        let mut message = String::from_str(
            "FFT kernels require 256 x invocations; device reports max x=",
        );
        let x = decimal(limits.max_compute_workgroup_size_x as u64);
        message.append(x.as_str());
        message.append(" and max invocations=");
        let inv = decimal(limits.max_compute_invocations_per_workgroup as u64);
        message.append(inv.as_str());
        return Err(invalid(message));
    }
    let bx = axis_batch(dimensions, Axis::X)?;
    let by = axis_batch(dimensions, Axis::Y)?;
    let bz = axis_batch(dimensions, Axis::Z)?;
    let sx = axis_strategy(dimensions, 0, bx, limits, max_workgroups_per_dimension)?;
    let sy = axis_strategy(dimensions, 1, by, limits, max_workgroups_per_dimension)?;
    let sz = axis_strategy(dimensions, 2, bz, limits, max_workgroups_per_dimension)?;
    let strategy = [sx, sy, sz];
    assert(strategy@ =~= strategies_spec(
        dimensions,
        limits,
        max_workgroups_per_dimension as int,
    )@);
    let root = radix_root_length(dimensions, strategy);
    let workspace_elements = validate_storage_limit::<T>(
        limits.max_buffer_size,
        max_workgroups_per_dimension,
        volume_elements,
        dimensions,
        strategy,
    )?;
    let px = pack_for(dimensions, 0, bx, sx)?;
    let py = pack_for(dimensions, 1, by, sy)?;
    let pz = pack_for(dimensions, 2, bz, sz)?;
    let cx = chirp_for(sx, bx, root)?;
    let cy = chirp_for(sy, by, root)?;
    let cz = chirp_for(sz, bz, root)?;
    let rx = radix_stages(dimensions[0], sx, bx, inverse, root)?;
    let ry = radix_stages(dimensions[1], sy, by, inverse, root)?;
    let rz = radix_stages(dimensions[2], sz, bz, inverse, root)?;
    let g = FftGeometry {
        rank: shape.len(),
        dimensions,
        batch: [bx, by, bz],
        strategy,
        radix_root_length: root,
        workspace_elements,
        pack: [px, py, pz],
        chirp: [cx, cy, cz],
        stages: [rx, ry, rz],
    };
    Ok(g)
}

} // verus!
