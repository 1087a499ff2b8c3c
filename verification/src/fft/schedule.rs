//! The ordered pass schedule of a planned FFT: which kernel runs, on which
//! axis, with which uniform parameters and over which dispatch grid.

use crate::error::{message_of, HephaestusError};
use crate::fft::geometry::{
    axis_of, axis_planned, geometry_plannable, planned_from, selected_strategy, ChirpParams, ChirpPlan, FftGeometry,
    PackParams,
};
use crate::fft::plan::{opt_max, storage_admissible, workspace_spec};
use crate::fft::plan::{FftParams, RadixStages};
use crate::fft::strategy::{
    axis_index, axis_len_spec, axis_workspace_spec, batch_spec, fused_admissible, lemma_next_pow2,
    strategy_spec,
    trailing_zeros_u32, tz32, Axis, AxisStrategy, DeviceLimits,
};
use crate::pipeline::{ceil_div, covering_domain, domain_axis_text, DispatchGrid};
use crate::text::decimal_spec;
use vstd::prelude::*;

verus! {

/// Uniform parameters of the single-workgroup fused kernel.
#[derive(Debug, Clone, Copy, PartialEq, Eq, Structural)]
pub struct FusedParams {
    pub n: u32,
    pub log2n: u32,
    pub inverse: u32,
    pub batch_count: u32,
    pub nx: u32,
    pub ny: u32,
    pub nz: u32,
    pub axis: u32,
    pub batch_grid_x: u32,
}

/// The kernel a pass runs.
#[derive(Debug, Clone, Copy, PartialEq, Eq, Structural)]
pub enum FftPass {
    Pack,
    Unpack,
    BitReverse,
    RadixFourBitReverse,
    Butterfly,
    RadixFourButterfly,
    Scale,
    Fused,
    ChirpNegateImaginary,
    ChirpPremultiply,
    ChirpPointMultiply,
    ChirpPostmultiply,
    ChirpScale,
}

/// The uniform block a pass binds.
#[derive(Debug, Clone, Copy, PartialEq, Eq, Structural)]
pub enum FftUniform {
    Pack(PackParams),
    Radix(FftParams),
    Fused(FusedParams),
    Chirp(ChirpParams),
}

/// One pass of the schedule.
#[derive(Debug, Clone, Copy, PartialEq, Eq, Structural)]
pub struct FftCommand {
    pub pass: FftPass,
    pub axis: Axis,
    pub uniform: FftUniform,
    pub grid: DispatchGrid,
}

/// A one-dimensional grid of 256-wide workgroups covering `elements`.
pub open spec fn covering_grid(elements: int) -> DispatchGrid {
    DispatchGrid { x: ceil_div(elements, 256) as u32, y: 1, z: 1 }
}

/// Such a grid can be dispatched.
pub open spec fn grid_fits(elements: int) -> bool {
    elements <= usize::MAX && ceil_div(elements, 256) <= u32::MAX
}

/// One command.
pub open spec fn cmd(pass: FftPass, axis: Axis, uniform: FftUniform, grid: DispatchGrid) -> FftCommand {
    FftCommand { pass, axis, uniform, grid }
}

/// The passes of a radix schedule: bit reversal, the butterflies in order,
/// then the inverse scaling pass if any; nothing for an empty schedule.
pub open spec fn radix_commands(stages: RadixStages, axis: Axis) -> Seq<FftCommand> {
    if stages.fft_len == 0 {
        seq![]
    } else {
        let element_grid = covering_grid(stages.batch_count * stages.fft_len);
        let butterfly_grid = covering_grid(
            stages.batch_count * (stages.fft_len / if stages.radix_four {
                4u32
            } else {
                2u32
            }),
        );
        let bit_pass = if stages.radix_four {
            FftPass::RadixFourBitReverse
        } else {
            FftPass::BitReverse
        };
        let fly_pass = if stages.radix_four {
            FftPass::RadixFourButterfly
        } else {
            FftPass::Butterfly
        };
        seq![cmd(bit_pass, axis, FftUniform::Radix(stages.bit_reverse), element_grid)]
            + stages.butterflies@.map_values(
            |p: FftParams| cmd(fly_pass, axis, FftUniform::Radix(p), butterfly_grid),
        ) + match stages.inverse_scale {
            Some(p) => seq![cmd(FftPass::Scale, axis, FftUniform::Radix(p), element_grid)],
            None => seq![],
        }
    }
}

/// A radix schedule can be bound: it is empty, or the workspace and twiddle
/// table exist and its grids fit.
pub open spec fn radix_bindable(stages: RadixStages, has_workspace: bool, root: int) -> bool {
    stages.fft_len == 0 || (has_workspace && root > 0 && grid_fits(
        stages.batch_count * stages.fft_len,
    ))
}

/// The Bluestein passes of one axis.
pub open spec fn chirp_commands(c: ChirpPlan, axis: Axis, inverse: bool) -> Seq<FftCommand> {
    let u = FftUniform::Chirp(c.params);
    let padded = covering_grid(c.params.m * c.params.batch_count);
    let output = covering_grid(c.params.n * c.params.batch_count);
    (if inverse {
        seq![cmd(FftPass::ChirpNegateImaginary, axis, u, output)]
    } else {
        seq![]
    }) + seq![cmd(FftPass::ChirpPremultiply, axis, u, padded)] + radix_commands(
        c.forward_radix,
        axis,
    ) + seq![cmd(FftPass::ChirpPointMultiply, axis, u, padded)] + radix_commands(
        c.inverse_radix,
        axis,
    ) + seq![cmd(FftPass::ChirpPostmultiply, axis, u, output)] + (if inverse {
        seq![
            cmd(FftPass::ChirpNegateImaginary, axis, u, output),
            cmd(FftPass::ChirpScale, axis, u, output),
        ]
    } else {
        seq![]
    })
}

/// The Bluestein passes can be bound.
pub open spec fn chirp_bindable(c: ChirpPlan, root: int) -> bool {
    &&& grid_fits(c.params.m * c.params.batch_count)
    &&& grid_fits(c.params.n * c.params.batch_count)
    &&& radix_bindable(c.forward_radix, true, root)
    &&& radix_bindable(c.inverse_radix, true, root)
}

/// Column count of the fused kernel's two-dimensional line grid.
pub open spec fn fused_grid_x(batch: u32, max_grid_x: u32) -> u32 {
    if batch <= max_grid_x {
        batch
    } else {
        max_grid_x
    }
}

/// The single pass of a fused axis.
pub open spec fn fused_command(p: PackParams, axis: Axis, inverse: bool, max_grid_x: u32) -> FftCommand {
    let gx = fused_grid_x(p.batch_count, max_grid_x);
    cmd(
        FftPass::Fused,
        axis,
        FftUniform::Fused(
            FusedParams {
                n: p.n,
                log2n: tz32(p.n) as u32,
                inverse: if inverse {
                    1
                } else {
                    0
                },
                batch_count: p.batch_count,
                nx: p.nx,
                ny: p.ny,
                nz: p.nz,
                axis: p.axis,
                batch_grid_x: gx,
            },
        ),
        DispatchGrid { x: gx, y: ceil_div(p.batch_count as int, gx as int) as u32, z: 1 },
    )
}

/// Axis `i` takes part in the transform: it is within the rank and has more
/// than one point.
pub open spec fn axis_active(g: FftGeometry, i: int) -> bool {
    i < g.rank && g.pack[i].n > 1
}

/// The passes of axis `i`.
pub open spec fn axis_commands(g: FftGeometry, i: int, axis: Axis, inverse: bool, max_grid_x: u32) -> Seq<
    FftCommand,
> {
    let p = g.pack[i];
    let pack_grid = covering_grid(p.n * p.batch_count);
    let pack = cmd(FftPass::Pack, axis, FftUniform::Pack(p), pack_grid);
    let unpack = cmd(FftPass::Unpack, axis, FftUniform::Pack(p), pack_grid);
    match g.strategy[i] {
        AxisStrategy::FusedRadix2 => seq![fused_command(p, axis, inverse, max_grid_x)],
        AxisStrategy::StagedRadix2 => seq![pack] + radix_commands(g.stages[i], axis) + seq![unpack],
        AxisStrategy::ChirpZ { .. } => seq![pack] + chirp_commands(g.chirp[i]->0, axis, inverse)
            + seq![unpack],
    }
}

/// Axis `i` can be bound.
pub open spec fn axis_bindable(g: FftGeometry, i: int) -> bool {
    let p = g.pack[i];
    let ws = g.workspace_elements is Some;
    let root = g.radix_root_length as int;
    match g.strategy[i] {
        AxisStrategy::FusedRadix2 => true,
        AxisStrategy::StagedRadix2 => ws && grid_fits(p.n * p.batch_count) && radix_bindable(
            g.stages[i],
            ws,
            root,
        ),
        AxisStrategy::ChirpZ { .. } => ws && grid_fits(p.n * p.batch_count) && g.chirp[i] is Some
            && chirp_bindable(g.chirp[i]->0, root),
    }
}

/// The passes of axis `i` if it is active.
pub open spec fn active_commands(g: FftGeometry, i: int, axis: Axis, inverse: bool, max_grid_x: u32) -> Seq<
    FftCommand,
> {
    if axis_active(g, i) {
        axis_commands(g, i, axis, inverse, max_grid_x)
    } else {
        seq![]
    }
}

/// The whole schedule: axes `Z, Y, X` for a forward transform and `X, Y, Z`
/// for an inverse one.
pub open spec fn schedule_spec(g: FftGeometry, inverse: bool, max_grid_x: u32) -> Seq<FftCommand> {
    if inverse {
        active_commands(g, 0, Axis::X, true, max_grid_x) + active_commands(
            g,
            1,
            Axis::Y,
            true,
            max_grid_x,
        ) + active_commands(g, 2, Axis::Z, true, max_grid_x)
    } else {
        active_commands(g, 2, Axis::Z, false, max_grid_x) + active_commands(
            g,
            1,
            Axis::Y,
            false,
            max_grid_x,
        ) + active_commands(g, 0, Axis::X, false, max_grid_x)
    }
}

/// Every active axis can be bound.
pub open spec fn schedule_bindable(g: FftGeometry) -> bool {
    &&& axis_active(g, 0) ==> axis_bindable(g, 0)
    &&& axis_active(g, 1) ==> axis_bindable(g, 1)
    &&& axis_active(g, 2) ==> axis_bindable(g, 2)
}

/// A fused active axis has lines to cover and a grid to place them on.
pub open spec fn fused_axes_nonempty(g: FftGeometry, i: int, max_grid_x: u32) -> bool {
    axis_active(g, i) && g.strategy[i] == AxisStrategy::FusedRadix2 ==> g.pack[i].batch_count > 0
        && max_grid_x > 0
}

/// The error a failed binding reports.
pub open spec fn schedule_error(e: HephaestusError) -> bool {
    e is DispatchFailed || e is InvalidConfiguration
}

fn dispatch_failed(message: &str) -> (e: HephaestusError)
    ensures
        e is DispatchFailed,
        message_of(e) == message@,
{
    HephaestusError::DispatchFailed { message: String::from_str(message) }
}

/// A covering grid for `left * right` elements.
pub fn product_grid(left: u32, right: u32) -> (r: Result<DispatchGrid, HephaestusError>)
    ensures
        r is Ok <==> grid_fits(left * right),
        r is Ok ==> r->Ok_0 == covering_grid(left * right),
        r is Err ==> schedule_error(r->Err_0),
        r is Err ==> message_of(r->Err_0) == if left * right > usize::MAX {
            "FFT dispatch count "@ + decimal_spec(left as nat) + " * "@ + decimal_spec(right as nat)
                + " exceeds usize"@
        } else {
            domain_axis_text(0, ceil_div(left * right, 256))
        },
{
    assert((left as u64) * (right as u64) <= u64::MAX) by (nonlinear_arith)
        requires
            left <= u32::MAX,
            right <= u32::MAX,
    ;
    let wide = (left as u64) * (right as u64);
    if wide > usize::MAX as u64 {
        let mut message = String::from_str("FFT dispatch count ");
        let a = crate::text::decimal(left as u64);
        message.append(a.as_str());
        message.append(" * ");
        let b = crate::text::decimal(right as u64);
        message.append(b.as_str());
        message.append(" exceeds usize");
        return Err(HephaestusError::InvalidConfiguration { message });
    }
    assert(ceil_div(1, 1) == 1);
    covering_domain([wide as usize, 1, 1], [256, 1, 1])
}

fn push_radix(commands: &mut Vec<FftCommand>, stages: &RadixStages, axis: Axis, has_workspace: bool, root: usize) -> (r: Result<(), HephaestusError>)
    ensures
        r is Ok <==> radix_bindable(*stages, has_workspace, root as int),
        r is Ok ==> final(commands)@ == old(commands)@ + radix_commands(*stages, axis),
        r is Err ==> schedule_error(r->Err_0),
{
    if stages.fft_len == 0 {
        assert(radix_commands(*stages, axis) =~= seq![]);
        assert(commands@ =~= old(commands)@ + radix_commands(*stages, axis));
        return Ok(());
    }
    if !has_workspace {
        return Err(dispatch_failed("staged FFT command requires prepared workspace"));
    }
    if root == 0 {
        return Err(dispatch_failed("prepared radix FFT is missing its twiddle table"));
    }
    let element_grid = product_grid(stages.batch_count, stages.fft_len)?;
    let divisor: u32 = if stages.radix_four {
        4
    } else {
        2
    };
    let quotient = stages.fft_len / divisor;
    assert(stages.batch_count * quotient <= stages.batch_count * stages.fft_len) by (nonlinear_arith)
        requires
            quotient <= stages.fft_len,
    ;
    assert(ceil_div(stages.batch_count * quotient, 256) <= ceil_div(stages.batch_count * stages.fft_len, 256)) by (nonlinear_arith)
        requires
            stages.batch_count * quotient <= stages.batch_count * stages.fft_len,
    ;
    let butterfly_grid = product_grid(stages.batch_count, quotient)?;
    let bit_pass = if stages.radix_four {
        FftPass::RadixFourBitReverse
    } else {
        FftPass::BitReverse
    };
    let fly_pass = if stages.radix_four {
        FftPass::RadixFourButterfly
    } else {
        FftPass::Butterfly
    };
    let ghost start = commands@;
    commands.push(FftCommand { pass: bit_pass, axis, uniform: FftUniform::Radix(stages.bit_reverse), grid: element_grid });
    let ghost flies = stages.butterflies@.map_values(
        |p: FftParams| cmd(fly_pass, axis, FftUniform::Radix(p), butterfly_grid),
    );
    let mut k: usize = 0;
    while k < stages.butterflies.len()
        invariant
            k <= stages.butterflies@.len(),
            flies == stages.butterflies@.map_values(
                |p: FftParams| cmd(fly_pass, axis, FftUniform::Radix(p), butterfly_grid),
            ),
            commands@ == start + seq![cmd(bit_pass, axis, FftUniform::Radix(stages.bit_reverse), element_grid)] + flies.subrange(0, k as int),
        decreases stages.butterflies@.len() - k,
    {
        commands.push(FftCommand { pass: fly_pass, axis, uniform: FftUniform::Radix(stages.butterflies[k]), grid: butterfly_grid });
        assert(flies.subrange(0, k as int + 1) =~= flies.subrange(0, k as int).push(flies[k as int]));
        k = k + 1;
    }
    assert(flies.subrange(0, k as int) =~= flies);
    let ghost before_scale = commands@;
    match stages.inverse_scale {
        Some(p) => {
            commands.push(FftCommand { pass: FftPass::Scale, axis, uniform: FftUniform::Radix(p), grid: element_grid });
        },
        None => {},
    }
    assert(commands@ =~= old(commands)@ + radix_commands(*stages, axis));
    Ok(())
}

fn push_chirp(commands: &mut Vec<FftCommand>, c: &ChirpPlan, axis: Axis, inverse: bool, root: usize) -> (r: Result<(), HephaestusError>)
    ensures
        r is Ok <==> chirp_bindable(*c, root as int),
        r is Ok ==> final(commands)@ == old(commands)@ + chirp_commands(*c, axis, inverse),
        r is Err ==> schedule_error(r->Err_0),
{
    let u = FftUniform::Chirp(c.params);
    let padded = product_grid(c.params.m, c.params.batch_count)?;
    let output = product_grid(c.params.n, c.params.batch_count)?;
    let ghost start = commands@;
    if inverse {
        commands.push(FftCommand { pass: FftPass::ChirpNegateImaginary, axis, uniform: u, grid: output });
    }
    commands.push(FftCommand { pass: FftPass::ChirpPremultiply, axis, uniform: u, grid: padded });
    let ghost mid1 = commands@;
    push_radix(commands, &c.forward_radix, axis, true, root)?;
    commands.push(FftCommand { pass: FftPass::ChirpPointMultiply, axis, uniform: u, grid: padded });
    let ghost mid2 = commands@;
    push_radix(commands, &c.inverse_radix, axis, true, root)?;
    commands.push(FftCommand { pass: FftPass::ChirpPostmultiply, axis, uniform: u, grid: output });
    if inverse {
        commands.push(FftCommand { pass: FftPass::ChirpNegateImaginary, axis, uniform: u, grid: output });
        commands.push(FftCommand { pass: FftPass::ChirpScale, axis, uniform: u, grid: output });
    }
    assert(commands@ =~= old(commands)@ + chirp_commands(*c, axis, inverse));
    Ok(())
}

fn fused_for(p: PackParams, axis: Axis, inverse: bool, max_grid_x: u32) -> (f: FftCommand)
    requires
        p.batch_count > 0,
        max_grid_x > 0,
    ensures
        f == fused_command(p, axis, inverse, max_grid_x),
{
    let grid_x = if p.batch_count <= max_grid_x {
        p.batch_count
    } else {
        max_grid_x
    };
    assert(p.batch_count % grid_x != 0 ==> p.batch_count / grid_x < u32::MAX) by (nonlinear_arith)
        requires
            grid_x > 0,
    ;
    let grid_y = p.batch_count / grid_x + if p.batch_count % grid_x == 0 {
        0
    } else {
        1
    };
    assert(grid_y == ceil_div(p.batch_count as int, grid_x as int)) by (nonlinear_arith)
        requires
            grid_x > 0,
            grid_y == p.batch_count / grid_x + if p.batch_count % grid_x == 0 {
                0int
            } else {
                1int
            },
    ;
    FftCommand {
        pass: FftPass::Fused,
        axis,
        uniform: FftUniform::Fused(
            FusedParams {
                n: p.n,
                log2n: trailing_zeros_u32(p.n),
                inverse: if inverse {
                    1
                } else {
                    0
                },
                batch_count: p.batch_count,
                nx: p.nx,
                ny: p.ny,
                nz: p.nz,
                axis: p.axis,
                batch_grid_x: grid_x,
            },
        ),
        grid: DispatchGrid { x: grid_x, y: grid_y, z: 1 },
    }
}

fn push_axis(commands: &mut Vec<FftCommand>, g: &FftGeometry, i: usize, axis: Axis, inverse: bool, max_grid_x: u32) -> (r: Result<(), HephaestusError>)
    requires
        i < 3,
        fused_axes_nonempty(*g, i as int, max_grid_x),
        axis_active(*g, i as int),
    ensures
        r is Ok <==> axis_bindable(*g, i as int),
        r is Ok ==> final(commands)@ == old(commands)@ + axis_commands(*g, i as int, axis, inverse, max_grid_x),
        r is Err ==> schedule_error(r->Err_0),
{
    let p = g.pack[i];
    let has_workspace = g.workspace_elements.is_some();
    let root = g.radix_root_length;
    match g.strategy[i] {
        AxisStrategy::FusedRadix2 => {
            commands.push(fused_for(p, axis, inverse, max_grid_x));
            assert(commands@ =~= old(commands)@ + axis_commands(*g, i as int, axis, inverse, max_grid_x));
            Ok(())
        },
        AxisStrategy::StagedRadix2 => {
            if !has_workspace {
                return Err(dispatch_failed("staged FFT command requires prepared workspace"));
            }
            let pack_grid = product_grid(p.n, p.batch_count)?;
            commands.push(FftCommand { pass: FftPass::Pack, axis, uniform: FftUniform::Pack(p), grid: pack_grid });
            push_radix(commands, &g.stages[i], axis, has_workspace, root)?;
            commands.push(FftCommand { pass: FftPass::Unpack, axis, uniform: FftUniform::Pack(p), grid: pack_grid });
            assert(commands@ =~= old(commands)@ + axis_commands(*g, i as int, axis, inverse, max_grid_x));
            Ok(())
        },
        AxisStrategy::ChirpZ { .. } => {
            if !has_workspace {
                return Err(dispatch_failed("staged FFT command requires prepared workspace"));
            }
            let pack_grid = product_grid(p.n, p.batch_count)?;
            commands.push(FftCommand { pass: FftPass::Pack, axis, uniform: FftUniform::Pack(p), grid: pack_grid });
            match &g.chirp[i] {
                None => {
                    let mut message = String::from_str("FFT ");
                    message.append(axis.name());
                    message.append(" axis selected Bluestein without prepared chirp data");
                    return Err(HephaestusError::DispatchFailed { message });
                },
                Some(c) => {
                    push_chirp(commands, c, axis, inverse, root)?;
                },
            }
            commands.push(FftCommand { pass: FftPass::Unpack, axis, uniform: FftUniform::Pack(p), grid: pack_grid });
            assert(commands@ =~= old(commands)@ + axis_commands(*g, i as int, axis, inverse, max_grid_x));
            Ok(())
        },
    }
}

impl FftGeometry {
    /// Whether `axis` takes part in the transform.
    pub fn axis_is_active(&self, axis: Axis) -> (b: bool)
        ensures
            b == axis_active(*self, axis_index(axis)),
    {
        let index = axis.shader_index() as usize;
        index < self.rank && self.pack[index].n > 1
    }
}

fn push_active(commands: &mut Vec<FftCommand>, g: &FftGeometry, i: usize, axis: Axis, inverse: bool, max_grid_x: u32) -> (r: Result<(), HephaestusError>)
    requires
        i < 3,
        axis_index(axis) == i,
        fused_axes_nonempty(*g, i as int, max_grid_x),
    ensures
        r is Ok <==> (axis_active(*g, i as int) ==> axis_bindable(*g, i as int)),
        r is Ok ==> final(commands)@ == old(commands)@ + active_commands(*g, i as int, axis, inverse, max_grid_x),
        r is Err ==> schedule_error(r->Err_0),
{
    if g.axis_is_active(axis) {
        push_axis(commands, g, i, axis, inverse, max_grid_x)
    } else {
        assert(commands@ =~= old(commands)@ + active_commands(*g, i as int, axis, inverse, max_grid_x));
        Ok(())
    }
}

/// The ordered passes of a planned transform: for each active axis (`Z, Y, X`
/// forward, `X, Y, Z` inverse) a fused pass, or pack, the radix or Bluestein
/// passes, and unpack. `max_grid_x` bounds the fused kernel's grid columns.
pub fn prepare_commands(g: &FftGeometry, inverse: bool, max_grid_x: u32) -> (r: Result<Vec<FftCommand>, HephaestusError>)
    requires
        fused_axes_nonempty(*g, 0, max_grid_x),
        fused_axes_nonempty(*g, 1, max_grid_x),
        fused_axes_nonempty(*g, 2, max_grid_x),
    ensures
        r is Ok <==> schedule_bindable(*g),
        r is Ok ==> r->Ok_0@ == schedule_spec(*g, inverse, max_grid_x),
        r is Err ==> schedule_error(r->Err_0),
{
    let mut commands: Vec<FftCommand> = Vec::new();
    if inverse {
        push_active(&mut commands, g, 0, Axis::X, true, max_grid_x)?;
        push_active(&mut commands, g, 1, Axis::Y, true, max_grid_x)?;
        push_active(&mut commands, g, 2, Axis::Z, true, max_grid_x)?;
    } else {
        push_active(&mut commands, g, 2, Axis::Z, false, max_grid_x)?;
        push_active(&mut commands, g, 1, Axis::Y, false, max_grid_x)?;
        push_active(&mut commands, g, 0, Axis::X, false, max_grid_x)?;
    }
    assert(commands@ =~= schedule_spec(*g, inverse, max_grid_x));
    Ok(commands)
}

/// Provider-owned dense complex FFTs.
#[derive(Clone, Copy, Debug, Default)]
pub struct WgpuFftOps;

proof fn lemma_grid_fits(e: int)
    requires
        0 <= e <= u32::MAX,
    ensures
        grid_fits(e),
{
    assert(ceil_div(e, 256) <= e || e == 0);
}

proof fn lemma_mul_mono(a: int, b: int, c: int)
    requires
        0 <= a <= b,
        0 <= c,
    ensures
        a * c <= b * c,
        0 <= a * c,
{
    assert(a * c <= b * c && 0 <= a * c) by (nonlinear_arith)
        requires
            0 <= a <= b,
            0 <= c,
    ;
}

proof fn lemma_opt_max_covers(x: Option<int>, y: Option<int>, z: Option<int>, w: int)
    requires
        x == Some(w) || y == Some(w) || z == Some(w),
    ensures
        opt_max(opt_max(x, y), z) is Some,
        opt_max(opt_max(x, y), z)->0 >= w,
{
}

/// Planning law of the FFT: on the device it was planned for, the schedule of
/// a planned geometry can always be bound. Every active axis finds its
/// workspace, twiddle table and chirp data, and every pass grid fits.
pub proof fn lemma_planned_geometry_schedulable(
    g: FftGeometry,
    shape: Seq<usize>,
    volume_elements: int,
    inverse: bool,
    limits: DeviceLimits,
    max_workgroups_per_dimension: int,
    elem_size: int,
)
    requires
        geometry_plannable(shape, volume_elements, limits, max_workgroups_per_dimension, elem_size),
        planned_from(g, shape, inverse, limits, max_workgroups_per_dimension),
    ensures
        schedule_bindable(g),
        g.dimensions[0] > 0 && g.dimensions[1] > 0 && g.dimensions[2] > 0 && 0
            <= max_workgroups_per_dimension <= u32::MAX ==> {
            &&& fused_axes_nonempty(g, 0, max_workgroups_per_dimension as u32)
            &&& fused_axes_nonempty(g, 1, max_workgroups_per_dimension as u32)
            &&& fused_axes_nonempty(g, 2, max_workgroups_per_dimension as u32)
        },
{
    lemma_axis_schedulable(g, 0, shape, volume_elements, inverse, limits, max_workgroups_per_dimension, elem_size);
    lemma_axis_schedulable(g, 1, shape, volume_elements, inverse, limits, max_workgroups_per_dimension, elem_size);
    lemma_axis_schedulable(g, 2, shape, volume_elements, inverse, limits, max_workgroups_per_dimension, elem_size);
}

#[verifier::rlimit(60)]
proof fn lemma_axis_schedulable(
    g: FftGeometry,
    i: int,
    shape: Seq<usize>,
    volume_elements: int,
    inverse: bool,
    limits: DeviceLimits,
    max_workgroups_per_dimension: int,
    elem_size: int,
)
    requires
        0 <= i < 3,
        geometry_plannable(shape, volume_elements, limits, max_workgroups_per_dimension, elem_size),
        planned_from(g, shape, inverse, limits, max_workgroups_per_dimension),
    ensures
        axis_active(g, i) ==> axis_bindable(g, i),
        g.dimensions[0] > 0 && g.dimensions[1] > 0 && g.dimensions[2] > 0 && 0
            <= max_workgroups_per_dimension <= u32::MAX ==> fused_axes_nonempty(
            g,
            i,
            max_workgroups_per_dimension as u32,
        ),
{
    if g.dimensions[0] > 0 && g.dimensions[1] > 0 && g.dimensions[2] > 0 && 0
        <= max_workgroups_per_dimension <= u32::MAX && axis_active(g, i) && g.strategy[i]
        == AxisStrategy::FusedRadix2 {
        let dims = g.dimensions;
        let batch = batch_spec(axis_of(i), dims);
        let mw = max_workgroups_per_dimension;
        assert(axis_planned(g, i, inverse));
        assert(g.strategy[i] == selected_strategy(dims, i, limits, mw));
        assert(fused_admissible(dims[i] as int, batch, limits, mw));
        assert(batch >= 1 && batch <= u32::MAX) by (nonlinear_arith)
            requires
                dims[0] > 0,
                dims[1] > 0,
                dims[2] > 0,
                batch == dims[0] * dims[1] || batch == dims[0] * dims[2] || batch == dims[1] * dims[2],
                batch == batch_spec(Axis::X, dims) || batch == batch_spec(Axis::Y, dims) || batch == batch_spec(Axis::Z, dims),
                batch_spec(Axis::X, dims) <= u32::MAX,
                batch_spec(Axis::Y, dims) <= u32::MAX,
                batch_spec(Axis::Z, dims) <= u32::MAX,
        ;
        assert(mw > 0) by (nonlinear_arith)
            requires
                1 <= batch <= mw * mw,
                mw >= 0,
        ;
    }
    if axis_active(g, i) {
        let dims = g.dimensions;
        let s = g.strategy;
        let root = g.radix_root_length as int;
        let axis = axis_of(i);
        let len = dims[i] as int;
        let batch = batch_spec(axis, dims);
        assert(axis_len_spec(axis, dims) == len);
        assert(storage_admissible(
            limits.max_buffer_size as int,
            max_workgroups_per_dimension,
            volume_elements,
            dims,
            s,
            elem_size,
        ));
        assert(axis_planned(g, i, inverse));
        assert(0 <= batch <= u32::MAX) by (nonlinear_arith)
            requires
                batch == dims[0] * dims[1] || batch == dims[0] * dims[2] || batch == dims[1] * dims[2],
                batch_spec(Axis::X, dims) <= u32::MAX,
                batch_spec(Axis::Y, dims) <= u32::MAX,
                batch_spec(Axis::Z, dims) <= u32::MAX,
                batch == batch_spec(Axis::X, dims) || batch == batch_spec(Axis::Y, dims) || batch == batch_spec(Axis::Z, dims),
        ;
        let p = g.pack[i];
        assert(p.n == len && p.batch_count == batch);
        assert(len > 1);
        match s[i] {
            AxisStrategy::FusedRadix2 => {},
            AxisStrategy::StagedRadix2 => {
                assert(axis_workspace_spec(axis, dims, s[i]) == Some(len * batch));
                lemma_opt_max_covers(
                    axis_workspace_spec(Axis::X, dims, s[0]),
                    axis_workspace_spec(Axis::Y, dims, s[1]),
                    axis_workspace_spec(Axis::Z, dims, s[2]),
                    len * batch,
                );
                lemma_mul_mono(0, len, batch);
                lemma_grid_fits(len * batch);
                assert(root >= len);
                let st = g.stages[i];
                assert(st.fft_len == len && st.batch_count == batch);
                assert(batch * len == len * batch) by (nonlinear_arith);
            },
            AxisStrategy::ChirpZ { n, m } => {
                assert(axis_workspace_spec(axis, dims, s[i]) == Some(m * batch));
                lemma_opt_max_covers(
                    axis_workspace_spec(Axis::X, dims, s[0]),
                    axis_workspace_spec(Axis::Y, dims, s[1]),
                    axis_workspace_spec(Axis::Z, dims, s[2]),
                    m * batch,
                );
                assert(s[i] == strategy_spec(len));
                lemma_next_pow2(2 * len - 1);
                assert(n == len && m >= len);
                lemma_mul_mono(len, m as int, batch);
                lemma_mul_mono(0, len, batch);
                lemma_grid_fits(m * batch);
                lemma_grid_fits(len * batch);
                assert(root >= m);
                let c = g.chirp[i]->0;
                assert(c.params.n == len && c.params.m == m && c.params.batch_count == batch);
                assert(c.forward_radix.fft_len == m && c.forward_radix.batch_count == batch);
                assert(c.inverse_radix.fft_len == m && c.inverse_radix.batch_count == batch);
                assert(batch * m == m * batch) by (nonlinear_arith);
            },
        }
    }
}

} // verus!
