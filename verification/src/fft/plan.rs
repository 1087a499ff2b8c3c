//! Storage limits, twiddle-table parameters and the radix pass schedule of a
//! dense complex FFT plan.

use crate::error::{message_of, HephaestusError};
use crate::fft::strategy::{
    axis_workspace_elements, axis_workspace_fits, axis_workspace_spec, dimension, max_int,
    is_pow2, is_power_of_two, radix_root_length, radix_root_spec, trailing_zeros_u32,
    trailing_zeros_usize, tz, tz32, Axis, AxisStrategy,
    FUSED_MAX_LENGTH, FUSED_MAX_LENGTH_LOG2, WORKGROUP_SIZE,
};
use crate::pipeline::ceil_div;
use crate::text::{decimal, decimal_spec};
use std::collections::TryReserveError;
use vstd::prelude::*;

verus! {

/// Elements of the fused kernel's twiddle table: the roots plus one scale per
/// power of two up to `FUSED_MAX_LENGTH`.
pub const FUSED_TWIDDLE_ELEMENTS: usize = FUSED_MAX_LENGTH + FUSED_MAX_LENGTH_LOG2 + 1;

/// The larger of two optional counts; `None` only when both are `None`.
pub open spec fn opt_max(a: Option<int>, b: Option<int>) -> Option<int> {
    match a {
        None => b,
        Some(x) => match b {
            None => Some(x),
            Some(y) => Some(max_int(x, y)),
        },
    }
}

/// The shared workspace length: the largest per-axis workspace.
pub open spec fn workspace_spec(dims: [usize; 3], strategies: [AxisStrategy; 3]) -> Option<int> {
    opt_max(
        opt_max(
            axis_workspace_spec(Axis::X, dims, strategies[0]),
            axis_workspace_spec(Axis::Y, dims, strategies[1]),
        ),
        axis_workspace_spec(Axis::Z, dims, strategies[2]),
    )
}

/// Some axis uses the fused kernel.
pub open spec fn any_fused(strategies: [AxisStrategy; 3]) -> bool {
    strategies[0] == AxisStrategy::FusedRadix2 || strategies[1] == AxisStrategy::FusedRadix2
        || strategies[2] == AxisStrategy::FusedRadix2
}

/// Elements of the radix twiddle table for root length `root`: the roots plus
/// one scale per power of two up to `root`.
pub open spec fn radix_twiddle_spec(root: int) -> int {
    root + tz(root) + 1
}

/// A buffer of `elements` values of `elem_size` bytes fits the device limit.
pub open spec fn bytes_within(elements: int, elem_size: int, max_buffer_size: int) -> bool {
    elements * elem_size <= max_buffer_size
}

/// Every buffer and dispatch of the plan fits the device.
pub open spec fn storage_admissible(
    max_buffer_size: int,
    max_workgroups_per_dimension: int,
    volume_elements: int,
    dims: [usize; 3],
    strategies: [AxisStrategy; 3],
    elem_size: int,
) -> bool {
    let ws = workspace_spec(dims, strategies);
    let root = radix_root_spec(dims, strategies);
    &&& dims[0] <= u32::MAX && dims[1] <= u32::MAX && dims[2] <= u32::MAX
    &&& axis_workspace_fits(Axis::X, dims, strategies[0])
    &&& axis_workspace_fits(Axis::Y, dims, strategies[1])
    &&& axis_workspace_fits(Axis::Z, dims, strategies[2])
    &&& root > 0 ==> radix_twiddle_spec(root) <= usize::MAX
    &&& ws is Some ==> ws->0 <= u32::MAX
    &&& bytes_within(volume_elements, elem_size, max_buffer_size)
    &&& ws is Some ==> bytes_within(ws->0, elem_size, max_buffer_size)
    &&& root > 0 ==> bytes_within(radix_twiddle_spec(root), elem_size, max_buffer_size)
    &&& any_fused(strategies) ==> bytes_within(
        FUSED_TWIDDLE_ELEMENTS as int,
        elem_size,
        max_buffer_size,
    )
    &&& ws is Some ==> ceil_div(ws->0, WORKGROUP_SIZE as int) <= max_workgroups_per_dimension
}

fn invalid(message: String) -> (e: HephaestusError)
    ensures
        e == (HephaestusError::InvalidConfiguration { message }),
{
    HephaestusError::InvalidConfiguration { message }
}

fn invalid_text(message: &str) -> (e: HephaestusError)
    ensures
        e is InvalidConfiguration,
        message_of(e) == message@,
{
    HephaestusError::InvalidConfiguration { message: String::from_str(message) }
}

fn max_option(a: Option<usize>, b: Option<usize>) -> (r: Option<usize>)
    ensures
        match opt_max(
            match a {
                None => None,
                Some(x) => Some(x as int),
            },
            match b {
                None => None,
                Some(x) => Some(x as int),
            },
        ) {
            None => r is None,
            Some(v) => r is Some && r->0 == v,
        },
{
    match a {
        None => b,
        Some(x) => match b {
            None => Some(x),
            Some(y) => if x >= y {
                Some(x)
            } else {
                Some(y)
            },
        },
    }
}

/// Check that a buffer of `elements` values of `elem_size` bytes fits.
fn check_bytes(name: &str, elements: usize, elem_size: usize, max_buffer_size: u64) -> (r: Result<
    (),
    HephaestusError,
>)
    ensures
        r is Ok <==> bytes_within(elements as int, elem_size as int, max_buffer_size as int),
        r is Err ==> r->Err_0 is InvalidConfiguration,
{
    match (elements as u64).checked_mul(elem_size as u64) {
        None => {
            let mut message = String::from_str("FFT ");
            message.append(name);
            message.append(" byte count overflows");
            Err(invalid(message))
        },
        Some(bytes) => {
            if bytes > max_buffer_size {
                let mut message = String::from_str("FFT ");
                message.append(name);
                message.append(" requires ");
                let b = decimal(bytes);
                message.append(b.as_str());
                message.append(" bytes, exceeding device max_buffer_size=");
                let m = decimal(max_buffer_size);
                message.append(m.as_str());
                Err(invalid(message))
            } else {
                Ok(())
            }
        },
    }
}

/// Check a plan's buffers and dispatches against the device limits and
/// return the shared workspace length (`None` when no axis stages through
/// global memory). `T` is the stored scalar.
pub fn validate_storage_limit<T>(
    max_buffer_size: u64,
    max_workgroups_per_dimension: u32,
    volume_elements: usize,
    dimensions: [usize; 3],
    strategies: [AxisStrategy; 3],
) -> (r: Result<Option<usize>, HephaestusError>)
    ensures
        r is Ok <==> storage_admissible(
            max_buffer_size as int,
            max_workgroups_per_dimension as int,
            volume_elements as int,
            dimensions,
            strategies,
            vstd::layout::size_of::<T>() as int,
        ),
        r is Ok ==> match workspace_spec(dimensions, strategies) {
            None => r->Ok_0 is None,
            Some(n) => r->Ok_0 is Some && r->Ok_0->0 == n,
        },
        r is Err ==> r->Err_0 is InvalidConfiguration,
{
    dimension(dimensions[0], "x extent")?;
    dimension(dimensions[1], "y extent")?;
    dimension(dimensions[2], "z extent")?;
    let wx = axis_workspace_elements(dimensions, Axis::X, strategies[0])?;
    let wy = axis_workspace_elements(dimensions, Axis::Y, strategies[1])?;
    let wz = axis_workspace_elements(dimensions, Axis::Z, strategies[2])?;
    let workspace_elements = max_option(max_option(wx, wy), wz);
    let root = radix_root_length(dimensions, strategies);
    let radix_twiddle_elements: usize = if root > 0 {
        let zeros = trailing_zeros_usize(root);
        match root.checked_add(zeros + 1) {
            Some(n) => n,
            None => {
                return Err(invalid_text("radix twiddle element count overflows"));
            },
        }
    } else {
        0
    };
    let fused = strategies[0] == AxisStrategy::FusedRadix2 || strategies[1]
        == AxisStrategy::FusedRadix2 || strategies[2] == AxisStrategy::FusedRadix2;
    if let Some(ws) = workspace_elements {
        if ws > u32::MAX as usize {
            let mut message = String::from_str("FFT workspace element count ");
            let digits = decimal(ws as u64);
            message.append(digits.as_str());
            message.append(" exceeds the shader u32 address domain");
            return Err(invalid(message));
        }
    }
    let elem_size = core::mem::size_of::<T>();
    check_bytes("volume", volume_elements, elem_size, max_buffer_size)?;
    if let Some(ws) = workspace_elements {
        check_bytes("workspace", ws, elem_size, max_buffer_size)?;
    }
    if root > 0 {
        check_bytes("radix twiddle", radix_twiddle_elements, elem_size, max_buffer_size)?;
    }
    if fused {
        check_bytes("fused twiddle", FUSED_TWIDDLE_ELEMENTS, elem_size, max_buffer_size)?;
    }
    if let Some(ws) = workspace_elements {
        let groups = ws / (WORKGROUP_SIZE as usize) + if ws % (WORKGROUP_SIZE as usize) == 0 {
            0
        } else {
            1
        };
        assert(groups == ceil_div(ws as int, WORKGROUP_SIZE as int));
        if groups > max_workgroups_per_dimension as usize {
            let mut message = String::from_str("FFT dispatch requires ");
            let g = decimal(groups as u64);
            message.append(g.as_str());
            message.append(
                " x workgroups, exceeding device max_compute_workgroups_per_dimension=",
            );
            let m = decimal(max_workgroups_per_dimension as u64);
            message.append(m.as_str());
            return Err(invalid(message));
        }
    }
    Ok(workspace_elements)
}

/// Calls `Vec::try_reserve_exact` on `values`. The contents are unchanged.
/// Whether the allocator grants the request depends on the machine, so
/// success is not stated; std documents that a request beyond `isize::MAX`
/// bytes fails.
#[verifier::external_body]
fn try_reserve_exact_values<T>(values: &mut Vec<T>, capacity: usize) -> (r: Result<
    (),
    TryReserveError,
>)
    ensures
        final(values)@ == old(values)@,
        vstd::layout::size_of::<T>() > 0 && capacity * vstd::layout::size_of::<T>() > isize::MAX
            ==> r is Err,
{
    values.try_reserve_exact(capacity)
}

/// The message prefix of a failed host staging allocation.
pub open spec fn host_allocation_prefix(role: Seq<char>, capacity: nat) -> Seq<char> {
    "FFT "@ + role + " host allocation for "@ + crate::text::decimal_spec(capacity)
        + " values failed: "@
}

/// An empty host vector with room for `capacity` values, or a typed
/// allocation failure naming `role` and `capacity`.
pub fn try_host_vector<T>(capacity: usize, role: &str) -> (r: Result<Vec<T>, HephaestusError>)
    ensures
        r is Ok ==> r->Ok_0@.len() == 0,
        r is Err ==> (r->Err_0 matches HephaestusError::AllocationFailed { message }
            && host_allocation_prefix(role@, capacity as nat).is_prefix_of(message@)),
        vstd::layout::size_of::<T>() > 0 && capacity * vstd::layout::size_of::<T>() > isize::MAX
            ==> r is Err,
{
    let mut values: Vec<T> = Vec::new();
    match try_reserve_exact_values(&mut values, capacity) {
        Ok(()) => Ok(values),
        Err(error) => {
            let mut message = String::from_str("FFT ");
            message.append(role);
            message.append(" host allocation for ");
            let digits = decimal(capacity as u64);
            message.append(digits.as_str());
            message.append(" values failed: ");
            let ghost prefix = message@;
            let detail = error.to_string();
            message.append(detail.as_str());
            assert(prefix.is_prefix_of(message@)) by {
                assert(message@.subrange(0, prefix.len() as int) =~= prefix);
            }
            Err(HephaestusError::AllocationFailed { message })
        },
    }
}

/// Whether `radix_parameters` accepts a root table of `root_length` for an
/// `fft_len`-point transform.
pub open spec fn radix_parameters_ok(root_length: int, fft_len: u32) -> bool {
    &&& root_length >= fft_len
    &&& is_pow2(root_length)
    &&& root_length / 2 <= u32::MAX
    &&& root_length + tz32(fft_len) <= u32::MAX
}

/// Half the root table length and the index of the first scale entry used by
/// an `fft_len`-point radix transform.
pub fn radix_parameters(root_length: usize, fft_len: u32) -> (r: Result<(u32, u32), HephaestusError>)
    ensures
        r is Ok <==> radix_parameters_ok(root_length as int, fft_len),
        r is Ok ==> r->Ok_0.0 == root_length / 2 && r->Ok_0.1 == root_length + tz32(fft_len),
        r is Err ==> r->Err_0 is InvalidConfiguration,
        root_length < fft_len || !is_pow2(root_length as int) ==> message_of(r->Err_0)
            == "radix root length "@ + decimal_spec(root_length as nat)
            + " does not cover FFT length "@ + decimal_spec(fft_len as nat),
        root_length >= fft_len && is_pow2(root_length as int) && root_length / 2 > u32::MAX
            ==> message_of(r->Err_0) == "radix root half length exceeds the shader u32 domain"@,
        root_length >= fft_len && is_pow2(root_length as int) && root_length / 2 <= u32::MAX
            && r is Err ==> message_of(r->Err_0) == if root_length + tz32(fft_len) > usize::MAX {
            "radix scale index overflows"@
        } else {
            "radix scale index exceeds the shader u32 domain"@
        },
{
    let fft_len_usize = fft_len as usize;
    if root_length < fft_len_usize || !is_power_of_two(root_length) {
        let mut message = String::from_str("radix root length ");
        let a = decimal(root_length as u64);
        message.append(a.as_str());
        message.append(" does not cover FFT length ");
        let b = decimal(fft_len as u64);
        message.append(b.as_str());
        return Err(invalid(message));
    }
    let half = root_length / 2;
    if half > u32::MAX as usize {
        return Err(invalid_text("radix root half length exceeds the shader u32 domain"));
    }
    let scale_offset = trailing_zeros_u32(fft_len) as usize;
    let scale_index = match root_length.checked_add(scale_offset) {
        Some(v) => v,
        None => {
            return Err(invalid_text("radix scale index overflows"));
        },
    };
    if scale_index > u32::MAX as usize {
        return Err(invalid_text("radix scale index exceeds the shader u32 domain"));
    }
    Ok((half as u32, scale_index as u32))
}

/// The Bluestein chirp phase of sample `index` of an `n`-point transform,
/// `pi * index^2 / n`, range-reduced before any rounding: `index^2` modulo
/// `2n` split into whole multiples of `pi` (zero or one) and the remaining
/// numerator over `n`, so the angle is `whole * pi + pi * remainder / n`.
pub fn chirp_phase(index: u32, n: u32) -> (r: (u32, u32))
    requires
        n > 0,
    ensures
        r.0 <= 1,
        r.1 < n,
        r.0 * n + r.1 == (index * index) % (2 * n),
{
    let i = index as u64;
    let period = 2 * (n as u64);
    assert(i * i <= u64::MAX) by (nonlinear_arith)
        requires
            i <= u32::MAX,
    ;
    let phase = (i * i) % period;
    let whole = phase / (n as u64);
    let remainder = phase % (n as u64);
    assert(whole <= 1 && whole * n + remainder == phase) by (nonlinear_arith)
        requires
            phase < 2 * n,
            n > 0,
            whole == phase / (n as u64),
            remainder == phase % (n as u64),
    ;
    (whole as u32, remainder as u32)
}

/// Uniform parameters of one radix pass.
#[derive(Debug, Clone, Copy, PartialEq, Eq, Structural)]
pub struct FftParams {
    pub n: u32,
    pub stage: u32,
    pub inverse: u32,
    pub batch_count: u32,
    pub root_half: u32,
    pub scale_index: u32,
}

/// The parameters of one pass.
pub open spec fn params_spec(
    n: u32,
    stage: u32,
    inverse: u32,
    batch_count: u32,
    root_half: u32,
    scale_index: u32,
) -> FftParams {
    FftParams { n, stage, inverse, batch_count, root_half, scale_index }
}

/// The ordered radix passes of one axis.
#[derive(Debug)]
pub struct RadixStages {
    /// The bit-reversal permutation pass.
    pub bit_reverse: FftParams,
    /// One butterfly pass per stage, in execution order.
    pub butterflies: Vec<FftParams>,
    /// The `1/n` scaling pass of an inverse transform.
    pub inverse_scale: Option<FftParams>,
    /// Transform length; zero for an axis without radix passes.
    pub fft_len: u32,
    /// Number of independent lines.
    pub batch_count: u32,
    /// Whether the passes are radix-four.
    pub radix_four: bool,
}

/// `stages` is the schedule with no passes.
pub open spec fn is_empty_stages(stages: RadixStages) -> bool {
    &&& stages.bit_reverse == params_spec(0, 0, 0, 0, 0, 0)
    &&& stages.butterflies@.len() == 0
    &&& stages.inverse_scale is None
    &&& stages.fft_len == 0
    &&& stages.batch_count == 0
    &&& !stages.radix_four
}

/// `stages` is the radix-two (`four == false`) or radix-four schedule of an
/// `fft_len`-point transform: a bit reversal, one butterfly per stage
/// (`log2(fft_len)` radix-two stages or half as many radix-four stages), and,
/// for an inverse transform, a final scaling pass.
pub open spec fn is_radix_stages(
    stages: RadixStages,
    fft_len: u32,
    batch_count: u32,
    inverse: bool,
    root_half: u32,
    scale_index: u32,
    four: bool,
) -> bool {
    let flag: u32 = if inverse {
        1
    } else {
        0
    };
    let count = if four {
        tz32(fft_len) / 2
    } else {
        tz32(fft_len)
    };
    &&& stages.bit_reverse == params_spec(fft_len, 0, flag, batch_count, root_half, scale_index)
    &&& stages.butterflies@.len() == count
    &&& forall|i: int|
        0 <= i < count ==> #[trigger] stages.butterflies@[i] == params_spec(
            fft_len,
            i as u32,
            flag,
            batch_count,
            root_half,
            scale_index,
        )
    &&& stages.inverse_scale == if inverse {
        Some(params_spec(fft_len, 0, 1, batch_count, root_half, scale_index))
    } else {
        None
    }
    &&& stages.fft_len == fft_len
    &&& stages.batch_count == batch_count
    &&& stages.radix_four == four
}

impl RadixStages {
    fn params(
        fft_len: u32,
        stage: u32,
        inverse: u32,
        batch_count: u32,
        root_half: u32,
        scale_index: u32,
    ) -> (p: FftParams)
        ensures
            p == params_spec(fft_len, stage, inverse, batch_count, root_half, scale_index),
    {
        FftParams { n: fft_len, stage, inverse, batch_count, root_half, scale_index }
    }

    /// The schedule with no passes.
    pub fn empty() -> (s: RadixStages)
        ensures
            is_empty_stages(s),
    {
        RadixStages {
            bit_reverse: Self::params(0, 0, 0, 0, 0, 0),
            butterflies: Vec::new(),
            inverse_scale: None,
            fft_len: 0,
            batch_count: 0,
            radix_four: false,
        }
    }

    fn build(
        fft_len: u32,
        batch_count: u32,
        inverse: bool,
        root_half: u32,
        scale_index: u32,
        four: bool,
    ) -> (s: RadixStages)
        ensures
            is_radix_stages(s, fft_len, batch_count, inverse, root_half, scale_index, four),
    {
        let flag: u32 = if inverse {
            1
        } else {
            0
        };
        let zeros = trailing_zeros_u32(fft_len);
        let count = if four {
            zeros / 2
        } else {
            zeros
        };
        let mut butterflies: Vec<FftParams> = Vec::new();
        let mut stage: u32 = 0;
        while stage < count
            invariant
                stage <= count,
                butterflies@.len() == stage,
                forall|i: int|
                    0 <= i < stage ==> #[trigger] butterflies@[i] == params_spec(
                        fft_len,
                        i as u32,
                        flag,
                        batch_count,
                        root_half,
                        scale_index,
                    ),
            decreases count - stage,
        {
            butterflies.push(
                Self::params(fft_len, stage, flag, batch_count, root_half, scale_index),
            );
            stage = stage + 1;
        }
        let inverse_scale = if inverse {
            Some(Self::params(fft_len, 0, 1, batch_count, root_half, scale_index))
        } else {
            None
        };
        RadixStages {
            bit_reverse: Self::params(fft_len, 0, flag, batch_count, root_half, scale_index),
            butterflies,
            inverse_scale,
            fft_len,
            batch_count,
            radix_four: four,
        }
    }

    /// The radix-two schedule of an `fft_len`-point transform.
    pub fn radix_two(
        fft_len: u32,
        batch_count: u32,
        inverse: bool,
        root_half: u32,
        scale_index: u32,
    ) -> (s: RadixStages)
        ensures
            is_radix_stages(s, fft_len, batch_count, inverse, root_half, scale_index, false),
    {
        Self::build(fft_len, batch_count, inverse, root_half, scale_index, false)
    }

    /// The radix-four schedule of an `fft_len`-point transform.
    pub fn radix_four(
        fft_len: u32,
        batch_count: u32,
        inverse: bool,
        root_half: u32,
        scale_index: u32,
    ) -> (s: RadixStages)
        ensures
            is_radix_stages(s, fft_len, batch_count, inverse, root_half, scale_index, true),
    {
        Self::build(fft_len, batch_count, inverse, root_half, scale_index, true)
    }
}

/// The pass schedule of one axis: none unless it is staged radix-two, else
/// radix-four when `log2(len)` is even and radix-two otherwise.
pub fn radix_stages(
    axis_len: usize,
    strategy: AxisStrategy,
    batch_count: u32,
    inverse: bool,
    root_length: usize,
) -> (r: Result<RadixStages, HephaestusError>)
    ensures
        strategy != AxisStrategy::StagedRadix2 ==> r is Ok && is_empty_stages(r->Ok_0),
        strategy == AxisStrategy::StagedRadix2 ==> {
            &&& r is Ok <==> axis_len <= u32::MAX && radix_parameters_ok(
                root_length as int,
                axis_len as u32,
            )
            &&& r is Ok ==> is_radix_stages(
                r->Ok_0,
                axis_len as u32,
                batch_count,
                inverse,
                (root_length / 2) as u32,
                (root_length + tz32(axis_len as u32)) as u32,
                tz32(axis_len as u32) % 2 == 0,
            )
        },
        r is Err ==> r->Err_0 is InvalidConfiguration,
{
    if strategy != AxisStrategy::StagedRadix2 {
        return Ok(RadixStages::empty());
    }
    let fft_len = dimension(axis_len, "radix axis length")?;
    let (root_half, scale_index) = radix_parameters(root_length, fft_len)?;
    if trailing_zeros_u32(fft_len) % 2 == 0 {
        Ok(RadixStages::radix_four(fft_len, batch_count, inverse, root_half, scale_index))
    } else {
        Ok(RadixStages::radix_two(fft_len, batch_count, inverse, root_half, scale_index))
    }
}

} // verus!
