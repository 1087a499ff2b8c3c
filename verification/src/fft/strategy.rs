//! Axis strategies for dense complex FFTs: radix-two for power-of-two axes,
//! Bluestein chirp-z for the rest, and the single-workgroup fused kernel where
//! the device allows it.

use crate::error::{message_of, HephaestusError};
use crate::text::{decimal, decimal_spec};
use vstd::prelude::*;

verus! {

/// Invocations per workgroup of the staged FFT kernels.
pub const WORKGROUP_SIZE: u32 = 256;

/// Invocations per workgroup of the fused FFT kernel.
pub const FUSED_WORKGROUP_SIZE: u32 = 64;

/// Longest axis the fused FFT kernel transforms in one workgroup.
pub const FUSED_MAX_LENGTH: usize = 1024;

/// `log2(FUSED_MAX_LENGTH)`.
pub const FUSED_MAX_LENGTH_LOG2: usize = 10;

/// Workgroup storage the fused FFT kernel declares, in bytes.
pub const FUSED_WORKGROUP_STORAGE_BYTES: u32 = 12288;

/// How one FFT axis is transformed.
#[derive(Debug, Clone, Copy, PartialEq, Eq, Structural)]
pub enum AxisStrategy {
    /// One workgroup per line, the whole radix-two transform in shared memory.
    FusedRadix2,
    /// Staged radix-two (or radix-four) passes through a global workspace.
    StagedRadix2,
    /// Bluestein chirp-z transform of an `n`-point axis through an `m`-point
    /// power-of-two convolution.
    ChirpZ { n: usize, m: usize },
}

/// One of the three FFT axes; `X` varies fastest.
#[derive(Debug, Clone, Copy, PartialEq, Eq, Structural)]
pub enum Axis {
    X,
    Y,
    Z,
}

/// Device capability limits that FFT planning consults.
#[derive(Debug, Clone, Copy, PartialEq, Eq, Structural)]
pub struct DeviceLimits {
    pub max_buffer_size: u64,
    pub max_compute_workgroup_size_x: u32,
    pub max_compute_workgroup_size_y: u32,
    pub max_compute_workgroup_size_z: u32,
    pub max_compute_invocations_per_workgroup: u32,
    pub max_compute_workgroup_storage_size: u32,
    pub max_storage_buffers_per_shader_stage: Option<u32>,
    pub max_buffers_and_acceleration_structures_per_shader_stage: Option<u32>,
    pub max_immediate_size: u32,
}

/// `n` is a power of two.
pub open spec fn is_pow2(n: int) -> bool
    decreases n,
{
    if n <= 0 {
        false
    } else if n == 1 {
        true
    } else {
        n % 2 == 0 && is_pow2(n / 2)
    }
}

/// The first of `p, 2p, 4p, ...` that is at least `n`.
pub open spec fn pow2_at_least(p: int, n: int) -> int
    decreases (if p < n { n - p } else { 0 }),
    when p >= 1
{
    if p >= n {
        p
    } else {
        pow2_at_least(2 * p, n)
    }
}

/// The smallest power of two that is at least `n`.
pub open spec fn next_pow2(n: int) -> int {
    pow2_at_least(1, n)
}

/// Number of trailing zero bits of a positive `n`.
pub open spec fn tz(n: int) -> int
    decreases n,
{
    if n <= 0 || n % 2 != 0 {
        0
    } else {
        1 + tz(n / 2)
    }
}

/// `u32::trailing_zeros`: the trailing zero bits, 32 for zero.
pub open spec fn tz32(n: u32) -> int {
    if n == 0 {
        32
    } else {
        tz(n as int)
    }
}

proof fn lemma_pow2_double(p: int)
    requires
        is_pow2(p),
    ensures
        is_pow2(2 * p),
{
    assert((2 * p) / 2 == p);
}

proof fn lemma_pow2_at_least(p: int, n: int)
    requires
        p >= 1,
        is_pow2(p),
        p == 1 || p / 2 < n,
    ensures
        is_pow2(pow2_at_least(p, n)),
        pow2_at_least(p, n) >= n,
        pow2_at_least(p, n) >= p,
        pow2_at_least(p, n) == 1 || pow2_at_least(p, n) / 2 < n,
    decreases (if p < n { n - p } else { 0 }),
{
    if p < n {
        lemma_pow2_double(p);
        lemma_pow2_at_least(2 * p, n);
    }
}

/// Rounding law: the rounded length is a power of two, covers `n`, and is the
/// smallest such power (its half, when it has one, is below `n`).
pub proof fn lemma_next_pow2(n: int)
    ensures
        is_pow2(next_pow2(n)),
        next_pow2(n) >= n,
        next_pow2(n) >= 1,
        next_pow2(n) == 1 || next_pow2(n) / 2 < n,
{
    lemma_pow2_at_least(1, n);
}

/// A power of two that already covers `n` is its own rounding.
pub proof fn lemma_next_pow2_fixed(n: int)
    requires
        is_pow2(n),
    ensures
        next_pow2(n) == n,
{
    lemma_pow2_at_least(1, n);
    lemma_pow2_unique(next_pow2(n), n);
}

proof fn lemma_pow2_unique(a: int, n: int)
    requires
        is_pow2(a),
        is_pow2(n),
        a >= n,
        a == 1 || a / 2 < n,
    ensures
        a == n,
    decreases a,
{
    if a > 1 && n > 1 {
        lemma_pow2_unique(a / 2, n / 2);
    } else if a > 1 {
        // n == 1 and a / 2 < 1 is impossible for an even a > 1.
        assert(a / 2 >= 1);
    }
}

fn invalid(message: String) -> (e: HephaestusError)
    ensures
        e == (HephaestusError::InvalidConfiguration { message }),
{
    HephaestusError::InvalidConfiguration { message }
}

fn invalid_with(prefix: &str, n: usize, suffix: &str) -> (e: HephaestusError)
    ensures
        e is InvalidConfiguration,
        message_of(e) == prefix@ + decimal_spec(n as nat) + suffix@,
{
    let mut message = String::from_str(prefix);
    let digits = decimal(n as u64);
    message.append(digits.as_str());
    message.append(suffix);
    invalid(message)
}

/// The smallest power of two that is at least `n`.
pub fn next_power_of_two(n: usize) -> (r: Result<usize, HephaestusError>)
    ensures
        r is Ok <==> next_pow2(n as int) <= usize::MAX,
        r is Ok ==> r->Ok_0 == next_pow2(n as int),
        r is Err ==> r->Err_0 is InvalidConfiguration && message_of(r->Err_0) == "FFT length "@
            + decimal_spec(n as nat) + " cannot be rounded to a power of two"@,
{
    let mut power: usize = 1;
    while power < n
        invariant
            power >= 1,
            is_pow2(power as int),
            pow2_at_least(power as int, n as int) == next_pow2(n as int),
        decreases usize::MAX - power,
    {
        match power.checked_mul(2) {
            Some(doubled) => {
                proof { lemma_pow2_double(power as int); }
                power = doubled;
            },
            None => {
                proof {
                    lemma_pow2_double(power as int);
                    lemma_pow2_at_least(2 * power, n as int);
                }
                return Err(
                    invalid_with("FFT length ", n, " cannot be rounded to a power of two"),
                );
            },
        }
    }
    Ok(power)
}

/// Whether `n` is a power of two.
pub fn is_power_of_two(n: usize) -> (b: bool)
    ensures
        b == is_pow2(n as int),
{
    if n == 0 {
        return false;
    }
    let mut m = n;
    while m % 2 == 0
        invariant
            m > 0,
            is_pow2(m as int) == is_pow2(n as int),
        decreases m,
    {
        m = m / 2;
    }
    m == 1
}

/// `n.trailing_zeros()` for a `u32`.
pub fn trailing_zeros_u32(n: u32) -> (r: u32)
    ensures
        r == tz32(n),
{
    if n == 0 {
        return 32;
    }
    let mut m = n;
    let mut count: u32 = 0;
    while m % 2 == 0
        invariant
            m > 0,
            count + tz(m as int) == tz(n as int),
            m * pow2_floor(count as int) == n,
        decreases m,
    {
        proof {
            lemma_pow2_floor_grows(count as int);
            let p = pow2_floor(count as int);
            assert(2 * p <= n && (m / 2) * (2 * p) == n) by (nonlinear_arith)
                requires
                    m * p == n,
                    m % 2 == 0,
                    m > 0,
                    p > 0,
            ;
        }
        m = m / 2;
        count = count + 1;
    }
    count
}

proof fn lemma_pow2_floor_grows(k: int)
    requires
        k >= 0,
    ensures
        pow2_floor(k) >= k + 1,
    decreases k,
{
    if k > 0 {
        lemma_pow2_floor_grows(k - 1);
    }
}

/// `2^k`.
pub open spec fn pow2_floor(k: int) -> int
    decreases k,
{
    if k <= 0 {
        1
    } else {
        2 * pow2_floor(k - 1)
    }
}

/// The extent of `axis` in `dims`.
pub open spec fn axis_len_spec(axis: Axis, dims: [usize; 3]) -> int {
    match axis {
        Axis::X => dims[0] as int,
        Axis::Y => dims[1] as int,
        Axis::Z => dims[2] as int,
    }
}

/// The number of independent lines along `axis`: the product of the other
/// two extents.
pub open spec fn batch_spec(axis: Axis, dims: [usize; 3]) -> int {
    match axis {
        Axis::X => dims[1] * dims[2],
        Axis::Y => dims[0] * dims[2],
        Axis::Z => dims[0] * dims[1],
    }
}

/// The shader's index of `axis`.
pub open spec fn axis_index(axis: Axis) -> int {
    match axis {
        Axis::X => 0,
        Axis::Y => 1,
        Axis::Z => 2,
    }
}

/// The axis letter used in diagnostics.
pub open spec fn axis_label(axis: Axis) -> Seq<char> {
    match axis {
        Axis::X => seq!['X'],
        Axis::Y => seq!['Y'],
        Axis::Z => seq!['Z'],
    }
}

impl Axis {
    /// The extent of this axis in `dimensions`.
    pub fn len(self, dimensions: [usize; 3]) -> (n: usize)
        ensures
            n == axis_len_spec(self, dimensions),
    {
        match self {
            Axis::X => dimensions[0],
            Axis::Y => dimensions[1],
            Axis::Z => dimensions[2],
        }
    }

    /// The number of lines along this axis, `None` when it overflows.
    pub fn batch_count(self, dimensions: [usize; 3]) -> (n: Option<usize>)
        ensures
            n is Some <==> batch_spec(self, dimensions) <= usize::MAX,
            n is Some ==> n->0 == batch_spec(self, dimensions),
    {
        match self {
            Axis::X => dimensions[1].checked_mul(dimensions[2]),
            Axis::Y => dimensions[0].checked_mul(dimensions[2]),
            Axis::Z => dimensions[0].checked_mul(dimensions[1]),
        }
    }

    /// The index the shaders use for this axis.
    pub fn shader_index(self) -> (i: u32)
        ensures
            i == axis_index(self),
    {
        match self {
            Axis::X => 0,
            Axis::Y => 1,
            Axis::Z => 2,
        }
    }

    /// The axis's name as it appears in messages.
    pub fn name(self) -> (s: &'static str)
        ensures
            s@ == axis_label(self),
    {
        match self {
            Axis::X => {
                proof {
                    reveal_strlit("X");
                }
                "X"
            },
            Axis::Y => {
                proof {
                    reveal_strlit("Y");
                }
                "Y"
            },
            Axis::Z => {
                proof {
                    reveal_strlit("Z");
                }
                "Z"
            },
        }
    }
}

/// The strategy an `n`-point axis starts from: radix-two for powers of two,
/// otherwise Bluestein through the power of two covering `2n - 1`.
pub open spec fn strategy_spec(n: int) -> AxisStrategy {
    if is_pow2(n) {
        AxisStrategy::StagedRadix2
    } else {
        AxisStrategy::ChirpZ { n: n as usize, m: next_pow2(2 * n - 1) as usize }
    }
}

/// Whether `axis_strategy_for` can plan an `n`-point axis.
pub open spec fn strategy_plannable(n: int) -> bool {
    is_pow2(n) || (2 * n - 1 >= 0 && 2 * n <= usize::MAX && next_pow2(2 * n - 1) <= usize::MAX)
}

/// The initial strategy for an `n`-point axis.
pub fn axis_strategy_for(n: usize) -> (r: Result<AxisStrategy, HephaestusError>)
    ensures
        r is Ok <==> strategy_plannable(n as int),
        r is Ok ==> r->Ok_0 == strategy_spec(n as int),
        r is Err ==> r->Err_0 is InvalidConfiguration && message_of(r->Err_0) == if n == 0 || 2 * n
            > usize::MAX {
            "Bluestein convolution length overflows for axis "@ + decimal_spec(n as nat)
        } else {
            "FFT length "@ + decimal_spec((2 * n - 1) as nat) + " cannot be rounded to a power of two"@
        },
{
    proof {
        reveal_strlit("");
        assert(("Bluestein convolution length overflows for axis "@ + decimal_spec(n as nat) + ""@)
            =~= "Bluestein convolution length overflows for axis "@ + decimal_spec(n as nat));
    }
    if is_power_of_two(n) {
        return Ok(AxisStrategy::StagedRadix2);
    }
    let doubled = match n.checked_mul(2) {
        Some(d) => d,
        None => {
            return Err(invalid_with("Bluestein convolution length overflows for axis ", n, ""));
        },
    };
    if doubled == 0 {
        return Err(invalid_with("Bluestein convolution length overflows for axis ", n, ""));
    }
    let m = next_power_of_two(doubled - 1)?;
    Ok(AxisStrategy::ChirpZ { n, m })
}

/// Whether `limits` and the dispatch grid admit the fused kernel for an axis
/// of `axis_len` points and `batch_count` lines.
pub open spec fn fused_admissible(
    axis_len: int,
    batch_count: int,
    limits: DeviceLimits,
    max_workgroups_per_dimension: int,
) -> bool {
    &&& 1 < axis_len <= FUSED_MAX_LENGTH
    &&& limits.max_compute_workgroup_size_x >= FUSED_WORKGROUP_SIZE
    &&& limits.max_compute_invocations_per_workgroup >= FUSED_WORKGROUP_SIZE
    &&& limits.max_compute_workgroup_storage_size >= FUSED_WORKGROUP_STORAGE_BYTES
    &&& batch_count <= max_workgroups_per_dimension * max_workgroups_per_dimension
}

/// Promote a staged radix-two axis to the fused kernel when it is admissible;
/// every other strategy is kept.
pub fn select_fused_strategy(
    strategy: AxisStrategy,
    axis_len: usize,
    batch_count: u32,
    limits: DeviceLimits,
    max_workgroups_per_dimension: u32,
) -> (s: AxisStrategy)
    ensures
        s == if strategy == AxisStrategy::StagedRadix2 && fused_admissible(
            axis_len as int,
            batch_count as int,
            limits,
            max_workgroups_per_dimension as int,
        ) {
            AxisStrategy::FusedRadix2
        } else {
            strategy
        },
{
    let cap = max_workgroups_per_dimension as u64;
    assert(cap * cap <= u64::MAX) by (nonlinear_arith)
        requires
            cap <= u32::MAX,
    ;
    let grid_capacity = cap * cap;
    let staged = match strategy {
        AxisStrategy::StagedRadix2 => true,
        _ => false,
    };
    if staged && axis_len > 1 && axis_len <= FUSED_MAX_LENGTH
        && limits.max_compute_workgroup_size_x >= FUSED_WORKGROUP_SIZE
        && limits.max_compute_invocations_per_workgroup >= FUSED_WORKGROUP_SIZE
        && limits.max_compute_workgroup_storage_size >= FUSED_WORKGROUP_STORAGE_BYTES
        && (batch_count as u64) <= grid_capacity {
        AxisStrategy::FusedRadix2
    } else {
        strategy
    }
}

/// A host extent narrowed to the shaders' `u32` domain.
pub fn dimension(value: usize, name: &str) -> (r: Result<u32, HephaestusError>)
    ensures
        r is Ok <==> value <= u32::MAX,
        r is Ok ==> r->Ok_0 == value,
        r is Err ==> r->Err_0 is InvalidConfiguration && message_of(r->Err_0) == "FFT "@ + name@
            + "="@ + decimal_spec(value as nat) + " exceeds the shader u32 domain"@,
{
    if value <= u32::MAX as usize {
        Ok(value as u32)
    } else {
        let mut message = String::from_str("FFT ");
        message.append(name);
        message.append("=");
        let digits = decimal(value as u64);
        message.append(digits.as_str());
        message.append(" exceeds the shader u32 domain");
        Err(invalid(message))
    }
}

/// The transform length one axis stages through the workspace, or `None`
/// when the axis needs no workspace (unit extent or fused kernel).
pub open spec fn axis_transform_len(axis: Axis, dims: [usize; 3], strategy: AxisStrategy) -> Option<
    int,
> {
    if axis_len_spec(axis, dims) == 1 {
        None
    } else {
        match strategy {
            AxisStrategy::FusedRadix2 => None,
            AxisStrategy::StagedRadix2 => Some(axis_len_spec(axis, dims)),
            AxisStrategy::ChirpZ { m, .. } => Some(m as int),
        }
    }
}

/// The workspace elements one axis needs: its transform length times its
/// line count.
pub open spec fn axis_workspace_spec(axis: Axis, dims: [usize; 3], strategy: AxisStrategy) -> Option<
    int,
> {
    match axis_transform_len(axis, dims, strategy) {
        None => None,
        Some(len) => Some(len * batch_spec(axis, dims)),
    }
}

/// The workspace count of one axis is computable without overflow.
pub open spec fn axis_workspace_fits(axis: Axis, dims: [usize; 3], strategy: AxisStrategy) -> bool {
    match axis_transform_len(axis, dims, strategy) {
        None => true,
        Some(len) => batch_spec(axis, dims) <= usize::MAX && len * batch_spec(axis, dims)
            <= usize::MAX,
    }
}

/// Workspace elements that one axis stages through global memory.
pub fn axis_workspace_elements(dimensions: [usize; 3], axis: Axis, strategy: AxisStrategy) -> (r:
    Result<Option<usize>, HephaestusError>)
    ensures
        r is Ok <==> axis_workspace_fits(axis, dimensions, strategy),
        r is Ok ==> match axis_workspace_spec(axis, dimensions, strategy) {
            None => r->Ok_0 is None,
            Some(n) => r->Ok_0 is Some && r->Ok_0->0 == n,
        },
        r is Err ==> r->Err_0 is InvalidConfiguration,
{
    if axis.len(dimensions) == 1 {
        return Ok(None);
    }
    let transform_len = match strategy {
        AxisStrategy::FusedRadix2 => {
            return Ok(None);
        },
        AxisStrategy::StagedRadix2 => axis.len(dimensions),
        AxisStrategy::ChirpZ { m, .. } => m,
    };
    let batch = match axis.batch_count(dimensions) {
        Some(b) => b,
        None => {
            return Err(invalid(String::from_str("FFT axis batch count overflows")));
        },
    };
    match transform_len.checked_mul(batch) {
        Some(elements) => Ok(Some(elements)),
        None => {
            let mut message = String::from_str("FFT workspace element count overflows for ");
            message.append(axis.name());
            Err(invalid(message))
        },
    }
}

/// The twiddle-table length an axis needs: none for the fused kernel, the
/// axis extent for staged radix-two, the padded length for Bluestein.
pub open spec fn axis_root(len: int, strategy: AxisStrategy) -> int {
    match strategy {
        AxisStrategy::FusedRadix2 => 0,
        AxisStrategy::StagedRadix2 => len,
        AxisStrategy::ChirpZ { m, .. } => m as int,
    }
}

/// The larger of two integers.
pub open spec fn max_int(a: int, b: int) -> int {
    if a >= b {
        a
    } else {
        b
    }
}

/// The shared radix twiddle-table length: the largest axis root, zero when
/// every axis is fused.
pub open spec fn radix_root_spec(dims: [usize; 3], strategies: [AxisStrategy; 3]) -> int {
    max_int(
        max_int(axis_root(dims[0] as int, strategies[0]), axis_root(dims[1] as int, strategies[1])),
        axis_root(dims[2] as int, strategies[2]),
    )
}

fn root_of(len: usize, strategy: AxisStrategy) -> (r: usize)
    ensures
        r == axis_root(len as int, strategy),
{
    match strategy {
        AxisStrategy::FusedRadix2 => 0,
        AxisStrategy::StagedRadix2 => len,
        AxisStrategy::ChirpZ { m, .. } => m,
    }
}

/// The shared radix twiddle-table length of a plan.
pub fn radix_root_length(dimensions: [usize; 3], strategies: [AxisStrategy; 3]) -> (r: usize)
    ensures
        r == radix_root_spec(dimensions, strategies),
{
    let a = root_of(dimensions[0], strategies[0]);
    let b = root_of(dimensions[1], strategies[1]);
    let c = root_of(dimensions[2], strategies[2]);
    let ab = if a >= b {
        a
    } else {
        b
    };
    if ab >= c {
        ab
    } else {
        c
    }
}

/// `n.trailing_zeros()` for a positive `usize`.
pub fn trailing_zeros_usize(n: usize) -> (r: usize)
    requires
        n > 0,
    ensures
        r == tz(n as int),
        r < 64,
{
    let mut m = n;
    let mut count: usize = 0;
    while m % 2 == 0
        invariant
            m > 0,
            count + tz(m as int) == tz(n as int),
            m * pow2_floor(count as int) == n,
        decreases m,
    {
        proof {
            lemma_pow2_floor_grows(count as int);
            let p = pow2_floor(count as int);
            assert(2 * p <= n && (m / 2) * (2 * p) == n) by (nonlinear_arith)
                requires
                    m * p == n,
                    m % 2 == 0,
                    m > 0,
                    p > 0,
            ;
        }
        m = m / 2;
        count = count + 1;
    }
    proof { lemma_pow2_floor_exceeds(count as int, n as int, m as int); }
    count
}

proof fn lemma_pow2_floor_exceeds(k: int, n: int, m: int)
    requires
        k >= 0,
        m > 0,
        m * pow2_floor(k) == n,
        n <= usize::MAX,
    ensures
        k < 64,
{
    if k >= 64 {
        lemma_pow2_floor_mono(64, k);
        lemma_pow2_floor_matches(64);
        vstd::arithmetic::power2::lemma2_to64_rest();
        assert(m * pow2_floor(k) >= pow2_floor(k)) by (nonlinear_arith)
            requires
                m > 0,
                pow2_floor(k) > 0,
        ;
    }
}

proof fn lemma_pow2_floor_matches(k: nat)
    ensures
        pow2_floor(k as int) == vstd::arithmetic::power2::pow2(k),
    decreases k,
{
    if k > 0 {
        lemma_pow2_floor_matches((k - 1) as nat);
        vstd::arithmetic::power2::lemma_pow2_unfold(k);
    } else {
        vstd::arithmetic::power2::lemma2_to64();
    }
}

proof fn lemma_pow2_floor_mono(a: int, b: int)
    requires
        0 <= a <= b,
    ensures
        pow2_floor(a) <= pow2_floor(b),
        pow2_floor(a) > 0,
    decreases b - a,
{
    if a < b {
        lemma_pow2_floor_mono(a, b - 1);
    } else {
        lemma_pow2_floor_pos(a);
    }
}

proof fn lemma_pow2_floor_pos(k: int)
    ensures
        pow2_floor(k) > 0,
    decreases k,
{
    if k > 0 {
        lemma_pow2_floor_pos(k - 1);
    }
}

/// Bluestein law: an axis that is not a power of two is transformed through
/// a power-of-two convolution long enough for the linear convolution of
/// `2n - 1` points, and no longer than needed (half of it would not cover).
pub proof fn lemma_chirp_length(n: int)
    requires
        !is_pow2(n),
        strategy_plannable(n),
    ensures
        strategy_spec(n) matches AxisStrategy::ChirpZ { n: a, m } && a == n && is_pow2(m as int)
            && m >= 2 * n - 1 && (m == 1 || m / 2 < 2 * n - 1),
{
    lemma_next_pow2(2 * n - 1);
}

/// Radix law: a power-of-two axis is transformed by staged radix-two passes.
pub proof fn lemma_pow2_axes_are_radix(n: int)
    requires
        is_pow2(n),
    ensures
        strategy_plannable(n),
        strategy_spec(n) == AxisStrategy::StagedRadix2,
{
}

} // verus!
