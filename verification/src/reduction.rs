//! Reduction planning: the pass tree of a full reduction, the batching of
//! prepared reductions, and the shapes and kernels of rank-2 axis reductions.

use crate::error::{message_of, HephaestusError};
use crate::fft::strategy::{is_pow2, is_power_of_two};
use crate::layout::{c_strides_fit, c_strides_spec, shape_product, LayoutError, StridedLayout};
use crate::pipeline::{ceil_div, workgroups, BlockWidth};
use crate::text::{decimal, decimal_spec};
use vstd::prelude::*;

verus! {

/// One pass of a reduction tree.
#[derive(Debug, Clone, Copy, PartialEq, Eq, Structural)]
pub struct ReductionPass {
    /// Whether this pass runs the single-workgroup final kernel.
    pub final_pass: bool,
    /// Workgroups the pass dispatches.
    pub groups: u32,
    /// Values the pass writes.
    pub out_len: usize,
}

/// The work of a prepared full reduction.
#[derive(Debug)]
pub enum ReductionWork {
    /// Empty input: the output already holds the identity.
    Empty,
    /// One input value: a buffer copy.
    SingletonCopy,
    /// A tree of compute passes, in order.
    Tree(Vec<ReductionPass>),
}

/// The passes that reduce `len` values with workgroups of `w` lanes: one
/// final pass once `len <= w * w`, before that one pass per level that
/// shrinks `len` to `ceil(len / w)`.
pub open spec fn tree_spec(len: int, w: int) -> Seq<ReductionPass>
    decreases len,
    when w >= 2
{
    if len <= 1 {
        seq![]
    } else if len <= w * w {
        seq![ReductionPass { final_pass: true, groups: 1, out_len: 1 }]
    } else {
        proof {
            lemma_ceil_shrinks(len, w);
        }
        let out = ceil_div(len, w);
        seq![ReductionPass { final_pass: false, groups: out as u32, out_len: out as usize }]
            + tree_spec(out, w)
    }
}

/// Every non-final pass of the tree dispatches at most `u32::MAX` groups.
pub open spec fn tree_fits(len: int, w: int) -> bool
    decreases len,
    when w >= 2
{
    if len <= 1 || len <= w * w {
        true
    } else {
        proof {
            lemma_ceil_shrinks(len, w);
        }
        ceil_div(len, w) <= u32::MAX && tree_fits(ceil_div(len, w), w)
    }
}

/// One tree level strictly shrinks the values left.
pub proof fn lemma_ceil_shrinks(len: int, w: int)
    requires
        w >= 2,
        len > 1,
    ensures
        1 <= ceil_div(len, w) < len,
{
    assert(1 <= ceil_div(len, w) < len) by (nonlinear_arith)
        requires
            w >= 2,
            len > 1,
    ;
}

proof fn lemma_ceil_mono(a: int, b: int, w: int)
    requires
        w >= 1,
        0 <= a <= b,
    ensures
        ceil_div(a, w) <= ceil_div(b, w),
{
    assert(ceil_div(a, w) <= ceil_div(b, w)) by (nonlinear_arith)
        requires
            w >= 1,
            a <= b,
    ;
}

proof fn lemma_square_at_least_four(w: int)
    requires
        w >= 2,
    ensures
        w * w >= 4,
        w * w >= w,
{
    assert(w * w >= 4 && w * w >= w) by (nonlinear_arith)
        requires
            w >= 2,
    ;
}

/// The tree fits exactly when its first level does.
pub proof fn lemma_tree_fits(len: int, w: int)
    requires
        w >= 2,
        len >= 0,
    ensures
        tree_fits(len, w) <==> (len <= w * w || ceil_div(len, w) <= u32::MAX),
    decreases len,
{
    lemma_square_at_least_four(w);
    if len > w * w {
        lemma_ceil_shrinks(len, w);
        let out = ceil_div(len, w);
        lemma_tree_fits(out, w);
        lemma_ceil_mono(out, len, w);
        assert(ceil_div(len, w) == out);
    }
}

proof fn lemma_tree_unfold(len: int, w: int)
    requires
        w >= 2,
        len > w * w,
    ensures
        tree_spec(len, w) == seq![
            ReductionPass {
                final_pass: false,
                groups: ceil_div(len, w) as u32,
                out_len: ceil_div(len, w) as usize,
            },
        ] + tree_spec(ceil_div(len, w), w),
        ceil_div(len, w) > 1,
{
    lemma_square_at_least_four(w);
    lemma_ceil_shrinks(len, w);
    assert(ceil_div(len, w) > 1) by (nonlinear_arith)
        requires
            w >= 2,
            len > w * w,
    ;
}

/// Termination law of the reduction tree: a tree over more than one value is
/// non-empty, every level strictly shrinks the values left, exactly the last
/// pass is final, and the last pass writes one value.
#[verifier::rlimit(30)]
pub proof fn lemma_tree_reduces_to_one(len: int, w: int)
    requires
        w >= 2,
        1 < len <= usize::MAX,
    ensures
        tree_spec(len, w).len() >= 1,
        tree_spec(len, w).last().out_len == 1,
        tree_spec(len, w).last().final_pass,
        tree_spec(len, w)[0].out_len < len,
        forall|i: int|
            0 <= i < tree_spec(len, w).len() - 1 ==> !(#[trigger] tree_spec(len, w)[i]).final_pass,
        forall|i: int|
            0 <= i < tree_spec(len, w).len() - 1 ==> tree_spec(len, w)[i + 1].out_len
                < #[trigger] tree_spec(len, w)[i].out_len,
    decreases len,
{
    if len > w * w {
        lemma_tree_unfold(len, w);
        lemma_ceil_shrinks(len, w);
        let out = ceil_div(len, w);
        lemma_tree_reduces_to_one(out, w);
        let t = tree_spec(len, w);
        let rest = tree_spec(out, w);
        assert(t.len() == rest.len() + 1);
        assert(t.last() == rest.last());
        assert forall|i: int| 0 <= i < t.len() - 1 implies t[i + 1].out_len
            < #[trigger] t[i].out_len by {
            if i > 0 {
                assert(t[i] == rest[i - 1]);
                assert(t[i + 1] == rest[i]);
            } else {
                assert(t[1] == rest[0]);
            }
        }
        assert forall|i: int| 0 <= i < t.len() - 1 implies !(#[trigger] t[i]).final_pass by {
            if i > 0 {
                assert(t[i] == rest[i - 1]);
            }
        }
    }
}

/// Widths the reduction kernels accept: powers of two of at least two
/// lanes, since the workgroup tree halves its active lanes every step.
pub open spec fn reduction_width_ok(w: int) -> bool {
    w >= 2 && is_pow2(w)
}

/// The refusal of a block width the reduction kernels cannot use.
pub open spec fn width_error_text(w: nat) -> Seq<char> {
    "reduction block width "@ + decimal_spec(w) + " must be a power of two of at least 2"@
}

/// Reject block widths the reduction kernels cannot use.
pub fn validate_reduction_width(width: BlockWidth) -> (r: Result<(), HephaestusError>)
    ensures
        r is Ok <==> reduction_width_ok(width.spec_get() as int),
        r is Err ==> r->Err_0 is InvalidConfiguration && message_of(r->Err_0) == width_error_text(
            width.spec_get() as nat,
        ),
{
    let w = width.get();
    if w >= 2 && is_power_of_two(w as usize) {
        Ok(())
    } else {
        let mut message = String::from_str("reduction block width ");
        let digits = decimal(w as u64);
        message.append(digits.as_str());
        message.append(" must be a power of two of at least 2");
        Err(HephaestusError::InvalidConfiguration { message })
    }
}

/// The work of a full reduction over `len` values.
pub open spec fn work_matches(work: ReductionWork, len: int, w: int) -> bool {
    if len == 0 {
        work is Empty
    } else if len == 1 {
        work is SingletonCopy
    } else {
        work matches ReductionWork::Tree(passes) && passes@ == tree_spec(len, w)
    }
}

/// Plan the reduction of `len` values with workgroups of `width` lanes.
///
/// Fails with `InvalidConfiguration` for a width the kernels cannot use, and
/// with `DispatchFailed` when the first level needs more than `u32::MAX`
/// workgroups.
pub fn plan_reduction(len: usize, width: BlockWidth) -> (r: Result<ReductionWork, HephaestusError>)
    ensures
        r is Ok <==> reduction_width_ok(width.spec_get() as int) && (len <= 1 || tree_fits(
            len as int,
            width.spec_get() as int,
        )),
        r is Ok ==> work_matches(r->Ok_0, len as int, width.spec_get() as int),
        !reduction_width_ok(width.spec_get() as int) ==> r is Err && r->Err_0 is InvalidConfiguration
            && message_of(r->Err_0) == width_error_text(width.spec_get() as nat),
        reduction_width_ok(width.spec_get() as int) && r is Err ==> r->Err_0 is DispatchFailed,
{
    validate_reduction_width(width)?;
    if len == 0 {
        return Ok(ReductionWork::Empty);
    }
    if len == 1 {
        return Ok(ReductionWork::SingletonCopy);
    }
    let w = width.get();
    let ghost wi = w as int;
    assert((w as u64) * (w as u64) <= u64::MAX) by (nonlinear_arith)
        requires
            w <= u32::MAX,
    ;
    let square: u64 = (w as u64) * (w as u64);
    let mut passes: Vec<ReductionPass> = Vec::new();
    let mut current = len;
    while current > 1
        invariant
            wi == width.spec_get(),
            wi >= 2,
            reduction_width_ok(wi),
            square == wi * wi,
            1 <= current <= len,
            passes@ + tree_spec(current as int, wi) == tree_spec(len as int, wi),
            tree_fits(len as int, wi) <==> tree_fits(current as int, wi),
        decreases current,
    {
        if (current as u64) <= square {
            passes.push(ReductionPass { final_pass: true, groups: 1, out_len: 1 });
            proof {
                assert(tree_spec(1, wi) =~= seq![]);
            }
            current = 1;
        } else {
            let groups = match workgroups(current, width) {
                Ok(g) => g,
                Err(e) => {
                    proof {
                        lemma_ceil_shrinks(current as int, wi);
                    }
                    return Err(e);
                },
            };
            proof {
                lemma_tree_unfold(current as int, wi);
            }
            let out = groups as usize;
            passes.push(ReductionPass { final_pass: false, groups, out_len: out });
            proof {
                lemma_ceil_shrinks(current as int, wi);
                assert(passes@ + tree_spec(out as int, wi) =~= tree_spec(len as int, wi));
            }
            current = out;
        }
    }
    proof {
        assert(tree_spec(current as int, wi) =~= seq![]);
        assert(passes@ =~= tree_spec(len as int, wi));
    }
    Ok(ReductionWork::Tree(passes))
}

impl ReductionWork {
    /// Whether there is nothing to encode.
    pub fn is_empty(&self) -> (b: bool)
        ensures
            b == (*self is Empty),
    {
        match self {
            ReductionWork::Empty => true,
            _ => false,
        }
    }

    /// Whether the work is a single buffer copy.
    pub fn has_singleton_copy(&self) -> (b: bool)
        ensures
            b == (*self is SingletonCopy),
    {
        match self {
            ReductionWork::SingletonCopy => true,
            _ => false,
        }
    }

    /// Number of compute passes.
    pub fn tree_depth(&self) -> (n: usize)
        ensures
            n == match *self {
                ReductionWork::Tree(passes) => passes@.len(),
                _ => 0,
            },
    {
        match self {
            ReductionWork::Tree(passes) => passes.len(),
            _ => 0,
        }
    }

    /// The compute pass at `stage`, if there is one.
    pub fn pass(&self, stage: usize) -> (p: Option<ReductionPass>)
        ensures
            p == match *self {
                ReductionWork::Tree(passes) => if stage < passes@.len() {
                    Some(passes@[stage as int])
                } else {
                    None
                },
                _ => None,
            },
    {
        match self {
            ReductionWork::Tree(passes) => if stage < passes.len() {
                Some(passes[stage])
            } else {
                None
            },
            _ => None,
        }
    }
}

/// One dispatch of a batched submission.
#[derive(Debug, Clone, Copy, PartialEq, Eq, Structural)]
pub enum BatchDispatch {
    /// The single pass of the axis reduction at this index.
    Axis(usize),
    /// Pass `stage` of the scalar reduction at this index.
    Scalar(usize, usize),
}

/// What one batched submission of prepared reductions encodes: whether it
/// submits at all, which scalar reductions copy their single value, and the
/// dispatches of each compute pass.
#[derive(Debug)]
pub struct MixedBatchPlan {
    pub submit: bool,
    pub singleton_copies: Vec<usize>,
    pub stages: Vec<Vec<BatchDispatch>>,
}

/// Shape of one prepared scalar reduction: whether it is a singleton copy
/// and how many compute passes it has.
#[derive(Debug, Clone, Copy, PartialEq, Eq, Structural)]
pub struct ScalarWorkShape {
    pub singleton_copy: bool,
    pub depth: usize,
}

/// Indices of the singleton-copy reductions among the first `n`, in order.
pub open spec fn singleton_indices(s: Seq<ScalarWorkShape>, n: int) -> Seq<usize>
    decreases n,
{
    if n <= 0 {
        seq![]
    } else {
        singleton_indices(s, n - 1) + if s[n - 1].singleton_copy {
            seq![(n - 1) as usize]
        } else {
            seq![]
        }
    }
}

/// The deepest tree among the first `n` reductions.
pub open spec fn max_depth(s: Seq<ScalarWorkShape>, n: int) -> int
    decreases n,
{
    if n <= 0 {
        0
    } else if max_depth(s, n - 1) >= s[n - 1].depth {
        max_depth(s, n - 1)
    } else {
        s[n - 1].depth as int
    }
}

/// The axis dispatches among the first `n` axis reductions, in order.
pub open spec fn axis_dispatches(a: Seq<bool>, n: int) -> Seq<BatchDispatch>
    decreases n,
{
    if n <= 0 {
        seq![]
    } else {
        axis_dispatches(a, n - 1) + if a[n - 1] {
            seq![BatchDispatch::Axis((n - 1) as usize)]
        } else {
            seq![]
        }
    }
}

/// The scalar passes of compute pass `stage` among the first `n` reductions.
pub open spec fn stage_dispatches(s: Seq<ScalarWorkShape>, stage: int, n: int) -> Seq<BatchDispatch>
    decreases n,
{
    if n <= 0 {
        seq![]
    } else {
        stage_dispatches(s, stage, n - 1) + if stage < s[n - 1].depth {
            seq![BatchDispatch::Scalar((n - 1) as usize, stage as usize)]
        } else {
            seq![]
        }
    }
}

/// Compute pass `stage`: the axis dispatches first (stage zero only), then
/// the scalar passes of that depth.
pub open spec fn stage_spec(s: Seq<ScalarWorkShape>, a: Seq<bool>, stage: int) -> Seq<BatchDispatch> {
    (if stage == 0 {
        axis_dispatches(a, a.len() as int)
    } else {
        seq![]
    }) + stage_dispatches(s, stage, s.len() as int)
}

fn collect_singletons(scalar: &[ScalarWorkShape]) -> (r: (Vec<usize>, usize))
    ensures
        r.0@ == singleton_indices(scalar@, scalar@.len() as int),
        r.1 == max_depth(scalar@, scalar@.len() as int),
{
    let mut copies: Vec<usize> = Vec::new();
    let mut depth: usize = 0;
    let mut i: usize = 0;
    while i < scalar.len()
        invariant
            i <= scalar@.len(),
            copies@ == singleton_indices(scalar@, i as int),
            depth == max_depth(scalar@, i as int),
        decreases scalar@.len() - i,
    {
        if scalar[i].singleton_copy {
            copies.push(i);
        }
        if depth < scalar[i].depth {
            depth = scalar[i].depth;
        }
        proof {
            assert(singleton_indices(scalar@, i + 1) =~= singleton_indices(scalar@, i as int) + if scalar@[i as int].singleton_copy {
                seq![i]
            } else {
                seq![]
            });
        }
        i = i + 1;
    }
    (copies, depth)
}

fn collect_axis(axis: &[bool]) -> (r: Vec<BatchDispatch>)
    ensures
        r@ == axis_dispatches(axis@, axis@.len() as int),
{
    let mut out: Vec<BatchDispatch> = Vec::new();
    let mut i: usize = 0;
    while i < axis.len()
        invariant
            i <= axis@.len(),
            out@ == axis_dispatches(axis@, i as int),
        decreases axis@.len() - i,
    {
        if axis[i] {
            out.push(BatchDispatch::Axis(i));
        }
        proof {
            assert(axis_dispatches(axis@, i + 1) =~= axis_dispatches(axis@, i as int) + if axis@[i as int] {
                seq![BatchDispatch::Axis(i)]
            } else {
                seq![]
            });
        }
        i = i + 1;
    }
    out
}

fn append_stage(out: &mut Vec<BatchDispatch>, scalar: &[ScalarWorkShape], stage: usize)
    ensures
        final(out)@ == old(out)@ + stage_dispatches(scalar@, stage as int, scalar@.len() as int),
{
    let ghost start = out@;
    let mut i: usize = 0;
    while i < scalar.len()
        invariant
            i <= scalar@.len(),
            out@ == start + stage_dispatches(scalar@, stage as int, i as int),
        decreases scalar@.len() - i,
    {
        if stage < scalar[i].depth {
            out.push(BatchDispatch::Scalar(i, stage));
        }
        proof {
            assert(stage_dispatches(scalar@, stage as int, i + 1) =~= stage_dispatches(scalar@, stage as int, i as int) + if (stage as int) < scalar@[i as int].depth {
                seq![BatchDispatch::Scalar(i, stage)]
            } else {
                seq![]
            });
        }
        i = i + 1;
    }
}

/// Plan one submission of prepared scalar reductions (described by their
/// shapes) and axis reductions (described by whether each dispatches).
///
/// Nothing is submitted when no reduction has work. Otherwise singleton
/// copies come first, then `max(deepest tree, 1 if any axis dispatches)`
/// compute passes; pass `s` groups the axis dispatches (pass zero only) with
/// stage `s` of every deep enough tree, so dependent stages stay in separate
/// passes.
pub fn plan_mixed_reduction_batch(scalar: &[ScalarWorkShape], axis: &[bool]) -> (p: MixedBatchPlan)
    ensures
        p.submit <==> (singleton_indices(scalar@, scalar@.len() as int).len() > 0 || max_depth(
            scalar@,
            scalar@.len() as int,
        ) > 0 || axis_dispatches(axis@, axis@.len() as int).len() > 0),
        !p.submit ==> p.singleton_copies@.len() == 0 && p.stages@.len() == 0,
        p.submit ==> p.singleton_copies@ == singleton_indices(scalar@, scalar@.len() as int),
        p.submit ==> p.stages@.len() == if max_depth(scalar@, scalar@.len() as int) == 0 {
            1
        } else {
            max_depth(scalar@, scalar@.len() as int)
        },
        p.submit ==> forall|s: int|
            0 <= s < p.stages@.len() ==> (#[trigger] p.stages@[s])@ == stage_spec(scalar@, axis@, s),
{
    let (copies, depth) = collect_singletons(scalar);
    let axis_work = collect_axis(axis);
    if copies.len() == 0 && depth == 0 && axis_work.len() == 0 {
        return MixedBatchPlan { submit: false, singleton_copies: Vec::new(), stages: Vec::new() };
    }
    let count = if depth == 0 {
        1
    } else {
        depth
    };
    let mut stages: Vec<Vec<BatchDispatch>> = Vec::new();
    let mut stage: usize = 0;
    while stage < count
        invariant
            stage <= count,
            count == if max_depth(scalar@, scalar@.len() as int) == 0 {
                1
            } else {
                max_depth(scalar@, scalar@.len() as int)
            },
            axis_work@ == axis_dispatches(axis@, axis@.len() as int),
            stages@.len() == stage,
            forall|s: int| 0 <= s < stage ==> (#[trigger] stages@[s])@ == stage_spec(scalar@, axis@, s),
        decreases count - stage,
    {
        let mut current: Vec<BatchDispatch> = Vec::new();
        if stage == 0 {
            let mut k: usize = 0;
            while k < axis_work.len()
                invariant
                    k <= axis_work@.len(),
                    current@ == axis_work@.subrange(0, k as int),
                decreases axis_work@.len() - k,
            {
                current.push(axis_work[k]);
                proof {
                    assert(axis_work@.subrange(0, k + 1) =~= axis_work@.subrange(0, k as int).push(axis_work@[k as int]));
                }
                k = k + 1;
            }
            proof {
                assert(axis_work@.subrange(0, k as int) =~= axis_work@);
            }
        }
        let ghost head = current@;
        append_stage(&mut current, scalar, stage);
        proof {
            assert(current@ =~= stage_spec(scalar@, axis@, stage as int));
        }
        stages.push(current);
        stage = stage + 1;
    }
    MixedBatchPlan { submit: true, singleton_copies: copies, stages }
}

/// Columns the axis-0 tiled kernel covers per workgroup, at most.
pub const AXIS0_TILE_COLUMNS: u32 = 32;

/// The axis-0 tile of a workgroup of `w` lanes: `min(32, w)` columns by the
/// remaining rows.
pub open spec fn tile_shape_spec(w: int) -> (int, int) {
    let cols = if w <= AXIS0_TILE_COLUMNS {
        w
    } else {
        AXIS0_TILE_COLUMNS as int
    };
    (cols, w / cols)
}

/// The tile shape of the axis-0 reduction kernels.
pub fn axis0_tile_shape(width: BlockWidth) -> (r: (u32, u32))
    ensures
        r.0 == tile_shape_spec(width.spec_get() as int).0,
        r.1 == tile_shape_spec(width.spec_get() as int).1,
        r.0 > 0,
{
    let w = width.get();
    let tile_cols = if w <= AXIS0_TILE_COLUMNS {
        w
    } else {
        AXIS0_TILE_COLUMNS
    };
    (tile_cols, w / tile_cols)
}

/// The kernel family of a rank-2 axis reduction.
#[derive(Debug, Clone, Copy, PartialEq, Eq, Structural)]
pub enum AxisReductionKernel {
    /// Tiled over columns, for reductions down the leading axis.
    Axis0Tiled,
    /// One workgroup per output value.
    Parallel,
}

/// The kernel and workgroup count of an axis reduction with `outputs` output
/// values: the tiled kernel covers `tile columns` outputs per workgroup when
/// the reduced stride word is zero, otherwise one workgroup per output.
pub fn select_axis_reduction_kernel(leading_axis: bool, outputs: u32, width: BlockWidth) -> (r: (
    AxisReductionKernel,
    u32,
))
    ensures
        leading_axis ==> r.0 == AxisReductionKernel::Axis0Tiled && r.1 == ceil_div(
            outputs as int,
            tile_shape_spec(width.spec_get() as int).0,
        ),
        !leading_axis ==> r.0 == AxisReductionKernel::Parallel && r.1 == outputs,
{
    if leading_axis {
        let (tile_cols, _) = axis0_tile_shape(width);
        assert(outputs % tile_cols != 0 ==> outputs / tile_cols < u32::MAX) by (nonlinear_arith)
            requires
                tile_cols > 0,
        ;
        let groups = outputs / tile_cols + if outputs % tile_cols == 0 {
            0
        } else {
            1
        };
        assert(groups == ceil_div(outputs as int, tile_cols as int)) by (nonlinear_arith)
            requires
                tile_cols > 0,
                groups == outputs / tile_cols + if outputs % tile_cols == 0 {
                    0int
                } else {
                    1int
                },
        ;
        (AxisReductionKernel::Axis0Tiled, groups)
    } else {
        (AxisReductionKernel::Parallel, outputs)
    }
}

/// The refusal of an axis beyond rank two.
pub open spec fn axis_error_text(axis: nat) -> Seq<char> {
    "axis "@ + decimal_spec(axis) + " is out of bounds for rank-2 reduction"@
}

fn out_of_bounds_axis(axis: usize) -> (e: HephaestusError)
    ensures
        e is DispatchFailed,
        message_of(e) == axis_error_text(axis as nat),
{
    let mut message = String::from_str("axis ");
    let digits = decimal(axis as u64);
    message.append(digits.as_str());
    message.append(" is out of bounds for rank-2 reduction");
    HephaestusError::DispatchFailed { message }
}

/// The extent of `axis` of a rank-2 shape.
pub fn axis_len(shape: [usize; 2], axis: usize) -> (r: Result<usize, HephaestusError>)
    ensures
        r is Ok <==> axis < 2,
        r is Ok ==> r->Ok_0 == shape[axis as int],
        r is Err ==> r->Err_0 is DispatchFailed && message_of(r->Err_0) == axis_error_text(
            axis as nat,
        ),
{
    if axis < 2 {
        Ok(shape[axis])
    } else {
        Err(out_of_bounds_axis(axis))
    }
}

/// Reject an empty reduced axis for reductions without an identity (min,
/// max, mean).
pub fn reject_empty_axis(axis_len: usize, op_name: &str, axis: usize) -> (r: Result<(), HephaestusError>)
    ensures
        r is Ok <==> axis_len != 0,
        r is Err ==> r->Err_0 is DispatchFailed && message_of(r->Err_0) == op_name@
            + " is undefined for empty axis "@ + decimal_spec(axis as nat),
{
    if axis_len == 0 {
        let mut message = String::from_str(op_name);
        message.append(" is undefined for empty axis ");
        let digits = decimal(axis as u64);
        message.append(digits.as_str());
        return Err(HephaestusError::DispatchFailed { message });
    }
    Ok(())
}

/// The shape a rank-2 axis reduction writes: the reduced axis kept with
/// length one.
pub open spec fn reduced_shape(shape: [usize; 2], axis: int) -> Seq<usize> {
    if axis == 0 {
        seq![1usize, shape[1]]
    } else {
        seq![shape[0], 1usize]
    }
}

fn layout_failure(e: LayoutError) -> (h: HephaestusError)
    ensures
        h == (HephaestusError::InvalidConfiguration { message: e.message }),
{
    HephaestusError::InvalidConfiguration { message: e.message }
}

/// The row-major output layout of a rank-2 axis reduction and its element
/// count.
pub fn reduced_output_layout(shape: [usize; 2], axis: usize) -> (r: Result<
    (StridedLayout, usize),
    HephaestusError,
>)
    ensures
        r is Ok <==> axis < 2 && c_strides_fit(reduced_shape(shape, axis as int)) && shape_product(
            reduced_shape(shape, axis as int),
        ) <= usize::MAX,
        r is Ok ==> {
            &&& r->Ok_0.0.shape@ == reduced_shape(shape, axis as int)
            &&& r->Ok_0.0.strides@ == c_strides_spec(reduced_shape(shape, axis as int))
            &&& r->Ok_0.0.offset == 0
            &&& r->Ok_0.1 == shape_product(reduced_shape(shape, axis as int))
        },
        axis >= 2 ==> r is Err && r->Err_0 is DispatchFailed && message_of(r->Err_0)
            == axis_error_text(axis as nat),
        axis < 2 && r is Err ==> r->Err_0 is InvalidConfiguration,
{
    if axis >= 2 {
        return Err(out_of_bounds_axis(axis));
    }
    let mut out_shape: Vec<usize> = Vec::new();
    if axis == 0 {
        out_shape.push(1);
        out_shape.push(shape[1]);
    } else {
        out_shape.push(shape[0]);
        out_shape.push(1);
    }
    assert(out_shape@ =~= reduced_shape(shape, axis as int));
    let layout = match StridedLayout::c_contiguous(out_shape.as_slice()) {
        Ok(l) => l,
        Err(e) => {
            return Err(layout_failure(e));
        },
    };
    let len = match layout.checked_size() {
        Ok(n) => n,
        Err(e) => {
            return Err(layout_failure(e));
        },
    };
    Ok((layout, len))
}

/// Where a full reduction reads its values from.
#[derive(Debug)]
pub enum ReductionSource {
    /// No values: an empty source buffer.
    Empty,
    /// The input buffer is already the dense row-major values.
    Reuse,
    /// Gather the values into a new buffer of `len` elements with this
    /// row-major layout first.
    Gather(StridedLayout, usize),
}

/// Decide how a full reduction reads a strided input of `buffer_len` values.
pub fn plan_reduction_source(input: &StridedLayout, buffer_len: usize) -> (r: Result<
    ReductionSource,
    HephaestusError,
>)
    requires
        input.wf(),
    ensures
        r is Ok <==> input.fits_storage(buffer_len as int) && (input.size_spec() == 0 || (
        input.offset == 0 && c_strides_fit(input.shape@) && input.strides@ == c_strides_spec(
            input.shape@,
        ) && input.size_spec() == buffer_len) || c_strides_fit(input.shape@)),
        r is Ok ==> match r->Ok_0 {
            ReductionSource::Empty => input.size_spec() == 0,
            ReductionSource::Reuse => input.size_spec() != 0 && input.offset == 0 && c_strides_fit(
                input.shape@,
            ) && input.strides@ == c_strides_spec(input.shape@) && input.size_spec()
                == buffer_len,
            ReductionSource::Gather(layout, len) => {
                &&& input.size_spec() != 0
                &&& !(input.offset == 0 && c_strides_fit(input.shape@) && input.strides@
                    == c_strides_spec(input.shape@) && input.size_spec() == buffer_len)
                &&& layout.shape@ == input.shape@
                &&& layout.strides@ == c_strides_spec(input.shape@)
                &&& layout.offset == 0
                &&& len == input.size_spec()
            },
        },
        r is Err ==> r->Err_0 is InvalidConfiguration,
{
    let logical_len = match input.checked_size() {
        Ok(n) => n,
        Err(e) => {
            return Err(layout_failure(e));
        },
    };
    match input.validate_storage_len(buffer_len) {
        Ok(()) => {},
        Err(e) => {
            return Err(layout_failure(e));
        },
    }
    if logical_len == 0 {
        return Ok(ReductionSource::Empty);
    }
    if input.is_c_contiguous() && logical_len == buffer_len {
        return Ok(ReductionSource::Reuse);
    }
    match StridedLayout::c_contiguous(input.shape.as_slice()) {
        Ok(layout) => Ok(ReductionSource::Gather(layout, logical_len)),
        Err(e) => Err(layout_failure(e)),
    }
}

/// A full reduction writes one value into an output that is not its input.
pub fn check_full_reduction_output(output: &StridedLayout, output_len: usize, aliases: bool) -> (r: Result<
    (),
    HephaestusError,
>)
    requires
        output.wf(),
    ensures
        r is Ok <==> output.fits_storage(output_len as int) && output.size_spec() == 1 && !aliases,
        r is Err ==> r->Err_0 is InvalidConfiguration || r->Err_0 is DispatchFailed,
        output.fits_storage(output_len as int) && output.size_spec() != 1 ==> r is Err
            && r->Err_0 is DispatchFailed && message_of(r->Err_0)
            == "full reduction output must have length 1"@,
        output.fits_storage(output_len as int) && output.size_spec() == 1 && aliases ==> r is Err
            && r->Err_0 is DispatchFailed && message_of(r->Err_0)
            == "full reduction output buffer must not alias input buffer"@,
{
    match output.validate_storage_len(output_len) {
        Ok(()) => {},
        Err(e) => {
            return Err(layout_failure(e));
        },
    }
    let len = match output.checked_size() {
        Ok(n) => n,
        Err(e) => {
            return Err(layout_failure(e));
        },
    };
    if len != 1 {
        return Err(
            HephaestusError::DispatchFailed {
                message: String::from_str("full reduction output must have length 1"),
            },
        );
    }
    if aliases {
        return Err(
            HephaestusError::DispatchFailed {
                message: String::from_str("full reduction output buffer must not alias input buffer"),
            },
        );
    }
    Ok(())
}

/// Provider-owned full reductions.
#[derive(Clone, Copy, Debug, Default)]
pub struct WgpuFullReductionOps;

/// Scans run over rank-2 operands only.
pub fn check_scan_rank(rank: usize) -> (r: Result<(), HephaestusError>)
    ensures
        r is Ok <==> rank == 2,
        r is Err ==> r->Err_0 is DispatchFailed && message_of(r->Err_0)
            == "scan currently supports only rank-2 operands, got rank "@ + decimal_spec(rank as nat),
{
    if rank != 2 {
        let mut message = String::from_str("scan currently supports only rank-2 operands, got rank ");
        let d = decimal(rank as u64);
        message.append(d.as_str());
        return Err(HephaestusError::DispatchFailed { message });
    }
    Ok(())
}

/// Provider-owned axis scans.
#[derive(Clone, Copy, Debug, Default)]
pub struct WgpuScanOps;

} // verus!
