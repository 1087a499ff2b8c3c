//! Validation and uniform metadata of strided elementwise dispatches: unary,
//! binary and broadcast-scalar kernels over operands of rank at most four.

use crate::error::{message_of, HephaestusError};
use crate::layout::{broadcast_strides_spec, broadcastable, LayoutView, StridedLayout};
use crate::linalg::{to_i32, to_u32};
use crate::pipeline::{ceil_div, workgroups, BlockWidth};
use crate::text::{decimal, decimal_spec};
use vstd::prelude::*;

verus! {

/// Largest rank the elementwise kernels decode.
pub const MAX_STRIDED_RANK: usize = 4;

/// Uniform metadata of one strided elementwise dispatch: the output shape
/// and the strides of both inputs and the output, each left-padded to four
/// axes, and `[a offset, b offset, output offset, element count]`.
#[derive(Debug, Clone, Copy)]
pub struct StridedMeta {
    pub shape: [u32; 4],
    pub a_strides: [i32; 4],
    pub b_strides: [i32; 4],
    pub out_strides: [i32; 4],
    pub offsets: [u32; 4],
}

/// A prepared elementwise launch.
#[derive(Debug, Clone, Copy)]
pub struct ElementwisePlan {
    pub meta: StridedMeta,
    pub groups: u32,
}

/// One operand: its layout and the length of its buffer.
#[derive(Debug)]
pub struct ElementwiseOperand {
    pub layout: StridedLayout,
    pub buffer_len: usize,
}

/// Axis `k` of the four-axis form of `s` (rank at most four): ones in front.
pub open spec fn padded_extent(s: Seq<usize>, k: int) -> int {
    if k < 4 - s.len() {
        1
    } else {
        s[k - (4 - s.len())] as int
    }
}

/// Axis `k` of the four-axis form of strides `s`: zeros in front.
pub open spec fn padded_stride(s: Seq<isize>, k: int) -> int {
    if k < 4 - s.len() {
        0
    } else {
        s[k - (4 - s.len())] as int
    }
}

/// Every extent of `s` fits `u32`.
pub open spec fn extents_u32(s: Seq<usize>) -> bool {
    forall|i: int| 0 <= i < s.len() ==> #[trigger] s[i] <= u32::MAX
}

/// Every stride of `s` fits `i32`.
pub open spec fn strides_i32(s: Seq<isize>) -> bool {
    forall|i: int| 0 <= i < s.len() ==> i32::MIN <= #[trigger] s[i] <= i32::MAX
}

fn pad_shape(shape: &[usize]) -> (r: Result<[u32; 4], HephaestusError>)
    requires
        shape@.len() <= 4,
    ensures
        r is Ok <==> extents_u32(shape@),
        r is Ok ==> forall|k: int| 0 <= k < 4 ==> #[trigger] r->Ok_0[k] == padded_extent(shape@, k),
        r is Err ==> r->Err_0 is DispatchFailed,
{
    let mut out = [1u32; 4];
    let pad = 4 - shape.len();
    let mut i: usize = 0;
    while i < shape.len()
        invariant
            shape@.len() <= 4,
            pad == 4 - shape@.len(),
            i <= shape@.len(),
            forall|q: int| 0 <= q < i ==> #[trigger] shape@[q] <= u32::MAX,
            forall|k: int|
                0 <= k < 4 ==> #[trigger] out[k] == if k < pad + i {
                    padded_extent(shape@, k)
                } else {
                    1
                },
        decreases shape@.len() - i,
    {
        let d = to_u32(shape[i], "dimension")?;
        out[pad + i] = d;
        i = i + 1;
    }
    Ok(out)
}

fn pad_strides(strides: &[isize]) -> (r: Result<[i32; 4], HephaestusError>)
    requires
        strides@.len() <= 4,
    ensures
        r is Ok <==> strides_i32(strides@),
        r is Ok ==> forall|k: int| 0 <= k < 4 ==> #[trigger] r->Ok_0[k] == padded_stride(strides@, k),
        r is Err ==> r->Err_0 is DispatchFailed,
{
    let mut out = [0i32; 4];
    let pad = 4 - strides.len();
    let mut i: usize = 0;
    while i < strides.len()
        invariant
            strides@.len() <= 4,
            pad == 4 - strides@.len(),
            i <= strides@.len(),
            forall|q: int| 0 <= q < i ==> i32::MIN <= #[trigger] strides@[q] <= i32::MAX,
            forall|k: int|
                0 <= k < 4 ==> #[trigger] out[k] == if k < pad + i {
                    padded_stride(strides@, k)
                } else {
                    0
                },
        decreases strides@.len() - i,
    {
        let s = to_i32(strides[i], "stride")?;
        out[pad + i] = s;
        i = i + 1;
    }
    Ok(out)
}

/// The layout an input takes when broadcast to `target`.
pub open spec fn broadcast_view(l: LayoutView, target: Seq<usize>) -> LayoutView {
    LayoutView {
        shape: target,
        strides: broadcast_strides_spec(l.shape, l.strides, target),
        offset: l.offset,
    }
}

/// An input broadcasts to `target` and fits its buffer after broadcasting.
pub open spec fn input_fits(op: ElementwiseOperand, target: Seq<usize>) -> bool {
    &&& op.layout.wf()
    &&& broadcastable(op.layout.shape@, target)
    &&& broadcast_view(op.layout@, target).fits_storage(op.buffer_len as int)
}

/// The uniforms of the dispatch can be formed.
pub open spec fn meta_fits(a: LayoutView, b: Option<LayoutView>, out: LayoutView, width: int) -> bool {
    &&& extents_u32(out.shape)
    &&& strides_i32(a.strides)
    &&& (b is Some ==> strides_i32(b->0.strides))
    &&& strides_i32(out.strides)
    &&& a.offset <= u32::MAX
    &&& (b is Some ==> b->0.offset <= u32::MAX)
    &&& out.offset <= u32::MAX
    &&& out.size_spec() <= u32::MAX
    &&& ceil_div(out.size_spec(), width) <= u32::MAX
}

/// `m` is the metadata of the dispatch.
pub open spec fn is_meta(m: StridedMeta, a: LayoutView, b: Option<LayoutView>, out: LayoutView) -> bool {
    &&& forall|k: int| 0 <= k < 4 ==> #[trigger] m.shape[k] == padded_extent(out.shape, k)
    &&& forall|k: int| 0 <= k < 4 ==> #[trigger] m.a_strides[k] == padded_stride(a.strides, k)
    &&& forall|k: int|
        0 <= k < 4 ==> #[trigger] m.b_strides[k] == match b {
            Some(bv) => padded_stride(bv.strides, k),
            None => 0,
        }
    &&& forall|k: int| 0 <= k < 4 ==> #[trigger] m.out_strides[k] == padded_stride(out.strides, k)
    &&& m.offsets[0] == a.offset
    &&& m.offsets[1] == match b {
        Some(bv) => bv.offset as int,
        None => 0,
    }
    &&& m.offsets[2] == out.offset
    &&& m.offsets[3] == out.size_spec()
}

/// Whether `prepare_elementwise` accepts the operands.
pub open spec fn elementwise_accepts(
    a: ElementwiseOperand,
    b: Option<ElementwiseOperand>,
    out: ElementwiseOperand,
    aliases: bool,
    width: int,
) -> bool {
    let target = out.layout.shape@;
    &&& out.layout.wf()
    &&& target.len() <= MAX_STRIDED_RANK
    &&& input_fits(a, target)
    &&& (b is Some ==> input_fits(b->0, target))
    &&& !aliases
    &&& out.layout.fits_storage(out.buffer_len as int)
    &&& (out.layout.size_spec() == 0 || meta_fits(
        broadcast_view(a.layout@, target),
        match b {
            Some(bo) => Some(broadcast_view(bo.layout@, target)),
            None => None,
        },
        out.layout@,
        width,
    ))
}

/// An operand's layout is well formed and broadcasts to `target`.
pub open spec fn input_broadcasts(op: ElementwiseOperand, target: Seq<usize>) -> bool {
    op.layout.wf() && broadcastable(op.layout.shape@, target)
}

/// The second operand, where there is one, broadcasts to `target`.
pub open spec fn second_broadcasts(b: Option<ElementwiseOperand>, target: Seq<usize>) -> bool {
    match b {
        Some(bo) => input_broadcasts(bo, target),
        None => true,
    }
}

/// The second operand, where there is one, fits its buffer once broadcast.
pub open spec fn second_fits(b: Option<ElementwiseOperand>, target: Seq<usize>) -> bool {
    match b {
        Some(bo) => broadcast_view(bo.layout@, target).fits_storage(bo.buffer_len as int),
        None => true,
    }
}

/// The message refusing an output buffer that is an input buffer: a binary
/// kernel has several inputs, the others one.
pub open spec fn elementwise_alias_text(binary: bool) -> Seq<char> {
    if binary {
        "output buffer must not alias any input buffer"@
    } else {
        "output buffer must not alias input buffer"@
    }
}

fn layout_failure(message: String) -> (e: HephaestusError)
    ensures
        e == (HephaestusError::InvalidConfiguration { message }),
{
    HephaestusError::InvalidConfiguration { message }
}

fn broadcast_input(op: &ElementwiseOperand, target: &[usize]) -> (r: Result<StridedLayout, HephaestusError>)
    ensures
        r is Ok <==> op.layout.wf() && broadcastable(op.layout.shape@, target@),
        r is Ok ==> r->Ok_0@ == broadcast_view(op.layout@, target@) && r->Ok_0.wf(),
        !op.layout.wf() ==> r is Err && r->Err_0 is DispatchFailed && message_of(r->Err_0)
            == "elementwise operand shape and stride ranks differ"@,
        op.layout.wf() && r is Err ==> r->Err_0 is InvalidConfiguration,
{
    if op.layout.shape.len() != op.layout.strides.len() {
        return Err(
            HephaestusError::DispatchFailed {
                message: String::from_str("elementwise operand shape and stride ranks differ"),
            },
        );
    }
    match op.layout.broadcast(target) {
        Ok(b) => Ok(b),
        Err(e) => Err(layout_failure(e.message)),
    }
}

/// Validate an elementwise dispatch writing `out` from `a` (and `b` for a
/// binary kernel), both broadcast to the output shape, and form its launch;
/// `None` when the output is empty. `aliases`: the output buffer is an input
/// buffer.
pub fn prepare_elementwise(
    a: &ElementwiseOperand,
    b: Option<&ElementwiseOperand>,
    out: &ElementwiseOperand,
    aliases: bool,
    width: BlockWidth,
) -> (r: Result<Option<ElementwisePlan>, HephaestusError>)
    ensures
        r is Ok <==> elementwise_accepts(
            *a,
            match b {
                Some(bo) => Some(*bo),
                None => None,
            },
            *out,
            aliases,
            width.spec_get() as int,
        ),
        r is Ok ==> (r->Ok_0 is None <==> out.layout.size_spec() == 0),
        r is Ok && r->Ok_0 is Some ==> {
            let target = out.layout.shape@;
            &&& is_meta(
                r->Ok_0->0.meta,
                broadcast_view(a.layout@, target),
                match b {
                    Some(bo) => Some(broadcast_view(bo.layout@, target)),
                    None => None,
                },
                out.layout@,
            )
            &&& r->Ok_0->0.groups == ceil_div(out.layout.size_spec(), width.spec_get() as int)
        },
        r is Err ==> r->Err_0 is InvalidConfiguration || r->Err_0 is DispatchFailed,
        ({
            let target = out.layout.shape@;
            let bo = match b {
                Some(x) => Some(*x),
                None => None,
            };
            let inputs_checked = out.layout.wf() && target.len() <= MAX_STRIDED_RANK;
            let broadcast_ok = inputs_checked && input_broadcasts(*a, target) && second_broadcasts(
                bo,
                target,
            );
            let inputs_fit = broadcast_ok && broadcast_view(a.layout@, target).fits_storage(
                a.buffer_len as int,
            ) && second_fits(bo, target);
            let output_checked = inputs_fit && !aliases && out.layout.fits_storage(
                out.buffer_len as int,
            );
            &&& !out.layout.wf() ==> r is Err && r->Err_0 is DispatchFailed && message_of(r->Err_0)
                == "elementwise output shape and stride ranks differ"@
            &&& out.layout.wf() && target.len() > MAX_STRIDED_RANK ==> r is Err && r->Err_0 is DispatchFailed
                && message_of(r->Err_0) == "elementwise dispatch supports rank <= 4, got rank "@
                + decimal_spec(target.len())
            &&& inputs_checked && !a.layout.wf() ==> r is Err && r->Err_0 is DispatchFailed
                && message_of(r->Err_0) == "elementwise operand shape and stride ranks differ"@
            &&& inputs_checked && a.layout.wf() && !broadcastable(a.layout.shape@, target) ==> r is Err
                && r->Err_0 is InvalidConfiguration
            &&& inputs_checked && input_broadcasts(*a, target) && bo is Some && !bo->0.layout.wf()
                ==> r is Err && r->Err_0 is DispatchFailed && message_of(r->Err_0)
                == "elementwise operand shape and stride ranks differ"@
            &&& inputs_checked && input_broadcasts(*a, target) && bo is Some && bo->0.layout.wf()
                && !broadcastable(bo->0.layout.shape@, target) ==> r is Err && r->Err_0 is InvalidConfiguration
            &&& broadcast_ok && !inputs_fit ==> r is Err && r->Err_0 is InvalidConfiguration
            &&& inputs_fit && aliases ==> r is Err && r->Err_0 is DispatchFailed && message_of(r->Err_0)
                == elementwise_alias_text(b is Some)
            &&& inputs_fit && !aliases && !out.layout.fits_storage(out.buffer_len as int) ==> r is Err
                && r->Err_0 is InvalidConfiguration
            &&& output_checked && r is Err ==> (r->Err_0 is InvalidConfiguration <==> !out.layout.size_fits())
        }),
{
    if out.layout.shape.len() != out.layout.strides.len() {
        return Err(
            HephaestusError::DispatchFailed {
                message: String::from_str("elementwise output shape and stride ranks differ"),
            },
        );
    }
    let rank = out.layout.shape.len();
    if rank > MAX_STRIDED_RANK {
        let mut message = String::from_str("elementwise dispatch supports rank <= 4, got rank ");
        let d = decimal(rank as u64);
        message.append(d.as_str());
        return Err(HephaestusError::DispatchFailed { message });
    }
    let target = out.layout.shape.as_slice();
    let a_layout = broadcast_input(a, target)?;
    let b_layout = match b {
        Some(bo) => Some(broadcast_input(bo, target)?),
        None => None,
    };
    match a_layout.validate_storage_len(a.buffer_len) {
        Ok(()) => {},
        Err(e) => {
            return Err(layout_failure(e.message));
        },
    }
    match (&b_layout, b) {
        (Some(bl), Some(bo)) => match bl.validate_storage_len(bo.buffer_len) {
            Ok(()) => {},
            Err(e) => {
                return Err(layout_failure(e.message));
            },
        },
        _ => {},
    }
    if aliases {
        let message = if b.is_some() {
            String::from_str("output buffer must not alias any input buffer")
        } else {
            String::from_str("output buffer must not alias input buffer")
        };
        return Err(HephaestusError::DispatchFailed { message });
    }
    match out.layout.validate_storage_len(out.buffer_len) {
        Ok(()) => {},
        Err(e) => {
            return Err(layout_failure(e.message));
        },
    }
    let len = match out.layout.checked_size() {
        Ok(n) => n,
        Err(e) => {
            return Err(layout_failure(e.message));
        },
    };
    if len == 0 {
        return Ok(None);
    }
    let shape = pad_shape(target)?;
    let a_strides = pad_strides(a_layout.strides.as_slice())?;
    let b_strides = match &b_layout {
        Some(bl) => pad_strides(bl.strides.as_slice())?,
        None => [0i32; 4],
    };
    let out_strides = pad_strides(out.layout.strides.as_slice())?;
    let a_offset = to_u32(a_layout.offset, "input offset")?;
    let b_offset = match &b_layout {
        Some(bl) => to_u32(bl.offset, "input offset")?,
        None => 0,
    };
    let o_offset = to_u32(out.layout.offset, "output offset")?;
    let count = to_u32(len, "dispatch size")?;
    let groups = workgroups(len, width)?;
    let meta = StridedMeta {
        shape,
        a_strides,
        b_strides,
        out_strides,
        offsets: [a_offset, b_offset, o_offset, count],
    };
    Ok(Some(ElementwisePlan { meta, groups }))
}

/// A prepared map-reduction: the first pass maps every element pair and
/// reduces within each workgroup into `groups` partial values, which a
/// reduction tree finishes when there is more than one.
#[derive(Debug)]
pub struct MapReductionPlan {
    pub meta: StridedMeta,
    pub groups: u32,
    pub tree: Option<crate::reduction::ReductionWork>,
}

/// Whether `plan_map_reduction` accepts the operands.
pub open spec fn map_reduction_accepts(a: ElementwiseOperand, b: ElementwiseOperand) -> bool {
    let target = a.layout.shape@;
    &&& a.layout.wf()
    &&& a.layout.size_fits()
    &&& (a.layout.size_spec() == 0 || {
        &&& target.len() <= MAX_STRIDED_RANK
        &&& input_fits(b, target)
        &&& a.layout.fits_storage(a.buffer_len as int)
        &&& extents_u32(target)
        &&& strides_i32(a.layout.strides@)
        &&& strides_i32(broadcast_view(b.layout@, target).strides)
        &&& a.layout.offset <= u32::MAX
        &&& b.layout.offset <= u32::MAX
        &&& a.layout.size_spec() <= u32::MAX
    })
}

/// Plan the reduction of `map(a, b)` over every element of `a`, with `b`
/// broadcast to `a`'s shape; `None` when `a` is empty and the result is the
/// reduction's identity.
pub fn plan_map_reduction(a: &ElementwiseOperand, b: &ElementwiseOperand) -> (r: Result<
    Option<MapReductionPlan>,
    HephaestusError,
>)
    ensures
        r is Ok <==> map_reduction_accepts(*a, *b),
        r is Ok ==> (r->Ok_0 is None <==> a.layout.size_spec() == 0),
        r is Ok && r->Ok_0 is Some ==> {
            let p = r->Ok_0->0;
            let bv = broadcast_view(b.layout@, a.layout.shape@);
            &&& forall|k: int| 0 <= k < 4 ==> #[trigger] p.meta.shape[k] == padded_extent(a.layout.shape@, k)
            &&& forall|k: int| 0 <= k < 4 ==> #[trigger] p.meta.a_strides[k] == padded_stride(a.layout.strides@, k)
            &&& forall|k: int| 0 <= k < 4 ==> #[trigger] p.meta.b_strides[k] == padded_stride(bv.strides, k)
            &&& forall|k: int| 0 <= k < 4 ==> #[trigger] p.meta.out_strides[k] == 1
            &&& p.meta.offsets[0] == a.layout.offset
            &&& p.meta.offsets[1] == b.layout.offset
            &&& p.meta.offsets[2] == 0
            &&& p.meta.offsets[3] == a.layout.size_spec()
            &&& p.groups == ceil_div(a.layout.size_spec(), 256)
            &&& (p.tree is Some <==> p.groups > 1)
            &&& p.tree is Some ==> crate::reduction::work_matches(p.tree->0, p.groups as int, 256)
        },
        r is Err ==> r->Err_0 is InvalidConfiguration || r->Err_0 is DispatchFailed,
{
    if a.layout.shape.len() != a.layout.strides.len() {
        return Err(
            HephaestusError::DispatchFailed {
                message: String::from_str("map-reduction operand shape and stride ranks differ"),
            },
        );
    }
    let len = match a.layout.checked_size() {
        Ok(n) => n,
        Err(e) => {
            return Err(layout_failure(e.message));
        },
    };
    if len == 0 {
        return Ok(None);
    }
    let rank = a.layout.shape.len();
    if rank > MAX_STRIDED_RANK {
        let mut message = String::from_str("map-reduction supports rank <= 4, got rank ");
        let d = decimal(rank as u64);
        message.append(d.as_str());
        return Err(HephaestusError::DispatchFailed { message });
    }
    let target = a.layout.shape.as_slice();
    let b_layout = broadcast_input(b, target)?;
    match a.layout.validate_storage_len(a.buffer_len) {
        Ok(()) => {},
        Err(e) => {
            return Err(layout_failure(e.message));
        },
    }
    match b_layout.validate_storage_len(b.buffer_len) {
        Ok(()) => {},
        Err(e) => {
            return Err(layout_failure(e.message));
        },
    }
    let width = BlockWidth::standard();
    let groups = workgroups(len, width)?;
    let shape = pad_shape(target)?;
    let a_strides = pad_strides(a.layout.strides.as_slice())?;
    let b_strides = pad_strides(b_layout.strides.as_slice())?;
    let a_offset = to_u32(a.layout.offset, "input offset")?;
    let b_offset = to_u32(b_layout.offset, "input offset")?;
    let count = to_u32(len, "dispatch size")?;
    let meta = StridedMeta {
        shape,
        a_strides,
        b_strides,
        out_strides: [1, 1, 1, 1],
        offsets: [a_offset, b_offset, 0, count],
    };
    let tree = if groups > 1 {
        match crate::reduction::plan_reduction(groups as usize, width) {
            Ok(work) => Some(work),
            Err(e) => {
                proof {
                    reveal_with_fuel(crate::fft::strategy::is_pow2, 10);
                    assert(crate::fft::strategy::is_pow2(256));
                    crate::reduction::lemma_tree_fits(groups as int, 256);
                }
                return Err(e);
            },
        }
    } else {
        None
    };
    Ok(Some(MapReductionPlan { meta, groups, tree }))
}

/// The message refusing an output buffer that is also the `label` input.
pub open spec fn output_alias_text(label: Seq<char>) -> Seq<char> {
    "output buffer must not alias "@ + label + " input"@
}

fn output_alias(label: &str) -> (e: HephaestusError)
    ensures
        e matches HephaestusError::DispatchFailed { message } && message@ == output_alias_text(
            label@,
        ),
{
    let mut message = String::from_str("output buffer must not alias ");
    message.append(label);
    message.append(" input");
    HephaestusError::DispatchFailed { message }
}

/// The second input of a binary dispatch has another length than the first.
pub open spec fn second_mismatch(a_len: usize, b: Option<(usize, bool)>) -> bool {
    match b {
        Some((b_len, _)) => b_len != a_len,
        None => false,
    }
}

/// The length of the second input (zero when there is none).
pub open spec fn second_len(b: Option<(usize, bool)>) -> usize {
    match b {
        Some((b_len, _)) => b_len,
        None => 0,
    }
}

/// The output buffer is the second input's buffer.
pub open spec fn second_aliases(b: Option<(usize, bool)>) -> bool {
    match b {
        Some((_, aliases)) => aliases,
        None => false,
    }
}

/// Validate a unary, scalar or binary elementwise dispatch over contiguous
/// buffers, writing `out_len` values from an input of `a_len` values
/// (labelled `a_label`: `"left"` for a binary kernel, `"input"` otherwise)
/// and, for a binary kernel, a second input `b` given by its length and
/// whether the output is its buffer (`a_aliases` likewise for the first
/// input). Lengths are checked first, then aliasing; the result is the
/// workgroup count, `None` when there is nothing to write.
pub fn contiguous_preflight(
    a_len: usize,
    a_aliases: bool,
    a_label: &str,
    b: Option<(usize, bool)>,
    out_len: usize,
    width: BlockWidth,
) -> (r: Result<Option<u32>, HephaestusError>)
    ensures
        second_mismatch(a_len, b) ==> r is Err && r->Err_0 == (HephaestusError::LengthMismatch { host_len: a_len, device_len: second_len(b) }),
        !second_mismatch(a_len, b) && out_len != a_len ==> r is Err && r->Err_0 == (HephaestusError::LengthMismatch { host_len: out_len, device_len: a_len }),
        !second_mismatch(a_len, b) && out_len == a_len && a_aliases ==> r is Err && (r->Err_0 matches HephaestusError::DispatchFailed { message } && message@ == output_alias_text(a_label@)),
        !second_mismatch(a_len, b) && out_len == a_len && !a_aliases && second_aliases(b) ==> r is Err && (r->Err_0 matches HephaestusError::DispatchFailed { message } && message@ == output_alias_text("right"@)),
        !second_mismatch(a_len, b) && out_len == a_len && !a_aliases && !second_aliases(b) ==> {
            &&& out_len == 0 ==> r is Ok && r->Ok_0 is None
            &&& out_len > 0 ==> (r is Ok <==> ceil_div(out_len as int, width.spec_get() as int) <= u32::MAX)
            &&& out_len > 0 && r is Ok ==> r->Ok_0 == Some(ceil_div(out_len as int, width.spec_get() as int) as u32)
        },
{
    if let Some((b_len, _)) = b {
        if a_len != b_len {
            return Err(HephaestusError::LengthMismatch { host_len: a_len, device_len: b_len });
        }
    }
    if out_len != a_len {
        return Err(HephaestusError::LengthMismatch { host_len: out_len, device_len: a_len });
    }
    if a_aliases {
        return Err(output_alias(a_label));
    }
    if let Some((_, b_aliases)) = b {
        if b_aliases {
            return Err(output_alias("right"));
        }
    }
    if out_len == 0 {
        return Ok(None);
    }
    let groups = workgroups(out_len, width)?;
    Ok(Some(groups))
}

/// Provider-owned strided elementwise dispatch.
#[derive(Clone, Copy, Debug, Default)]
pub struct WgpuElementwiseOps;

/// Provider-owned unary expressions with two runtime parameters.
#[derive(Clone, Copy, Debug, Default)]
pub struct WgpuParameterizedUnaryOps;

/// Provider-owned seeded random initialization.
#[derive(Clone, Copy, Debug, Default)]
pub struct WgpuRandomOps;

/// Provider-owned stateful parameter updates.
#[derive(Clone, Copy, Debug, Default)]
pub struct WgpuStatefulUpdateOps;

} // verus!
