//! Validation and metadata of runtime-rank fused expressions.

use crate::error::{message_of, HephaestusError};
use crate::layout::{
    addresses_distinct, broadcast_strides_spec, broadcastable, leto_injectivity, LayoutError, LayoutView, StridedLayout,
};
use crate::linalg::{to_i32, to_u32};
use crate::text::{decimal, decimal_spec};
use vstd::prelude::*;

verus! {

/// Largest tensor rank the fusion kernels describe.
pub const MAX_FUSION_RANK: usize = 8;

/// Invocations per workgroup of the fusion kernels.
pub const FUSION_WORKGROUP_WIDTH: u32 = 256;

/// Unicode `White_Space`, the set `str::trim` strips.
pub open spec fn is_white_space(c: char) -> bool {
    let u = c as u32;
    (0x9 <= u <= 0xd) || u == 0x20 || u == 0x85 || u == 0xa0 || u == 0x1680 || (0x2000 <= u
        <= 0x200a) || u == 0x2028 || u == 0x2029 || u == 0x202f || u == 0x205f || u == 0x3000
}

/// Characters that would end or open a WGSL statement or block.
pub open spec fn statement_char(c: char) -> bool {
    c == ';' || c == '{' || c == '}'
}

/// A fused expression is one non-blank WGSL expression fragment.
pub open spec fn expression_ok(s: Seq<char>) -> bool {
    &&& exists|i: int| 0 <= i < s.len() && !is_white_space(#[trigger] s[i])
    &&& forall|i: int| 0 <= i < s.len() ==> !statement_char(#[trigger] s[i])
}

fn white_space(c: char) -> (b: bool)
    ensures
        b == is_white_space(c),
{
    let u = c as u32;
    (0x9 <= u && u <= 0xd) || u == 0x20 || u == 0x85 || u == 0xa0 || u == 0x1680 || (0x2000 <= u
        && u <= 0x200a) || u == 0x2028 || u == 0x2029 || u == 0x202f || u == 0x205f || u == 0x3000
}

/// Reject a blank expression or one that is not a single expression fragment.
pub fn validate_expression_source(source: &str) -> (r: Result<(), HephaestusError>)
    ensures
        r is Ok <==> expression_ok(source@),
        r is Err ==> r->Err_0 is InvalidConfiguration,
        (forall|i: int| 0 <= i < source@.len() ==> is_white_space(#[trigger] source@[i]))
            ==> message_of(r->Err_0) == "fusion expression must not be empty"@,
        (exists|i: int| 0 <= i < source@.len() && !is_white_space(#[trigger] source@[i]))
            && r is Err ==> message_of(r->Err_0)
            == "fusion expression must be one WGSL expression fragment"@,
{
    broadcast use vstd::string::axiom_spec_iter;

    let mut blank = true;
    let mut statement = false;
    for c in it: source.chars()
        invariant
            it.seq() == source@,
            blank == forall|j: int| 0 <= j < it.index() ==> is_white_space(#[trigger] source@[j]),
            statement == exists|j: int|
                0 <= j < it.index() && statement_char(#[trigger] source@[j]),
    {
        if !white_space(c) {
            blank = false;
        }
        if c == ';' || c == '{' || c == '}' {
            statement = true;
        }
    }
    if blank {
        return Err(
            HephaestusError::InvalidConfiguration {
                message: String::from_str("fusion expression must not be empty"),
            },
        );
    }
    if statement {
        return Err(
            HephaestusError::InvalidConfiguration {
                message: String::from_str("fusion expression must be one WGSL expression fragment"),
            },
        );
    }
    Ok(())
}

/// Layout record consumed by both the elementwise and reduction shaders.
#[derive(Debug, Clone, Copy)]
pub struct FusionLayoutInfo {
    pub offset: u32,
    pub rank: u32,
    pub length: u32,
    pub axis: u32,
    pub extent: u32,
    pub shape: [u32; 8],
    pub strides: [i32; 8],
}

/// Whether a layout can be described to the fusion kernels with the given
/// reduction `axis` and its extent.
pub open spec fn info_representable(l: LayoutView, axis: Option<(usize, usize)>) -> bool {
    &&& l.wf()
    &&& l.shape.len() <= MAX_FUSION_RANK
    &&& l.offsets_ok()
    &&& l.max_offset_spec() <= i32::MAX
    &&& forall|i: int| 0 <= i < l.shape.len() ==> #[trigger] l.shape[i] <= u32::MAX
    &&& forall|i: int| 0 <= i < l.shape.len() ==> i32::MIN <= #[trigger] l.strides[i] <= i32::MAX
    &&& l.size_fits() && l.size_spec() <= u32::MAX
    &&& l.offset <= u32::MAX
    &&& match axis {
        None => true,
        Some((a, e)) => a <= u32::MAX && e <= u32::MAX,
    }
}

/// `info` describes `l` with the given reduction axis.
pub open spec fn info_describes(info: FusionLayoutInfo, l: LayoutView, axis: Option<(usize, usize)>) -> bool {
    &&& info.offset == l.offset
    &&& info.rank == l.shape.len()
    &&& info.length == l.size_spec()
    &&& match axis {
        None => info.axis == 0 && info.extent == 1,
        Some((a, e)) => info.axis == a && info.extent == e,
    }
    &&& forall|i: int|
        0 <= i < 8 ==> #[trigger] info.shape[i] == if i < l.shape.len() {
            l.shape[i] as int
        } else {
            1
        }
    &&& forall|i: int|
        0 <= i < 8 ==> #[trigger] info.strides[i] == if i < l.shape.len() {
            l.strides[i] as int
        } else {
            0
        }
}

/// The errors fusion validation reports.
pub open spec fn fusion_error(e: HephaestusError) -> bool {
    e is DispatchFailed || e is InvalidConfiguration
}

fn rejected(prefix: &str, detail: &str) -> (e: HephaestusError)
    ensures
        e is DispatchFailed,
        message_of(e) == prefix@ + detail@,
{
    let mut message = String::from_str(prefix);
    message.append(detail);
    HephaestusError::DispatchFailed { message }
}

fn rank_error(rank: usize) -> (e: HephaestusError)
    ensures
        e is InvalidConfiguration,
        message_of(e) == "WGPU fusion supports rank <= 8, got "@ + decimal_spec(rank as nat),
{
    let mut message = String::from_str("WGPU fusion supports rank <= 8, got ");
    let d = decimal(rank as u64);
    message.append(d.as_str());
    HephaestusError::InvalidConfiguration { message }
}

impl FusionLayoutInfo {
    /// Describe `layout` to the fusion kernels; `axis` carries the reduced
    /// axis and its extent (`(0, 1)` when absent).
    pub fn from_layout(layout: &StridedLayout, axis: Option<(usize, usize)>) -> (r: Result<
        FusionLayoutInfo,
        HephaestusError,
    >)
        ensures
            r is Ok <==> info_representable(layout@, axis),
            r is Ok ==> info_describes(r->Ok_0, layout@, axis),
            r is Err ==> fusion_error(r->Err_0),
    {
        if layout.shape.len() != layout.strides.len() {
            return Err(
                HephaestusError::DispatchFailed {
                    message: String::from_str("fusion layout shape and stride ranks differ"),
                },
            );
        }
        let rank = layout.ndim();
        if rank > MAX_FUSION_RANK {
            return Err(rank_error(rank));
        }
        let (_min_offset, max_offset) = match layout.checked_min_max_offsets() {
            Ok(bounds) => bounds,
            Err(error) => {
                return Err(rejected("fusion layout rejected: ", error.message.as_str()));
            },
        };
        if max_offset > i32::MAX as usize {
            let mut message = String::from_str("fusion layout address ");
            let d = decimal(max_offset as u64);
            message.append(d.as_str());
            message.append(" exceeds signed WGSL offset range");
            return Err(HephaestusError::DispatchFailed { message });
        }
        let mut shape = [1u32; 8];
        let mut strides = [0i32; 8];
        let mut i: usize = 0;
        while i < rank
            invariant
                rank == layout.shape@.len(),
                layout.wf(),
                rank <= 8,
                i <= rank,
                forall|k: int| 0 <= k < i ==> #[trigger] layout.shape@[k] <= u32::MAX,
                forall|k: int| 0 <= k < i ==> i32::MIN <= #[trigger] layout.strides@[k] <= i32::MAX,
                forall|k: int|
                    0 <= k < 8 ==> #[trigger] shape[k] == if k < i {
                        layout.shape@[k] as int
                    } else {
                        1
                    },
                forall|k: int|
                    0 <= k < 8 ==> #[trigger] strides[k] == if k < i {
                        layout.strides@[k] as int
                    } else {
                        0
                    },
            decreases rank - i,
        {
            let d = to_u32(layout.shape[i], "fusion dimension")?;
            let s = to_i32(layout.strides[i], "fusion stride")?;
            shape[i] = d;
            strides[i] = s;
            i = i + 1;
        }
        let size = match layout.checked_size() {
            Ok(n) => n,
            Err(error) => {
                return Err(rejected("fusion layout rejected: ", error.message.as_str()));
            },
        };
        let length = to_u32(size, "fusion logical length")?;
        let offset = to_u32(layout.offset, "fusion offset")?;
        let (a, e) = match axis {
            Some((a, e)) => (a, e),
            None => (0, 1),
        };
        let rank32 = to_u32(rank, "fusion rank")?;
        let axis32 = to_u32(a, "fusion axis")?;
        let extent32 = to_u32(e, "fusion axis extent")?;
        let info = FusionLayoutInfo {
            offset,
            rank: rank32,
            length,
            axis: axis32,
            extent: extent32,
            shape,
            strides,
        };
        Ok(info)
    }
}

/// A fusion launch needs `inputs + 2` storage bindings within the device
/// limit.
pub fn validate_binding_count(input_count: usize, max_storage_buffers: u32) -> (r: Result<
    (),
    HephaestusError,
>)
    ensures
        r is Ok <==> input_count + 2 <= max_storage_buffers,
        r is Err ==> r->Err_0 is InvalidConfiguration,
        input_count + 2 <= usize::MAX && input_count + 2 > max_storage_buffers ==> message_of(
            r->Err_0,
        ) == "fusion requires "@ + decimal_spec((input_count + 2) as nat)
            + " storage bindings, device limit is "@ + decimal_spec(max_storage_buffers as nat),
{
    let required = match input_count.checked_add(2) {
        Some(n) => n,
        None => {
            return Err(
                HephaestusError::InvalidConfiguration {
                    message: String::from_str("fusion binding count overflows usize"),
                },
            );
        },
    };
    let limit = max_storage_buffers as usize;
    if required > limit {
        let mut message = String::from_str("fusion requires ");
        let a = decimal(required as u64);
        message.append(a.as_str());
        message.append(" storage bindings, device limit is ");
        let b = decimal(limit as u64);
        message.append(b.as_str());
        return Err(HephaestusError::InvalidConfiguration { message });
    }
    Ok(())
}

/// One tensor operand of a fused expression: its layout and the length of
/// its buffer.
#[derive(Debug)]
pub struct FusionOperand {
    pub layout: StridedLayout,
    pub buffer_len: usize,
}

/// Whether `validate_common` accepts the operands (`aliases[i]`: the output
/// buffer is input `i`'s buffer).
pub open spec fn common_accepts(
    inputs: Seq<FusionOperand>,
    aliases: Seq<bool>,
    output: FusionOperand,
    max_storage_buffers: int,
) -> bool {
    &&& inputs.len() > 0
    &&& inputs.len() + 2 <= max_storage_buffers
    &&& output.layout.wf()
    &&& forall|i: int| 0 <= i < inputs.len() ==> (#[trigger] inputs[i]).layout.wf()
    &&& forall|i: int| 0 <= i < inputs.len() ==> !#[trigger] aliases[i]
    &&& forall|i: int|
        0 <= i < inputs.len() ==> (#[trigger] inputs[i]).layout.fits_storage(
            inputs[i].buffer_len as int,
        )
    &&& output.layout.fits_storage(output.buffer_len as int)
    &&& leto_injectivity(output.layout.shape@, output.layout.strides@) == Some(true)
    &&& output.layout.shape@.len() <= MAX_FUSION_RANK
}

/// Validate the operands of a fused launch and return the output element
/// count.
pub fn validate_common(
    inputs: &[FusionOperand],
    aliases: &[bool],
    output: &FusionOperand,
    max_storage_buffers: u32,
) -> (r: Result<usize, HephaestusError>)
    requires
        aliases@.len() == inputs@.len(),
    ensures
        r is Ok <==> common_accepts(inputs@, aliases@, *output, max_storage_buffers as int),
        r is Ok ==> r->Ok_0 == output.layout.size_spec(),
        r is Ok ==> addresses_distinct(output.layout.shape@, output.layout.strides@),
        r is Err ==> fusion_error(r->Err_0),
{
    if inputs.len() == 0 {
        return Err(
            HephaestusError::InvalidConfiguration {
                message: String::from_str("fusion expression must contain at least one tensor input"),
            },
        );
    }
    validate_binding_count(inputs.len(), max_storage_buffers)?;
    if output.layout.shape.len() != output.layout.strides.len() {
        return Err(
            HephaestusError::DispatchFailed {
                message: String::from_str("fusion output layout shape and stride ranks differ"),
            },
        );
    }
    let mut i: usize = 0;
    while i < inputs.len()
        invariant
            aliases@.len() == inputs@.len(),
            i <= inputs@.len(),
            forall|k: int| 0 <= k < i ==> (#[trigger] inputs@[k]).layout.wf(),
            forall|k: int| 0 <= k < i ==> !#[trigger] aliases@[k],
            forall|k: int|
                0 <= k < i ==> (#[trigger] inputs@[k]).layout.fits_storage(
                    inputs@[k].buffer_len as int,
                ),
        decreases inputs@.len() - i,
    {
        let input = &inputs[i];
        if input.layout.shape.len() != input.layout.strides.len() {
            return Err(
                HephaestusError::DispatchFailed {
                    message: String::from_str("fusion input layout shape and stride ranks differ"),
                },
            );
        }
        if aliases[i] {
            return Err(
                HephaestusError::DispatchFailed {
                    message: String::from_str("fusion output buffer must not alias an input buffer"),
                },
            );
        }
        match input.layout.validate_storage_len(input.buffer_len) {
            Ok(()) => {},
            Err(error) => {
                return Err(rejected("fusion input layout rejected: ", error.message.as_str()));
            },
        }
        i = i + 1;
    }
    match output.layout.validate_storage_len(output.buffer_len) {
        Ok(()) => {},
        Err(error) => {
            return Err(rejected("fusion output layout rejected: ", error.message.as_str()));
        },
    }
    let injectivity = output.layout.is_injective();
    check_output_injectivity(&output.layout, injectivity)
}

/// Finish validating a fusion output from `leto`'s injectivity answer for
/// its layout: the output must be injective, of rank at most
/// `MAX_FUSION_RANK`, and its element count is returned.
pub fn check_output_injectivity(
    output: &StridedLayout,
    injectivity: Result<bool, LayoutError>,
) -> (r: Result<usize, HephaestusError>)
    requires
        output.wf(),
    ensures
        r is Ok <==> (injectivity matches Ok(b) && b) && output.shape@.len() <= MAX_FUSION_RANK
            && output.size_fits(),
        r is Ok ==> r->Ok_0 == output.size_spec(),
        r is Err ==> fusion_error(r->Err_0),
        injectivity matches Ok(b) && !b ==> r is Err && message_of(r->Err_0)
            == "fusion output layout must be injective"@,
        injectivity matches Err(e) ==> r is Err && message_of(r->Err_0)
            == "fusion output injectivity proof failed: "@ + e.message@,
        (injectivity matches Ok(b) && b) && output.shape@.len() > MAX_FUSION_RANK ==> r is Err
            && message_of(r->Err_0) == "WGPU fusion supports rank <= 8, got "@ + decimal_spec(
            output.shape@.len(),
        ),
{
    match injectivity {
        Ok(true) => {},
        Ok(false) => {
            return Err(
                HephaestusError::DispatchFailed {
                    message: String::from_str("fusion output layout must be injective"),
                },
            );
        },
        Err(error) => {
            return Err(rejected("fusion output injectivity proof failed: ", error.message.as_str()));
        },
    }
    if output.ndim() > MAX_FUSION_RANK {
        return Err(rank_error(output.ndim()));
    }
    match output.checked_size() {
        Ok(n) => Ok(n),
        Err(error) => Err(rejected("fusion output layout rejected: ", error.message.as_str())),
    }
}

/// The layout an operand takes when broadcast to `target`.
pub open spec fn broadcast_view(l: LayoutView, target: Seq<usize>) -> LayoutView {
    LayoutView {
        shape: target,
        strides: broadcast_strides_spec(l.shape, l.strides, target),
        offset: l.offset,
    }
}

/// Operand `i` broadcasts to `target`, still fits its buffer, and can be
/// described to the kernels.
pub open spec fn input_ready(op: FusionOperand, target: Seq<usize>) -> bool {
    &&& broadcastable(op.layout.shape@, target)
    &&& broadcast_view(op.layout@, target).fits_storage(op.buffer_len as int)
    &&& info_representable(broadcast_view(op.layout@, target), None)
}

fn input_infos(inputs: &[FusionOperand], target: &[usize]) -> (r: Result<
    Vec<FusionLayoutInfo>,
    HephaestusError,
>)
    requires
        forall|i: int| 0 <= i < inputs@.len() ==> (#[trigger] inputs@[i]).layout.wf(),
    ensures
        r is Ok <==> forall|i: int| 0 <= i < inputs@.len() ==> input_ready(#[trigger] inputs@[i], target@),
        r is Ok ==> r->Ok_0@.len() == inputs@.len() && forall|i: int|
            0 <= i < inputs@.len() ==> info_describes(
                #[trigger] r->Ok_0@[i],
                broadcast_view(inputs@[i].layout@, target@),
                None,
            ),
        r is Err ==> fusion_error(r->Err_0),
{
    let mut infos: Vec<FusionLayoutInfo> = Vec::new();
    let mut i: usize = 0;
    while i < inputs.len()
        invariant
            i <= inputs@.len(),
            forall|k: int| 0 <= k < inputs@.len() ==> (#[trigger] inputs@[k]).layout.wf(),
            infos@.len() == i,
            forall|k: int| 0 <= k < i ==> input_ready(#[trigger] inputs@[k], target@),
            forall|k: int|
                0 <= k < i ==> info_describes(
                    #[trigger] infos@[k],
                    broadcast_view(inputs@[k].layout@, target@),
                    None,
                ),
        decreases inputs@.len() - i,
    {
        let input = &inputs[i];
        let broadcasted = match input.layout.broadcast(target) {
            Ok(b) => b,
            Err(error) => {
                return Err(rejected("fusion input is not broadcastable: ", error.message.as_str()));
            },
        };
        assert(broadcasted@ == broadcast_view(input.layout@, target@));
        match broadcasted.validate_storage_len(input.buffer_len) {
            Ok(()) => {},
            Err(error) => {
                return Err(
                    rejected("broadcast fusion input layout rejected: ", error.message.as_str()),
                );
            },
        }
        let info = FusionLayoutInfo::from_layout(&broadcasted, None)?;
        infos.push(info);
        i = i + 1;
    }
    Ok(infos)
}

/// Whether `metadata_for_elementwise` accepts the operands.
pub open spec fn elementwise_metadata_ok(inputs: Seq<FusionOperand>, output: FusionOperand) -> bool {
    &&& output.layout.size_fits()
    &&& forall|i: int| 0 <= i < inputs.len() ==> input_ready(#[trigger] inputs[i], output.layout.shape@)
    &&& info_representable(output.layout@, Some((0, 1)))
}

/// Layout records of an elementwise launch: every input broadcast to the
/// output shape, then the output itself.
pub fn metadata_for_elementwise(inputs: &[FusionOperand], output: &FusionOperand) -> (r: Result<
    Vec<FusionLayoutInfo>,
    HephaestusError,
>)
    requires
        forall|i: int| 0 <= i < inputs@.len() ==> (#[trigger] inputs@[i]).layout.wf(),
        output.layout.wf(),
    ensures
        r is Ok <==> elementwise_metadata_ok(inputs@, *output),
        r is Ok ==> {
            &&& r->Ok_0@.len() == inputs@.len() + 1
            &&& forall|i: int|
                0 <= i < inputs@.len() ==> info_describes(
                    #[trigger] r->Ok_0@[i],
                    broadcast_view(inputs@[i].layout@, output.layout.shape@),
                    None,
                )
            &&& info_describes(r->Ok_0@[inputs@.len() as int], output.layout@, Some((0, 1)))
        },
        r is Err ==> fusion_error(r->Err_0),
{
    match output.layout.checked_size() {
        Ok(_) => {},
        Err(error) => {
            return Err(rejected("fusion output layout rejected: ", error.message.as_str()));
        },
    }
    let mut infos = input_infos(inputs, output.layout.shape.as_slice())?;
    let out_info = FusionLayoutInfo::from_layout(&output.layout, Some((0, 1)))?;
    let ghost before = infos@;
    infos.push(out_info);
    assert(forall|i: int| 0 <= i < inputs@.len() ==> infos@[i] == before[i]);
    Ok(infos)
}

/// The largest rank among the first `n` operands.
pub open spec fn max_rank(inputs: Seq<FusionOperand>, n: int) -> int
    decreases n,
{
    if n <= 0 {
        0
    } else {
        let prev = max_rank(inputs, n - 1);
        let r = inputs[n - 1].layout.shape@.len() as int;
        if prev >= r {
            prev
        } else {
            r
        }
    }
}

/// The extent `s` contributes at axis `t` of a rank-`rank` expression when
/// trailing axes are aligned: one where `s` does not reach.
pub open spec fn aligned_extent(s: Seq<usize>, rank: int, t: int) -> usize {
    let shift = rank - s.len();
    if t < shift {
        1
    } else {
        s[t - shift]
    }
}

/// The broadcast extent at axis `t` after the first `n` operands: the first
/// extent other than one, else one.
pub open spec fn extent_upto(inputs: Seq<FusionOperand>, rank: int, t: int, n: int) -> usize
    decreases n,
{
    if n <= 0 {
        1
    } else {
        let a = extent_upto(inputs, rank, t, n - 1);
        if a == 1 {
            aligned_extent(inputs[n - 1].layout.shape@, rank, t)
        } else {
            a
        }
    }
}

/// The first `n` operands agree at axis `t`: every extent other than one is
/// the same.
pub open spec fn compatible_upto(inputs: Seq<FusionOperand>, rank: int, t: int, n: int) -> bool
    decreases n,
{
    if n <= 0 {
        true
    } else {
        let a = extent_upto(inputs, rank, t, n - 1);
        let d = aligned_extent(inputs[n - 1].layout.shape@, rank, t);
        compatible_upto(inputs, rank, t, n - 1) && (a == 1 || d == 1 || d == a)
    }
}

/// The operands broadcast against each other.
pub open spec fn shapes_broadcast(inputs: Seq<FusionOperand>) -> bool {
    let rank = max_rank(inputs, inputs.len() as int);
    forall|t: int| 0 <= t < rank ==> #[trigger] compatible_upto(inputs, rank, t, inputs.len() as int)
}

/// The broadcast shape of the operands.
pub open spec fn expression_shape_spec(inputs: Seq<FusionOperand>) -> Seq<usize> {
    let rank = max_rank(inputs, inputs.len() as int);
    Seq::new(rank as nat, |t: int| extent_upto(inputs, rank, t, inputs.len() as int))
}

proof fn lemma_compatible_prefix(inputs: Seq<FusionOperand>, rank: int, t: int, m: int, n: int)
    requires
        0 <= m <= n,
        compatible_upto(inputs, rank, t, n),
    ensures
        compatible_upto(inputs, rank, t, m),
    decreases n - m,
{
    if m < n {
        lemma_compatible_prefix(inputs, rank, t, m, n - 1);
    }
}

proof fn lemma_max_rank(inputs: Seq<FusionOperand>, n: int)
    requires
        0 <= n <= inputs.len(),
    ensures
        max_rank(inputs, n) >= 0,
        forall|i: int| 0 <= i < n ==> (#[trigger] inputs[i]).layout.shape@.len() <= max_rank(inputs, n),
    decreases n,
{
    if n > 0 {
        lemma_max_rank(inputs, n - 1);
    }
}

fn input_rank(inputs: &[FusionOperand]) -> (r: usize)
    ensures
        r == max_rank(inputs@, inputs@.len() as int),
{
    let mut rank: usize = 0;
    let mut i: usize = 0;
    while i < inputs.len()
        invariant
            i <= inputs@.len(),
            rank == max_rank(inputs@, i as int),
        decreases inputs@.len() - i,
    {
        let r = inputs[i].layout.shape.len();
        if rank < r {
            rank = r;
        }
        i = i + 1;
    }
    rank
}

/// The shape every operand broadcasts to: trailing axes aligned, each axis
/// the extent the operands share, one where all have one.
pub fn expression_shape(inputs: &[FusionOperand]) -> (r: Result<Vec<usize>, HephaestusError>)
    ensures
        r is Ok <==> shapes_broadcast(inputs@),
        r is Ok ==> r->Ok_0@ == expression_shape_spec(inputs@),
        r is Err ==> r->Err_0 is DispatchFailed && message_of(r->Err_0)
            == "fusion inputs have incompatible broadcast shapes"@,
{
    let rank = input_rank(inputs);
    proof {
        lemma_max_rank(inputs@, inputs@.len() as int);
    }
    let mut shape: Vec<usize> = Vec::new();
    let mut k: usize = 0;
    while k < rank
        invariant
            k <= rank,
            shape@.len() == k,
            forall|t: int| 0 <= t < k ==> #[trigger] shape@[t] == 1,
        decreases rank - k,
    {
        shape.push(1);
        k = k + 1;
    }
    let ghost n = inputs@.len() as int;
    let ghost ri = rank as int;
    let mut i: usize = 0;
    while i < inputs.len()
        invariant
            ri == rank,
            ri == max_rank(inputs@, n),
            n == inputs@.len(),
            i <= n,
            shape@.len() == rank,
            forall|j: int| 0 <= j < n ==> (#[trigger] inputs@[j]).layout.shape@.len() <= ri,
            forall|t: int|
                0 <= t < rank ==> #[trigger] shape@[t] == extent_upto(inputs@, ri, t, i as int)
                    && compatible_upto(inputs@, ri, t, i as int),
        decreases n - i,
    {
        let s = &inputs[i].layout.shape;
        let nd = s.len();
        let shift = rank - nd;
        let ghost iv = i as int;
        assert forall|t: int| 0 <= t < shift implies #[trigger] shape@[t] == extent_upto(
            inputs@,
            ri,
            t,
            iv + 1,
        ) && compatible_upto(inputs@, ri, t, iv + 1) by {
            assert(aligned_extent(inputs@[iv].layout.shape@, ri, t) == 1);
            assert(shape@[t] == extent_upto(inputs@, ri, t, iv));
        }
        assert forall|t: int| shift <= t < rank implies #[trigger] shape@[t] == extent_upto(
            inputs@,
            ri,
            t,
            iv,
        ) && compatible_upto(inputs@, ri, t, iv) by {
            assert(shape@[t] == extent_upto(inputs@, ri, t, iv));
        }
        let mut axis: usize = 0;
        while axis < nd
            invariant
                ri == rank,
                ri == max_rank(inputs@, n),
                iv == i,
                0 <= iv < n,
                n == inputs@.len(),
                nd == inputs@[iv].layout.shape@.len(),
                s@ == inputs@[iv].layout.shape@,
                shift == rank - nd,
                nd <= rank,
                axis <= nd,
                shape@.len() == rank,
                forall|t: int|
                    0 <= t < shift + axis ==> #[trigger] shape@[t] == extent_upto(
                        inputs@,
                        ri,
                        t,
                        iv + 1,
                    ) && compatible_upto(inputs@, ri, t, iv + 1),
                forall|t: int|
                    shift + axis <= t < rank ==> #[trigger] shape@[t] == extent_upto(
                        inputs@,
                        ri,
                        t,
                        iv,
                    ) && compatible_upto(inputs@, ri, t, iv),
            decreases nd - axis,
        {
            let t = axis + shift;
            let target = shape[t];
            let d = s[axis];
            assert(aligned_extent(inputs@[iv].layout.shape@, ri, t as int) == d);
            let ghost before = shape@;
            if target == 1 {
                shape.set(t, d);
            } else if d != 1 && target != d {
                proof {
                    assert(!compatible_upto(inputs@, ri, t as int, iv + 1));
                    if compatible_upto(inputs@, ri, t as int, n) {
                        lemma_compatible_prefix(inputs@, ri, t as int, iv + 1, n);
                    }
                    assert(!compatible_upto(inputs@, ri, t as int, n));
                    assert(0 <= t < ri);
                    if shapes_broadcast(inputs@) {
                        assert(compatible_upto(
                            inputs@,
                            max_rank(inputs@, inputs@.len() as int),
                            t as int,
                            inputs@.len() as int,
                        ));
                        assert(false);
                    }
                }
                let message = String::from_str("fusion inputs have incompatible broadcast shapes");
                return Err(HephaestusError::DispatchFailed { message });
            }
            assert(shape@[t as int] == extent_upto(inputs@, ri, t as int, iv + 1));
            assert(compatible_upto(inputs@, ri, t as int, iv + 1));
            assert forall|u: int| t + 1 <= u < rank implies #[trigger] shape@[u] == extent_upto(
                inputs@,
                ri,
                u,
                iv,
            ) && compatible_upto(inputs@, ri, u, iv) by {
                assert(shape@[u] == before[u]);
            }
            assert forall|u: int| 0 <= u < t implies #[trigger] shape@[u] == extent_upto(
                inputs@,
                ri,
                u,
                iv + 1,
            ) && compatible_upto(inputs@, ri, u, iv + 1) by {
                assert(shape@[u] == before[u]);
            }
            axis = axis + 1;
        }
        i = i + 1;
    }
    assert forall|t: int| 0 <= t < ri implies #[trigger] compatible_upto(inputs@, ri, t, n) by {
        assert(shape@[t] == extent_upto(inputs@, ri, t, n));
    }
    assert(shape@ =~= expression_shape_spec(inputs@));
    Ok(shape)
}

/// The shape a reduction over `axis` of an expression of `shape` writes:
/// the reduced axis kept with extent one.
pub open spec fn reduced_expression_shape(shape: Seq<usize>, axis: int) -> Seq<usize> {
    shape.update(axis, 1usize)
}

/// Whether `reduction_metadata` accepts the operands.
pub open spec fn reduction_metadata_ok(inputs: Seq<FusionOperand>, output: FusionOperand, axis: int) -> bool {
    let shape = expression_shape_spec(inputs);
    &&& shapes_broadcast(inputs)
    &&& axis < shape.len()
    &&& output.layout.shape@ == reduced_expression_shape(shape, axis)
    &&& forall|i: int| 0 <= i < inputs.len() ==> input_ready(#[trigger] inputs[i], shape)
    &&& info_representable(output.layout@, Some((axis as usize, shape[axis])))
}

/// Layout records of an axis-reduction launch over the broadcast expression
/// shape (inputs broadcast to it, then the output carrying the reduced axis
/// and its extent), and the reduced extent.
pub fn reduction_metadata(inputs: &[FusionOperand], output: &FusionOperand, axis: usize) -> (r: Result<
    (Vec<FusionLayoutInfo>, usize),
    HephaestusError,
>)
    requires
        forall|i: int| 0 <= i < inputs@.len() ==> (#[trigger] inputs@[i]).layout.wf(),
        output.layout.wf(),
    ensures
        r is Ok <==> reduction_metadata_ok(inputs@, *output, axis as int),
        r is Ok ==> {
            let shape = expression_shape_spec(inputs@);
            let (infos, extent) = r->Ok_0;
            &&& extent == shape[axis as int]
            &&& infos@.len() == inputs@.len() + 1
            &&& forall|i: int|
                0 <= i < inputs@.len() ==> info_describes(
                    #[trigger] infos@[i],
                    broadcast_view(inputs@[i].layout@, shape),
                    None,
                )
            &&& info_describes(
                infos@[inputs@.len() as int],
                output.layout@,
                Some((axis, shape[axis as int])),
            )
        },
        r is Err ==> fusion_error(r->Err_0),
{
    let shape = expression_shape(inputs)?;
    if axis >= shape.len() {
        let mut message = String::from_str("fusion reduction axis ");
        let a = decimal(axis as u64);
        message.append(a.as_str());
        message.append(" is out of range for rank ");
        let b = decimal(shape.len() as u64);
        message.append(b.as_str());
        return Err(HephaestusError::InvalidConfiguration { message });
    }
    if output.layout.shape.len() != shape.len() {
        let mut message = String::from_str("fusion reduction output rank ");
        let a = decimal(output.layout.shape.len() as u64);
        message.append(a.as_str());
        message.append(" does not match expression rank ");
        let b = decimal(shape.len() as u64);
        message.append(b.as_str());
        return Err(HephaestusError::DispatchFailed { message });
    }
    let mut k: usize = 0;
    while k < shape.len()
        invariant
            shape@ == expression_shape_spec(inputs@),
            shapes_broadcast(inputs@),
            axis < shape@.len(),
            output.layout.shape@.len() == shape@.len(),
            k <= shape@.len(),
            forall|q: int| 0 <= q < k ==> #[trigger] output.layout.shape@[q] == reduced_expression_shape(shape@, axis as int)[q],
        decreases shape@.len() - k,
    {
        let expected = if k == axis {
            1
        } else {
            shape[k]
        };
        if output.layout.shape[k] != expected {
            assert(output.layout.shape@[k as int] != reduced_expression_shape(shape@, axis as int)[k as int]);
            return Err(
                HephaestusError::DispatchFailed {
                    message: String::from_str(
                        "fusion reduction output shape does not match the expected shape",
                    ),
                },
            );
        }
        k = k + 1;
    }
    assert(output.layout.shape@ =~= reduced_expression_shape(shape@, axis as int));
    let axis_length = shape[axis];
    let mut infos = input_infos(inputs, shape.as_slice())?;
    let out_info = FusionLayoutInfo::from_layout(&output.layout, Some((axis, axis_length)))?;
    let ghost before = infos@;
    infos.push(out_info);
    assert(forall|i: int| 0 <= i < inputs@.len() ==> infos@[i] == before[i]);
    Ok((infos, axis_length))
}

/// The axis reductions a fused expression can end with.
#[derive(Debug, Clone, Copy, PartialEq, Eq, Structural)]
pub enum FusedReduction {
    Sum,
    Product,
    Mean,
    Maximum,
    Minimum,
}

/// Mean, maximum and minimum have no value over an empty axis.
pub open spec fn needs_nonempty_axis(reduction: FusedReduction) -> bool {
    reduction == FusedReduction::Mean || reduction == FusedReduction::Maximum || reduction
        == FusedReduction::Minimum
}

/// Reject a reduction that is undefined over an empty axis.
pub fn check_reduction_extent(reduction: FusedReduction, axis_length: usize) -> (r: Result<
    (),
    HephaestusError,
>)
    ensures
        r is Ok <==> !(needs_nonempty_axis(reduction) && axis_length == 0),
        r is Err ==> r->Err_0 is InvalidConfiguration && message_of(r->Err_0) == "fused "@
            + reduction_name(reduction) + " reduction does not define an empty axis"@,
{
    let strict = match reduction {
        FusedReduction::Mean | FusedReduction::Maximum | FusedReduction::Minimum => true,
        _ => false,
    };
    if strict && axis_length == 0 {
        let name = match reduction {
            FusedReduction::Mean => "Mean",
            FusedReduction::Maximum => "Maximum",
            _ => "Minimum",
        };
        let mut message = String::from_str("fused ");
        message.append(name);
        message.append(" reduction does not define an empty axis");
        return Err(HephaestusError::InvalidConfiguration { message });
    }
    Ok(())
}

/// Bindings and grid of a fused launch.
#[derive(Debug, Clone, Copy, PartialEq, Eq, Structural)]
pub struct FusionLaunch {
    pub rank: u32,
    pub input_count: u32,
    pub output_binding: u32,
    pub layout_binding: u32,
    pub groups: u32,
}

/// Plan a fused launch writing `output_len` values of a rank-`rank` output
/// from `input_count` inputs: inputs bind at `0..input_count`, the output
/// next, the layout records last; `None` when there is nothing to write.
pub fn plan_fusion_launch(output_len: usize, rank: usize, input_count: usize) -> (r: Result<
    Option<FusionLaunch>,
    HephaestusError,
>)
    ensures
        output_len == 0 ==> r is Ok && r->Ok_0 is None,
        output_len > 0 ==> (r is Ok <==> rank <= u32::MAX && input_count < u32::MAX
            && crate::pipeline::ceil_div(output_len as int, 256) <= u32::MAX),
        r is Ok && r->Ok_0 is Some ==> r->Ok_0->0 == (FusionLaunch {
            rank: rank as u32,
            input_count: input_count as u32,
            output_binding: input_count as u32,
            layout_binding: (input_count + 1) as u32,
            groups: crate::pipeline::ceil_div(output_len as int, 256) as u32,
        }),
        r is Err ==> fusion_error(r->Err_0),
        r is Err ==> message_of(r->Err_0) == if rank > u32::MAX {
            "fusion rank exceeds u32 range"@
        } else if input_count > u32::MAX {
            "fusion input count exceeds u32 range"@
        } else if input_count == u32::MAX {
            "fusion layout binding exceeds u32 range"@
        } else {
            crate::pipeline::workgroup_overflow_text(output_len as nat)
        },
{
    if output_len == 0 {
        return Ok(None);
    }
    if rank > u32::MAX as usize {
        return Err(
            HephaestusError::InvalidConfiguration {
                message: String::from_str("fusion rank exceeds u32 range"),
            },
        );
    }
    if input_count > u32::MAX as usize {
        return Err(
            HephaestusError::InvalidConfiguration {
                message: String::from_str("fusion input count exceeds u32 range"),
            },
        );
    }
    let output_binding = input_count as u32;
    if output_binding == u32::MAX {
        return Err(
            HephaestusError::InvalidConfiguration {
                message: String::from_str("fusion layout binding exceeds u32 range"),
            },
        );
    }
    let groups = crate::pipeline::workgroups(output_len, crate::pipeline::BlockWidth::standard())?;
    Ok(
        Some(
            FusionLaunch {
                rank: rank as u32,
                input_count: input_count as u32,
                output_binding,
                layout_binding: output_binding + 1,
                groups,
            },
        ),
    )
}

/// The name of a fused reduction as it appears in pipeline keys and
/// messages.
pub open spec fn reduction_name(reduction: FusedReduction) -> Seq<char> {
    match reduction {
        FusedReduction::Sum => "Sum"@,
        FusedReduction::Product => "Product"@,
        FusedReduction::Mean => "Mean"@,
        FusedReduction::Maximum => "Maximum"@,
        FusedReduction::Minimum => "Minimum"@,
    }
}

/// The pipeline key of a fused reduction: `"{reduction}:{expression}"`, so
/// that one expression reduced two ways compiles two pipelines.
pub fn reduction_key(reduction: FusedReduction, expression: &str) -> (k: String)
    ensures
        k@ == reduction_name(reduction) + ":"@ + expression@,
{
    let mut k = match reduction {
        FusedReduction::Sum => String::from_str("Sum"),
        FusedReduction::Product => String::from_str("Product"),
        FusedReduction::Mean => String::from_str("Mean"),
        FusedReduction::Maximum => String::from_str("Maximum"),
        FusedReduction::Minimum => String::from_str("Minimum"),
    };
    k.append(":");
    k.append(expression);
    k
}

proof fn lemma_extent_settles(inputs: Seq<FusionOperand>, rank: int, t: int, k: int, m: int)
    requires
        0 <= k <= m,
        extent_upto(inputs, rank, t, k) != 1,
    ensures
        extent_upto(inputs, rank, t, m) == extent_upto(inputs, rank, t, k),
    decreases m - k,
{
    if k < m {
        lemma_extent_settles(inputs, rank, t, k, m - 1);
    }
}

/// Broadcast law of fused expressions: when the operands broadcast against
/// each other, every operand broadcasts to the expression shape.
pub proof fn lemma_expression_shape_broadcasts(inputs: Seq<FusionOperand>, i: int)
    requires
        shapes_broadcast(inputs),
        0 <= i < inputs.len(),
    ensures
        broadcastable(inputs[i].layout.shape@, expression_shape_spec(inputs)),
{
    let n = inputs.len() as int;
    let rank = max_rank(inputs, n);
    let target = expression_shape_spec(inputs);
    let source = inputs[i].layout.shape@;
    lemma_max_rank(inputs, n);
    assert(target.len() >= source.len());
    let shift = target.len() - source.len();
    assert forall|a: int| 0 <= a < source.len() implies #[trigger] source[a] == target[a + shift]
        || source[a] == 1 by {
        let t = a + shift;
        assert(aligned_extent(source, rank, t) == source[a]);
        if source[a] != 1 {
            assert(compatible_upto(inputs, rank, t, n));
            lemma_compatible_prefix(inputs, rank, t, i + 1, n);
            assert(compatible_upto(inputs, rank, t, i + 1));
            assert(extent_upto(inputs, rank, t, i + 1) == source[a]);
            lemma_extent_settles(inputs, rank, t, i + 1, n);
            assert(target[t] == extent_upto(inputs, rank, t, n));
        }
    }
}

/// Pipeline-key law of fused reductions: the key determines both the
/// reduction and the expression, so two fused reductions share a compiled
/// pipeline only when they reduce the same expression the same way.
pub proof fn lemma_reduction_key_injective(
    r1: FusedReduction,
    e1: Seq<char>,
    r2: FusedReduction,
    e2: Seq<char>,
)
    requires
        reduction_name(r1) + ":"@ + e1 == reduction_name(r2) + ":"@ + e2,
    ensures
        r1 == r2,
        e1 == e2,
{
    reveal_strlit("Sum");
    reveal_strlit("Product");
    reveal_strlit("Mean");
    reveal_strlit("Maximum");
    reveal_strlit("Minimum");
    reveal_strlit(":");
    let n1 = reduction_name(r1);
    let n2 = reduction_name(r2);
    let k1 = n1 + ":"@ + e1;
    let k2 = n2 + ":"@ + e2;
    assert(forall|i: int| 0 <= i < n1.len() ==> #[trigger] n1[i] != ':');
    assert(forall|i: int| 0 <= i < n2.len() ==> #[trigger] n2[i] != ':');
    assert(k1[n1.len() as int] == ':');
    assert(k2[n2.len() as int] == ':');
    if n1.len() < n2.len() {
        assert(k2[n1.len() as int] == n2[n1.len() as int]);
        assert(false);
    } else if n2.len() < n1.len() {
        assert(k1[n2.len() as int] == n1[n2.len() as int]);
        assert(false);
    }
    assert(n1.len() == n2.len());
    assert forall|i: int| 0 <= i < n1.len() implies n1[i] == n2[i] by {
        assert(k1[i] == n1[i]);
        assert(k2[i] == n2[i]);
    }
    assert(n1 =~= n2);
    assert(r1 == r2) by {
        if r1 != r2 {
            assert(n1[0] != n2[0] || n1[1] != n2[1]);
        }
    }
    assert(k1.len() == n1.len() + 1 + e1.len());
    assert(k2.len() == n2.len() + 1 + e2.len());
    assert(e1.len() == e2.len());
    assert forall|i: int| 0 <= i < e1.len() implies e1[i] == e2[i] by {
        assert(k1[n1.len() + 1 + i] == e1[i]);
        assert(k2[n2.len() + 1 + i] == e2[i]);
    }
    assert(e1 =~= e2);
}

/// Provider value implementing both runtime fusion roles.
#[derive(Clone, Copy, Debug, Default)]
pub struct WgpuFusionOps;

} // verus!
