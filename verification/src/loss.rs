//! Uniform metadata of the cross-entropy kernels.

use crate::error::{message_of, HephaestusError};
use crate::layout::{
    axis_span, c_stride, c_strides_fit, has_zero_extent, negative_span, positive_span, spans_fit,
    StridedLayout,
};
use crate::text::{decimal, decimal_spec};
use vstd::prelude::*;

verus! {

/// Shape and signed addressing of one cross-entropy operand: up to two
/// extents (padded with ones), their strides, and the base offset in
/// `address[2]`.
#[derive(Debug, Clone, Copy)]
pub struct LayoutMeta {
    pub shape: [u32; 4],
    pub address: [i32; 4],
}

/// Whether `layout` can be described to the kernels: rank at most two,
/// extents in `u32`, strides, offset and every addressed offset in `i32`.
pub open spec fn meta_representable(l: StridedLayout) -> bool {
    &&& l.shape@.len() <= 2
    &&& forall|a: int| 0 <= a < l.shape@.len() ==> #[trigger] l.shape@[a] <= u32::MAX
    &&& forall|a: int| 0 <= a < l.shape@.len() ==> i32::MIN <= #[trigger] l.strides@[a] <= i32::MAX
    &&& l.offset <= i32::MAX
    &&& l.offsets_ok()
    &&& l.min_offset_spec() <= i32::MAX
    &&& l.max_offset_spec() <= i32::MAX
}

/// `m` describes `l`.
pub open spec fn describes(m: LayoutMeta, l: StridedLayout) -> bool {
    &&& forall|a: int|
        0 <= a < 4 ==> #[trigger] m.shape[a] == if a < l.shape@.len() {
            l.shape@[a] as int
        } else {
            1
        }
    &&& forall|a: int|
        0 <= a < 2 ==> #[trigger] m.address[a] == if a < l.shape@.len() {
            l.strides@[a] as int
        } else {
            0
        }
    &&& m.address[2] == l.offset
    &&& m.address[3] == 0
}

fn invalid(message: String) -> (e: HephaestusError)
    ensures
        e == (HephaestusError::InvalidConfiguration { message }),
{
    HephaestusError::InvalidConfiguration { message }
}

fn axis_message(prefix: &str, value: u64, middle: &str, axis: usize, suffix: &str) -> (s: String)
    ensures
        s@ == prefix@ + decimal_spec(value as nat) + middle@ + decimal_spec(axis as nat) + suffix@,
{
    let mut s = String::from_str(prefix);
    let v = decimal(value);
    s.append(v.as_str());
    s.append(middle);
    let a = decimal(axis as u64);
    s.append(a.as_str());
    s.append(suffix);
    s
}

impl LayoutMeta {
    /// Describe `layout` to the cross-entropy kernels.
    pub fn new(layout: &StridedLayout) -> (r: Result<LayoutMeta, HephaestusError>)
        requires
            layout.wf(),
        ensures
            r is Ok <==> meta_representable(*layout),
            r is Ok ==> describes(r->Ok_0, *layout),
            r is Err ==> r->Err_0 is InvalidConfiguration,
            layout.shape@.len() > 2 ==> r is Err && message_of(r->Err_0)
                == "cross-entropy WGSL metadata supports rank at most 2, got "@ + decimal_spec(
                layout.shape@.len(),
            ),
    {
        let rank = layout.shape.len();
        if rank > 2 {
            let mut message = String::from_str(
                "cross-entropy WGSL metadata supports rank at most 2, got ",
            );
            let d = decimal(rank as u64);
            message.append(d.as_str());
            return Err(invalid(message));
        }
        let mut shape = [1u32; 4];
        let mut address = [0i32; 4];
        let mut axis: usize = 0;
        while axis < rank
            invariant
                rank == layout.shape@.len(),
                layout.wf(),
                rank <= 2,
                axis <= rank,
                forall|a: int| 0 <= a < axis ==> #[trigger] layout.shape@[a] <= u32::MAX,
                forall|a: int| 0 <= a < axis ==> i32::MIN <= #[trigger] layout.strides@[a] <= i32::MAX,
                forall|a: int|
                    0 <= a < 4 ==> #[trigger] shape[a] == if a < axis {
                        layout.shape@[a] as int
                    } else {
                        1
                    },
                forall|a: int|
                    0 <= a < 4 ==> #[trigger] address[a] == if a < axis {
                        layout.strides@[a] as int
                    } else {
                        0
                    },
            decreases rank - axis,
        {
            let extent = layout.shape[axis];
            if extent > u32::MAX as usize {
                return Err(invalid(axis_message("cross-entropy extent ", extent as u64, " on axis ", axis, " exceeds u32 range")));
            }
            let stride = layout.strides[axis];
            if stride < i32::MIN as isize || stride > i32::MAX as isize {
                let mut message = String::from_str("cross-entropy stride on axis ");
                let a = decimal(axis as u64);
                message.append(a.as_str());
                message.append(" exceeds i32 range");
                return Err(invalid(message));
            }
            shape[axis] = extent as u32;
            address[axis] = stride as i32;
            axis = axis + 1;
        }
        if layout.offset > i32::MAX as usize {
            let mut message = String::from_str("cross-entropy offset ");
            let d = decimal(layout.offset as u64);
            message.append(d.as_str());
            message.append(" exceeds signed WGSL address range");
            return Err(invalid(message));
        }
        address[2] = layout.offset as i32;
        let (minimum, maximum) = match layout.checked_min_max_offsets() {
            Ok(bounds) => bounds,
            Err(error) => {
                let mut message = String::from_str("cross-entropy layout address range rejected: ");
                message.append(error.message.as_str());
                return Err(invalid(message));
            },
        };
        if minimum > i32::MAX as usize {
            let mut message = String::from_str("cross-entropy minimum offset ");
            let d = decimal(minimum as u64);
            message.append(d.as_str());
            message.append(" exceeds signed WGSL address range");
            return Err(invalid(message));
        }
        if maximum > i32::MAX as usize {
            let mut message = String::from_str("cross-entropy maximum offset ");
            let d = decimal(maximum as u64);
            message.append(d.as_str());
            message.append(" exceeds signed WGSL address range");
            return Err(invalid(message));
        }
        let m = LayoutMeta { shape, address };
        assert(describes(m, *layout));
        Ok(m)
    }
}

/// Narrow a cross-entropy dimension to the kernels' `u32` domain.
pub fn narrow(value: usize, name: &str) -> (r: Result<u32, HephaestusError>)
    ensures
        r is Ok <==> value <= u32::MAX,
        r is Ok ==> r->Ok_0 == value,
        r is Err ==> r->Err_0 is InvalidConfiguration && message_of(r->Err_0) == "cross-entropy "@
            + name@ + " "@ + decimal_spec(value as nat) + " exceeds u32 range"@,
{
    if value <= u32::MAX as usize {
        Ok(value as u32)
    } else {
        let mut message = String::from_str("cross-entropy ");
        message.append(name);
        message.append(" ");
        let d = decimal(value as u64);
        message.append(d.as_str());
        message.append(" exceeds u32 range");
        Err(invalid(message))
    }
}

/// The largest element index the kernels address: `i32::MAX`.
pub fn address_limit() -> (n: usize)
    ensures
        n == i32::MAX,
{
    i32::MAX as usize
}

/// The semantic status the kernels report: the untouched sentinel
/// `u32::MAX` means success (code zero); any other value is the code written.
pub fn status_code(raw: u32) -> (code: u32)
    ensures
        code == if raw == u32::MAX {
            0
        } else {
            raw
        },
{
    if raw == u32::MAX {
        0
    } else {
        raw
    }
}

/// Metadata of one cross-entropy launch: the six operand layouts and
/// `[batch, classes, tolerance bits, 0]`.
#[derive(Debug, Clone, Copy)]
pub struct CrossEntropyMeta {
    pub logits: LayoutMeta,
    pub targets: LayoutMeta,
    pub loss: LayoutMeta,
    pub probabilities: LayoutMeta,
    pub output_gradient: LayoutMeta,
    pub logit_gradient: LayoutMeta,
    pub dimensions: [u32; 4],
}

/// A one-element row-major placeholder operand of rank `rank` at offset zero.
fn placeholder(rank: usize) -> (l: StridedLayout)
    requires
        1 <= rank <= 2,
    ensures
        l.wf(),
        l.shape@.len() == rank,
        meta_representable(l),
{
    let mut shape: Vec<usize> = Vec::new();
    shape.push(1);
    if rank == 2 {
        shape.push(1);
    }
    proof {
        assert(c_strides_fit(shape@)) by {
            reveal_with_fuel(c_stride, 3);
        }
    }
    match StridedLayout::c_contiguous(shape.as_slice()) {
        Ok(l) => {
            proof {
                reveal_with_fuel(c_stride, 3);
                reveal_with_fuel(negative_span, 3);
                reveal_with_fuel(positive_span, 3);
                assert(l.strides@[0] == 1);
                assert(rank == 2 ==> l.strides@[1] == 1);
                assert(!has_zero_extent(l.shape@));
                assert(axis_span(l.shape@[0], l.strides@[0]) == 0);
                assert(rank == 2 ==> axis_span(l.shape@[1], l.strides@[1]) == 0);
                assert(spans_fit(l.shape@, l.strides@));
                assert(positive_span(l.shape@, l.strides@, l.shape@.len() as int) == 0);
                assert(negative_span(l.shape@, l.strides@, l.shape@.len() as int) == 0);
            }
            l
        },
        Err(_) => {
            proof {
                assert(false);
            }
            StridedLayout::new(Vec::new(), Vec::new(), 0)
        },
    }
}

/// Whether every operand and dimension of a launch can be described.
pub open spec fn meta_accepts(
    batch: int,
    classes: int,
    layouts: Seq<StridedLayout>,
) -> bool {
    &&& forall|i: int| 0 <= i < layouts.len() ==> meta_representable(#[trigger] layouts[i])
    &&& batch <= u32::MAX
    &&& classes <= u32::MAX
}

impl CrossEntropyMeta {
    /// Metadata over all six operands.
    pub fn new(
        batch: usize,
        classes: usize,
        tolerance_bits: u32,
        logits: &StridedLayout,
        targets: &StridedLayout,
        loss: &StridedLayout,
        probabilities: &StridedLayout,
        output_gradient: &StridedLayout,
        logit_gradient: &StridedLayout,
    ) -> (r: Result<CrossEntropyMeta, HephaestusError>)
        requires
            logits.wf(),
            targets.wf(),
            loss.wf(),
            probabilities.wf(),
            output_gradient.wf(),
            logit_gradient.wf(),
        ensures
            r is Ok <==> meta_accepts(
                batch as int,
                classes as int,
                seq![*logits, *targets, *loss, *probabilities, *output_gradient, *logit_gradient],
            ),
            r is Ok ==> {
                let m = r->Ok_0;
                &&& describes(m.logits, *logits)
                &&& describes(m.targets, *targets)
                &&& describes(m.loss, *loss)
                &&& describes(m.probabilities, *probabilities)
                &&& describes(m.output_gradient, *output_gradient)
                &&& describes(m.logit_gradient, *logit_gradient)
                &&& m.dimensions[0] == batch && m.dimensions[1] == classes
                &&& m.dimensions[2] == tolerance_bits && m.dimensions[3] == 0
            },
            r is Err ==> r->Err_0 is InvalidConfiguration,
    {
        let ghost ls = seq![*logits, *targets, *loss, *probabilities, *output_gradient, *logit_gradient];
        let a = LayoutMeta::new(logits);
        let a = match a { Ok(m) => m, Err(e) => { assert(!meta_representable(ls[0])); return Err(e); } };
        let b = match LayoutMeta::new(targets) { Ok(m) => m, Err(e) => { assert(!meta_representable(ls[1])); return Err(e); } };
        let c = match LayoutMeta::new(loss) { Ok(m) => m, Err(e) => { assert(!meta_representable(ls[2])); return Err(e); } };
        let d = match LayoutMeta::new(probabilities) { Ok(m) => m, Err(e) => { assert(!meta_representable(ls[3])); return Err(e); } };
        let e = match LayoutMeta::new(output_gradient) { Ok(m) => m, Err(x) => { assert(!meta_representable(ls[4])); return Err(x); } };
        let f = match LayoutMeta::new(logit_gradient) { Ok(m) => m, Err(x) => { assert(!meta_representable(ls[5])); return Err(x); } };
        let n_batch = narrow(batch, "batch")?;
        let n_classes = narrow(classes, "classes")?;
        assert forall|i: int| 0 <= i < ls.len() implies meta_representable(#[trigger] ls[i]) by {
            if i == 0 {} else if i == 1 {} else if i == 2 {} else if i == 3 {} else if i == 4 {} else {}
        }
        Ok(CrossEntropyMeta {
            logits: a,
            targets: b,
            loss: c,
            probabilities: d,
            output_gradient: e,
            logit_gradient: f,
            dimensions: [n_batch, n_classes, tolerance_bits, 0],
        })
    }

    /// Metadata of the forward launch; the gradient operands are one-element
    /// placeholders.
    pub fn forward(
        batch: usize,
        classes: usize,
        tolerance_bits: u32,
        logits: &StridedLayout,
        targets: &StridedLayout,
        loss: &StridedLayout,
        probabilities: &StridedLayout,
    ) -> (r: Result<CrossEntropyMeta, HephaestusError>)
        requires
            logits.wf(),
            targets.wf(),
            loss.wf(),
            probabilities.wf(),
        ensures
            r is Ok <==> meta_accepts(
                batch as int,
                classes as int,
                seq![*logits, *targets, *loss, *probabilities],
            ),
            r is Ok ==> {
                let m = r->Ok_0;
                &&& describes(m.logits, *logits)
                &&& describes(m.targets, *targets)
                &&& describes(m.loss, *loss)
                &&& describes(m.probabilities, *probabilities)
                &&& m.dimensions[0] == batch && m.dimensions[1] == classes
                &&& m.dimensions[2] == tolerance_bits && m.dimensions[3] == 0
            },
            r is Err ==> r->Err_0 is InvalidConfiguration,
    {
        let empty_one = placeholder(1);
        let empty_two = placeholder(2);
        let r = Self::new(batch, classes, tolerance_bits, logits, targets, loss, probabilities, &empty_one, &empty_two);
        proof {
            let six = seq![*logits, *targets, *loss, *probabilities, empty_one, empty_two];
            let four = seq![*logits, *targets, *loss, *probabilities];
            assert(meta_accepts(batch as int, classes as int, six) <==> meta_accepts(batch as int, classes as int, four)) by {
                if meta_accepts(batch as int, classes as int, four) {
                    assert forall|i: int| 0 <= i < six.len() implies meta_representable(#[trigger] six[i]) by {
                        if i < 4 {
                            assert(six[i] == four[i]);
                        }
                    }
                }
                if meta_accepts(batch as int, classes as int, six) {
                    assert forall|i: int| 0 <= i < four.len() implies meta_representable(#[trigger] four[i]) by {
                        assert(six[i] == four[i]);
                    }
                }
            }
        }
        r
    }

    /// Metadata of the backward launch; the logits and loss operands are
    /// one-element placeholders.
    pub fn backward(
        batch: usize,
        classes: usize,
        tolerance_bits: u32,
        output_gradient: &StridedLayout,
        probabilities: &StridedLayout,
        targets: &StridedLayout,
        logit_gradient: &StridedLayout,
    ) -> (r: Result<CrossEntropyMeta, HephaestusError>)
        requires
            output_gradient.wf(),
            probabilities.wf(),
            targets.wf(),
            logit_gradient.wf(),
        ensures
            r is Ok <==> meta_accepts(
                batch as int,
                classes as int,
                seq![*output_gradient, *probabilities, *targets, *logit_gradient],
            ),
            r is Ok ==> {
                let m = r->Ok_0;
                &&& describes(m.targets, *targets)
                &&& describes(m.probabilities, *probabilities)
                &&& describes(m.output_gradient, *output_gradient)
                &&& describes(m.logit_gradient, *logit_gradient)
                &&& m.dimensions[0] == batch && m.dimensions[1] == classes
                &&& m.dimensions[2] == tolerance_bits && m.dimensions[3] == 0
            },
            r is Err ==> r->Err_0 is InvalidConfiguration,
    {
        let empty_two = placeholder(2);
        let empty_one = placeholder(1);
        let r = Self::new(batch, classes, tolerance_bits, &empty_two, targets, &empty_one, probabilities, output_gradient, logit_gradient);
        proof {
            let six = seq![empty_two, *targets, empty_one, *probabilities, *output_gradient, *logit_gradient];
            let four = seq![*output_gradient, *probabilities, *targets, *logit_gradient];
            assert(meta_accepts(batch as int, classes as int, six) <==> meta_accepts(batch as int, classes as int, four)) by {
                if meta_accepts(batch as int, classes as int, four) {
                    assert forall|i: int| 0 <= i < six.len() implies meta_representable(#[trigger] six[i]) by {
                        if i == 1 {
                            assert(six[1] == four[2]);
                        } else if i == 3 {
                            assert(six[3] == four[1]);
                        } else if i == 4 {
                            assert(six[4] == four[0]);
                        } else if i == 5 {
                            assert(six[5] == four[3]);
                        }
                    }
                }
                if meta_accepts(batch as int, classes as int, six) {
                    assert forall|i: int| 0 <= i < four.len() implies meta_representable(#[trigger] four[i]) by {
                        if i == 0 {
                            assert(six[4] == four[0]);
                        } else if i == 1 {
                            assert(six[3] == four[1]);
                        } else if i == 2 {
                            assert(six[1] == four[2]);
                        } else {
                            assert(six[5] == four[3]);
                        }
                    }
                }
            }
        }
        r
    }
}

/// Provider-owned mean cross-entropy.
#[derive(Clone, Copy, Debug, Default)]
pub struct WgpuCrossEntropyOps;

} // verus!
