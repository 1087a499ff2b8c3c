//! Strided layouts: shape, strides and base offset of a view into storage.
//!
//! Layout arithmetic is delegated to `leto`'s runtime-rank layout; the
//! contracts below restate what each delegated computation returns.

use leto::LayoutDyn;
use leto::LetoError;
use vstd::prelude::*;

verus! {

#[verifier::external_type_specification]
#[verifier::external_body]
pub struct ExLetoError(LetoError);

/// Shape, strides (in elements) and base offset of a strided view.
#[derive(Debug, Clone)]
pub struct StridedLayout {
    /// Extent of each axis.
    pub shape: Vec<usize>,
    /// Stride of each axis, in elements.
    pub strides: Vec<isize>,
    /// Starting offset into the backing storage.
    pub offset: usize,
}

/// A layout rejected by the layout arithmetic, with its rendered reason.
#[derive(Debug)]
pub struct LayoutError {
    /// Human-readable reason.
    pub message: String,
}

/// Product of the extents (the logical element count).
pub open spec fn shape_product(shape: Seq<usize>) -> int
    decreases shape.len(),
{
    if shape.len() == 0 {
        1
    } else {
        shape_product(shape.drop_last()) * shape.last()
    }
}

/// Whether some extent is zero.
pub open spec fn has_zero_extent(shape: Seq<usize>) -> bool {
    exists|i: int| 0 <= i < shape.len() && shape[i] == 0
}

/// `(extent - 1) * stride`: the signed span one axis contributes.
pub open spec fn axis_span(extent: usize, stride: isize) -> int {
    (extent - 1) * stride
}

/// Sum of the negative axis spans of the first `n` axes.
pub open spec fn negative_span(shape: Seq<usize>, strides: Seq<isize>, n: int) -> int
    decreases n,
{
    if n <= 0 {
        0
    } else {
        let b = axis_span(shape[n - 1], strides[n - 1]);
        negative_span(shape, strides, n - 1) + if b < 0 {
            b
        } else {
            0
        }
    }
}

/// Sum of the positive axis spans of the first `n` axes.
pub open spec fn positive_span(shape: Seq<usize>, strides: Seq<isize>, n: int) -> int
    decreases n,
{
    if n <= 0 {
        0
    } else {
        let b = axis_span(shape[n - 1], strides[n - 1]);
        positive_span(shape, strides, n - 1) + if b > 0 {
            b
        } else {
            0
        }
    }
}

/// Every axis span is representable as `isize`.
pub open spec fn spans_fit(shape: Seq<usize>, strides: Seq<isize>) -> bool {
    forall|i: int|
        0 <= i < shape.len() ==> shape[i] - 1 <= isize::MAX && isize::MIN <= #[trigger] axis_span(
            shape[i],
            strides[i],
        ) <= isize::MAX
}

/// The mathematical model of a layout: its extents, strides and base offset.
pub struct LayoutView {
    pub shape: Seq<usize>,
    pub strides: Seq<isize>,
    pub offset: usize,
}

impl View for StridedLayout {
    type V = LayoutView;

    open spec fn view(&self) -> LayoutView {
        LayoutView { shape: self.shape@, strides: self.strides@, offset: self.offset }
    }
}

impl LayoutView {
    /// Shape and strides have the same rank.
    pub open spec fn wf(&self) -> bool {
        self.shape.len() == self.strides.len()
    }

    /// The rank of the layout.
    pub open spec fn rank(&self) -> nat {
        self.shape.len()
    }

    /// The logical element count.
    pub open spec fn size_spec(&self) -> int {
        shape_product(self.shape)
    }

    /// The element count fits in `usize`.
    pub open spec fn size_fits(&self) -> bool {
        shape_product(self.shape) <= usize::MAX
    }

    /// The addressed physical offsets can be computed without overflow and
    /// none of them is negative.
    pub open spec fn offsets_ok(&self) -> bool {
        self.shape.len() == 0 || has_zero_extent(self.shape) || {
            &&& self.offset <= isize::MAX
            &&& spans_fit(self.shape, self.strides)
            &&& self.offset + positive_span(self.shape, self.strides, self.shape.len() as int)
                <= isize::MAX
            &&& self.offset + negative_span(self.shape, self.strides, self.shape.len() as int)
                >= 0
        }
    }

    /// The smallest addressed physical offset.
    pub open spec fn min_offset_spec(&self) -> int {
        if self.shape.len() == 0 || has_zero_extent(self.shape) {
            self.offset as int
        } else {
            self.offset + negative_span(self.shape, self.strides, self.shape.len() as int)
        }
    }

    /// The largest addressed physical offset.
    pub open spec fn max_offset_spec(&self) -> int {
        if self.shape.len() == 0 || has_zero_extent(self.shape) {
            self.offset as int
        } else {
            self.offset + positive_span(self.shape, self.strides, self.shape.len() as int)
        }
    }

    /// Every addressed element lies inside storage of `storage_len` elements.
    pub open spec fn fits_storage(&self, storage_len: int) -> bool {
        &&& self.size_fits()
        &&& (self.size_spec() == 0 || (self.offsets_ok() && self.max_offset_spec() < storage_len))
    }
}

impl StridedLayout {
    /// Shape and strides have the same rank.
    pub open spec fn wf(&self) -> bool {
        self@.wf()
    }

    /// The rank of the layout.
    pub open spec fn rank(&self) -> nat {
        self@.rank()
    }

    /// The logical element count.
    pub open spec fn size_spec(&self) -> int {
        self@.size_spec()
    }

    /// The element count fits in `usize`.
    pub open spec fn size_fits(&self) -> bool {
        self@.size_fits()
    }

    /// The addressed offsets are computable and non-negative.
    pub open spec fn offsets_ok(&self) -> bool {
        self@.offsets_ok()
    }

    /// The smallest addressed physical offset.
    pub open spec fn min_offset_spec(&self) -> int {
        self@.min_offset_spec()
    }

    /// The largest addressed physical offset.
    pub open spec fn max_offset_spec(&self) -> int {
        self@.max_offset_spec()
    }

    /// Every addressed element lies inside storage of `storage_len` elements.
    pub open spec fn fits_storage(&self, storage_len: int) -> bool {
        self@.fits_storage(storage_len)
    }
}

// ---------------------------------------------------------------------------
// Trusted calls into `leto`.
// ---------------------------------------------------------------------------

/// Calls `leto::LayoutDyn::checked_size`: the extent product, which leto
/// rejects exactly when it exceeds `usize`.
#[verifier::external_body]
fn leto_checked_size(layout: &StridedLayout) -> (r: Result<usize, LetoError>)
    requires
        layout.wf(),
    ensures
        r is Ok <==> layout.size_fits(),
        r is Ok ==> r->Ok_0 == layout.size_spec(),
{
    let dynamic = LayoutDyn {
        shape: layout.shape.clone().into_boxed_slice(),
        strides: layout.strides.clone().into_boxed_slice(),
        offset: layout.offset,
    };
    dynamic.checked_size()
}

/// Calls `leto::LayoutDyn::checked_min_max_offsets`: the smallest and largest
/// addressed offsets, rejected on `isize` overflow or a negative offset.
#[verifier::external_body]
fn leto_min_max_offsets(layout: &StridedLayout) -> (r: Result<(usize, usize), LetoError>)
    requires
        layout.wf(),
    ensures
        r is Ok <==> layout.offsets_ok(),
        r is Ok ==> r->Ok_0.0 == layout.min_offset_spec() && r->Ok_0.1
            == layout.max_offset_spec(),
{
    let dynamic = LayoutDyn {
        shape: layout.shape.clone().into_boxed_slice(),
        strides: layout.strides.clone().into_boxed_slice(),
        offset: layout.offset,
    };
    dynamic.checked_min_max_offsets()
}

/// Calls `leto::LayoutDyn::validate_storage_len`: accepts exactly when the
/// element count fits and, for a non-empty layout, every addressed offset is
/// below `storage_len`.
#[verifier::external_body]
fn leto_validate_storage_len(layout: &StridedLayout, storage_len: usize) -> (r: Result<
    (),
    LetoError,
>)
    requires
        layout.wf(),
    ensures
        r is Ok <==> layout.fits_storage(storage_len as int),
{
    let dynamic = LayoutDyn {
        shape: layout.shape.clone().into_boxed_slice(),
        strides: layout.strides.clone().into_boxed_slice(),
        offset: layout.offset,
    };
    dynamic.validate_storage_len(storage_len)
}

/// Strides that broadcasting `source` (with `strides`) to `target` produces:
/// prepended axes and expanded singleton axes get stride zero.
pub open spec fn broadcast_strides_spec(
    source: Seq<usize>,
    strides: Seq<isize>,
    target: Seq<usize>,
) -> Seq<isize> {
    let shift = target.len() - source.len();
    Seq::new(
        target.len(),
        |t: int|
            if t < shift {
                0isize
            } else if source[t - shift] == target[t] {
                strides[t - shift]
            } else {
                0isize
            },
    )
}

/// `source` broadcasts to `target`: the target rank is at least the source
/// rank and every trailing-aligned source extent equals the target extent or
/// is one.
pub open spec fn broadcastable(source: Seq<usize>, target: Seq<usize>) -> bool {
    &&& target.len() >= source.len()
    &&& forall|a: int|
        0 <= a < source.len() ==> #[trigger] source[a] == target[a + (target.len()
            - source.len())] || source[a] == 1
}

/// Row-major stride of axis `i`: the product of the extents to its right, or
/// zero when one of them is zero.
pub open spec fn c_stride(shape: Seq<usize>, i: int) -> int
    decreases shape.len() - i,
{
    if i + 1 >= shape.len() {
        1
    } else if shape[i + 1] == 0 {
        0
    } else {
        c_stride(shape, i + 1) * shape[i + 1]
    }
}

/// Every row-major stride step stays within `isize`.
pub open spec fn c_strides_fit(shape: Seq<usize>) -> bool {
    forall|i: int|
        0 <= i < shape.len() && #[trigger] shape[i] != 0 ==> shape[i] <= isize::MAX && c_stride(
            shape,
            i,
        ) * shape[i] <= isize::MAX
}

/// The row-major strides of `shape`.
pub open spec fn c_strides_spec(shape: Seq<usize>) -> Seq<isize> {
    Seq::new(shape.len(), |i: int| c_stride(shape, i) as isize)
}

/// Outcome of `leto`'s injectivity decision for a layout: `Some(b)` when it
/// decides, `None` when its exact arithmetic overflows.
pub uninterp spec fn leto_injectivity(shape: Seq<usize>, strides: Seq<isize>) -> Option<bool>;

/// `idx` is a logical index of `shape`.
pub open spec fn in_bounds(shape: Seq<usize>, idx: Seq<int>) -> bool {
    &&& idx.len() == shape.len()
    &&& forall|a: int| 0 <= a < idx.len() ==> 0 <= #[trigger] idx[a] < shape[a]
}

/// How far from the base offset the element at `idx` lies:
/// `sum_a idx[a] * strides[a]`.
pub open spec fn displacement(strides: Seq<isize>, idx: Seq<int>) -> int
    decreases idx.len(),
{
    if idx.len() == 0 {
        0
    } else {
        displacement(strides, idx.drop_last()) + idx.last() * strides[idx.len() - 1]
    }
}

/// Distinct logical indices of `shape` address distinct elements.
pub open spec fn addresses_distinct(shape: Seq<usize>, strides: Seq<isize>) -> bool {
    forall|i: Seq<int>, j: Seq<int>|
        in_bounds(shape, i) && in_bounds(shape, j) && i != j ==> #[trigger] displacement(strides, i)
            != #[trigger] displacement(strides, j)
}

/// Calls `leto::LayoutDyn::broadcast`: accepts exactly broadcastable target
/// shapes and keeps the base offset.
#[verifier::external_body]
fn leto_broadcast(layout: &StridedLayout, target: &[usize]) -> (r: Result<StridedLayout, LetoError>)
    requires
        layout.wf(),
    ensures
        r is Ok <==> broadcastable(layout.shape@, target@),
        r is Ok ==> {
            &&& r->Ok_0.shape@ == target@
            &&& r->Ok_0.strides@ == broadcast_strides_spec(layout.shape@, layout.strides@, target@)
            &&& r->Ok_0.offset == layout.offset
        },
{
    let dynamic = LayoutDyn {
        shape: layout.shape.clone().into_boxed_slice(),
        strides: layout.strides.clone().into_boxed_slice(),
        offset: layout.offset,
    };
    match dynamic.broadcast(target) {
        Ok(out) => Ok(StridedLayout { shape: out.shape.into_vec(), strides: out.strides.into_vec(), offset: out.offset }),
        Err(error) => Err(error),
    }
}

/// Calls `leto::LayoutDyn::c_contiguous`: row-major strides at offset zero,
/// rejected when a stride step overflows `isize`.
#[verifier::external_body]
fn leto_c_contiguous(shape: &[usize]) -> (r: Result<StridedLayout, LetoError>)
    ensures
        r is Ok <==> c_strides_fit(shape@),
        r is Ok ==> {
            &&& r->Ok_0.shape@ == shape@
            &&& r->Ok_0.strides@ == c_strides_spec(shape@)
            &&& r->Ok_0.offset == 0
        },
{
    match LayoutDyn::c_contiguous(shape) {
        Ok(out) => Ok(StridedLayout { shape: out.shape.into_vec(), strides: out.strides.into_vec(), offset: out.offset }),
        Err(error) => Err(error),
    }
}

/// Calls `leto::LayoutDyn::is_c_contiguous`: offset zero and exactly the
/// row-major strides.
#[verifier::external_body]
fn leto_is_c_contiguous(layout: &StridedLayout) -> (r: bool)
    requires
        layout.wf(),
    ensures
        r <==> (layout.offset == 0 && c_strides_fit(layout.shape@) && layout.strides@
            == c_strides_spec(layout.shape@)),
{
    let dynamic = LayoutDyn {
        shape: layout.shape.clone().into_boxed_slice(),
        strides: layout.strides.clone().into_boxed_slice(),
        offset: layout.offset,
    };
    dynamic.is_c_contiguous()
}

/// Calls `leto::LayoutDyn::is_injective`. Where it decides, its answer is
/// whether distinct logical indices address distinct elements; whether it
/// decides or reports an overflow of its exact search is named, as a
/// function of shape and strides. leto answers `true` for layouts of at most
/// one element and fails when the element count overflows.
#[verifier::external_body]
fn leto_is_injective(layout: &StridedLayout) -> (r: Result<bool, LetoError>)
    requires
        layout.wf(),
    ensures
        r is Ok ==> leto_injectivity(layout.shape@, layout.strides@) == Some(r->Ok_0),
        r is Ok ==> (r->Ok_0 <==> addresses_distinct(layout.shape@, layout.strides@)),
        r is Err ==> leto_injectivity(layout.shape@, layout.strides@) is None,
        !layout.size_fits() ==> r is Err,
        layout.size_fits() && layout.size_spec() <= 1 ==> (r is Ok && r->Ok_0),
{
    let dynamic = LayoutDyn {
        shape: layout.shape.clone().into_boxed_slice(),
        strides: layout.strides.clone().into_boxed_slice(),
        offset: layout.offset,
    };
    dynamic.is_injective()
}

fn layout_error(error: LetoError) -> (e: LayoutError)
    ensures
        vstd::string::to_string_from_display_ensures::<LetoError>(&error, e.message),
{
    LayoutError { message: error.to_string() }
}

impl StridedLayout {
    /// Build a layout from its parts.
    pub fn new(shape: Vec<usize>, strides: Vec<isize>, offset: usize) -> (l: Self)
        ensures
            l.shape == shape,
            l.strides == strides,
            l.offset == offset,
    {
        StridedLayout { shape, strides, offset }
    }

    /// The rank of the layout.
    pub fn ndim(&self) -> (n: usize)
        ensures
            n == self.shape@.len(),
    {
        self.shape.len()
    }

    /// The logical element count, rejected when it overflows `usize`.
    pub fn checked_size(&self) -> (r: Result<usize, LayoutError>)
        requires
            self.wf(),
        ensures
            r is Ok <==> self.size_fits(),
            r is Ok ==> r->Ok_0 == self.size_spec(),
    {
        match leto_checked_size(self) {
            Ok(size) => Ok(size),
            Err(error) => Err(layout_error(error)),
        }
    }

    /// The smallest and largest addressed physical offsets.
    pub fn checked_min_max_offsets(&self) -> (r: Result<(usize, usize), LayoutError>)
        requires
            self.wf(),
        ensures
            r is Ok <==> self.offsets_ok(),
            r is Ok ==> r->Ok_0.0 == self.min_offset_spec() && r->Ok_0.1 == self.max_offset_spec(),
    {
        match leto_min_max_offsets(self) {
            Ok(bounds) => Ok(bounds),
            Err(error) => Err(layout_error(error)),
        }
    }

    /// Check that every addressed element lies inside `storage_len` elements.
    pub fn validate_storage_len(&self, storage_len: usize) -> (r: Result<(), LayoutError>)
        requires
            self.wf(),
        ensures
            r is Ok <==> self.fits_storage(storage_len as int),
    {
        match leto_validate_storage_len(self, storage_len) {
            Ok(()) => Ok(()),
            Err(error) => Err(layout_error(error)),
        }
    }

    /// Broadcast this layout to `target`.
    pub fn broadcast(&self, target: &[usize]) -> (r: Result<StridedLayout, LayoutError>)
        requires
            self.wf(),
        ensures
            r is Ok <==> broadcastable(self.shape@, target@),
            r is Ok ==> {
                &&& r->Ok_0.shape@ == target@
                &&& r->Ok_0.strides@ == broadcast_strides_spec(self.shape@, self.strides@, target@)
                &&& r->Ok_0.offset == self.offset
                &&& r->Ok_0.wf()
            },
    {
        match leto_broadcast(self, target) {
            Ok(out) => Ok(out),
            Err(error) => Err(layout_error(error)),
        }
    }

    /// The row-major layout of `shape` at offset zero.
    pub fn c_contiguous(shape: &[usize]) -> (r: Result<StridedLayout, LayoutError>)
        ensures
            r is Ok <==> c_strides_fit(shape@),
            r is Ok ==> {
                &&& r->Ok_0.shape@ == shape@
                &&& r->Ok_0.strides@ == c_strides_spec(shape@)
                &&& r->Ok_0.offset == 0
                &&& r->Ok_0.wf()
            },
    {
        match leto_c_contiguous(shape) {
            Ok(out) => Ok(out),
            Err(error) => Err(layout_error(error)),
        }
    }

    /// Whether this is the canonical row-major layout at offset zero.
    pub fn is_c_contiguous(&self) -> (r: bool)
        requires
            self.wf(),
        ensures
            r <==> (self.offset == 0 && c_strides_fit(self.shape@) && self.strides@
                == c_strides_spec(self.shape@)),
    {
        leto_is_c_contiguous(self)
    }

    /// Whether distinct logical indices address distinct elements.
    pub fn is_injective(&self) -> (r: Result<bool, LayoutError>)
        requires
            self.wf(),
        ensures
            r is Ok ==> leto_injectivity(self.shape@, self.strides@) == Some(r->Ok_0),
            r is Ok ==> (r->Ok_0 <==> addresses_distinct(self.shape@, self.strides@)),
            r is Err ==> leto_injectivity(self.shape@, self.strides@) is None,
            !self.size_fits() ==> r is Err,
            self.size_fits() && self.size_spec() <= 1 ==> (r is Ok && r->Ok_0),
    {
        match leto_is_injective(self) {
            Ok(b) => Ok(b),
            Err(error) => Err(layout_error(error)),
        }
    }
}

/// Some axis of more than one element has stride zero.
pub open spec fn zero_stride_axis(shape: Seq<usize>, strides: Seq<isize>) -> bool {
    exists|i: int| 0 <= i < shape.len() && shape[i] > 1 && #[trigger] strides[i] == 0
}

/// Moving one coordinate of an index moves its displacement by that axis's
/// stride times the change.
pub proof fn lemma_displacement_update(strides: Seq<isize>, idx: Seq<int>, a: int, v: int)
    requires
        0 <= a < idx.len(),
        idx.len() <= strides.len(),
    ensures
        displacement(strides, idx.update(a, v)) == displacement(strides, idx) + (v - idx[a])
            * strides[a],
    decreases idx.len(),
{
    let moved = idx.update(a, v);
    if a == idx.len() - 1 {
        assert(moved.drop_last() =~= idx.drop_last());
        assert((v - idx[a]) * strides[a] == v * strides[a] - idx[a] * strides[a]) by (nonlinear_arith);
    } else {
        lemma_displacement_update(strides, idx.drop_last(), a, v);
        assert(moved.drop_last() =~= idx.drop_last().update(a, v));
    }
}

/// An axis of more than one element with stride zero, in a layout that has
/// elements, lets two logical indices address one element: such a layout is
/// not injective.
pub proof fn lemma_zero_stride_axis_aliases(shape: Seq<usize>, strides: Seq<isize>)
    requires
        shape.len() == strides.len(),
        zero_stride_axis(shape, strides),
        shape_product(shape) != 0,
    ensures
        !addresses_distinct(shape, strides),
{
    lemma_product_zero(shape);
    let a = choose|a: int| 0 <= a < shape.len() && shape[a] > 1 && #[trigger] strides[a] == 0;
    let i = Seq::new(shape.len(), |k: int| 0int);
    let j = i.update(a, 1);
    assert forall|k: int| 0 <= k < shape.len() implies shape[k] > 0 by {
        if shape[k] == 0 {
            assert(has_zero_extent(shape));
        }
    }
    assert(in_bounds(shape, i));
    assert(in_bounds(shape, j));
    assert(i != j) by {
        assert(i[a] != j[a]);
    }
    lemma_displacement_update(strides, i, a, 1);
    assert(displacement(strides, i) == displacement(strides, j));
}

/// A product of extents is zero exactly when some extent is.
pub proof fn lemma_product_zero(shape: Seq<usize>)
    ensures
        (shape_product(shape) == 0) <==> has_zero_extent(shape),
        shape_product(shape) >= 0,
    decreases shape.len(),
{
    if shape.len() > 0 {
        let init = shape.drop_last();
        lemma_product_zero(init);
        assert(shape_product(shape) == shape_product(init) * shape.last());
        assert((shape_product(init) * shape.last() == 0) <==> (shape_product(init) == 0
            || shape.last() == 0)) by (nonlinear_arith)
            requires
                shape_product(init) >= 0,
        ;
        assert(shape_product(init) * shape.last() >= 0) by (nonlinear_arith)
            requires
                shape_product(init) >= 0,
        ;
        if has_zero_extent(shape) {
            let i = choose|i: int| 0 <= i < shape.len() && shape[i] == 0;
            if i < shape.len() - 1 {
                assert(init[i] == 0);
            }
        }
        if has_zero_extent(init) {
            let i = choose|i: int| 0 <= i < init.len() && init[i] == 0;
            assert(shape[i] == 0);
        }
    }
}

impl StridedLayout {
    /// Whether two logical indices of a non-empty layout address one element
    /// through a zero stride on an axis longer than one.
    pub fn has_zero_stride_aliasing(&self) -> (r: bool)
        requires
            self.wf(),
            self.size_fits(),
        ensures
            r == (self.size_spec() != 0 && zero_stride_axis(self.shape@, self.strides@)),
    {
        proof {
            lemma_product_zero(self.shape@);
        }
        let mut i: usize = 0;
        let mut empty = false;
        while i < self.shape.len()
            invariant
                i <= self.shape@.len(),
                empty == exists|j: int| 0 <= j < i && self.shape@[j] == 0,
            decreases self.shape@.len() - i,
        {
            if self.shape[i] == 0 {
                empty = true;
            }
            i = i + 1;
        }
        if empty {
            return false;
        }
        assert(!has_zero_extent(self.shape@));
        let mut k: usize = 0;
        while k < self.shape.len()
            invariant
                self.wf(),
                self.size_spec() != 0,
                k <= self.shape@.len(),
                forall|j: int| 0 <= j < k ==> !(self.shape@[j] > 1 && #[trigger] self.strides@[j] == 0),
            decreases self.shape@.len() - k,
        {
            if self.shape[k] > 1 && self.strides[k] == 0 {
                assert(self.strides@[k as int] == 0);
                return true;
            }
            k = k + 1;
        }
        false
    }
}

} // verus!
