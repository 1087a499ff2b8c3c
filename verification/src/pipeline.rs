//! Shared dispatch planning: workgroup widths and grid sizes.

use crate::error::HephaestusError;
use crate::error::error_text;
use crate::error::message_of;
use crate::text::decimal_spec;
use crate::text::framed_decimal;
use moirai_gpu::KernelResourceBudget;
use std::sync::OnceLock;
use vstd::prelude::*;

verus! {

/// Number of invocations in one compute workgroup; never zero.
#[derive(Debug, Clone, Copy, PartialEq, Eq, Structural)]
pub struct BlockWidth {
    width: u32,
}

/// Integer ceiling of `n / d`.
pub open spec fn ceil_div(n: int, d: int) -> int {
    (n + d - 1) / d
}

impl BlockWidth {
    #[verifier::type_invariant]
    spec fn positive(self) -> bool {
        self.width > 0
    }

    /// The width this value carries.
    pub closed spec fn spec_get(self) -> u32 {
        self.width
    }

    /// The width used by the provider's own kernels: 256 invocations.
    pub fn standard() -> (w: BlockWidth)
        ensures
            w.spec_get() == 256,
    {
        BlockWidth { width: 256 }
    }

    /// A width of `width` invocations; `None` for zero.
    pub fn new(width: u32) -> (w: Option<BlockWidth>)
        ensures
            w is Some <==> width > 0,
            w is Some ==> w->0.spec_get() == width,
    {
        if width == 0 {
            None
        } else {
            Some(BlockWidth { width })
        }
    }

    /// The width as an integer.
    #[verifier::when_used_as_spec(spec_get)]
    pub fn get(self) -> (w: u32)
        ensures
            w == self.spec_get(),
            w > 0,
    {
        proof { use_type_invariant(self); }
        self.width
    }

    /// The number of blocks that cover `len` items, when it fits in `u32`.
    pub fn checked_covering_blocks(self, len: u64) -> (r: Option<u32>)
        ensures
            r is Some <==> ceil_div(len as int, self.spec_get() as int) <= u32::MAX,
            r is Some ==> r->0 == ceil_div(len as int, self.spec_get() as int),
    {
        proof { use_type_invariant(self); }
        let width = self.width as u64;
        assert(len % width != 0 ==> len / width < u64::MAX) by (nonlinear_arith)
            requires
                width > 0,
        ;
        let blocks = len / width + if len % width == 0 {
            0
        } else {
            1
        };
        proof {
            assert(blocks == ceil_div(len as int, width as int)) by (nonlinear_arith)
                requires
                    width > 0,
                    blocks == len / width + if len % width == 0 {
                        0int
                    } else {
                        1int
                    },
            ;
        }
        if blocks > u32::MAX as u64 {
            None
        } else {
            Some(blocks as u32)
        }
    }
}

/// Calls `moirai_gpu::plan_launch` with a budget of `threads` threads per
/// block (built by `KernelResourceBudget::new(0, 0, threads)`, which accepts
/// any non-zero thread count) and returns the planned grid size: the ceiling of
/// `work_items / threads`, saturated at `u32::MAX`.
#[verifier::external_body]
fn planned_grid_blocks(threads: u32, work_items: u64) -> (blocks: u32)
    requires
        threads > 0,
    ensures
        blocks == if ceil_div(work_items as int, threads as int) > u32::MAX {
            u32::MAX as int
        } else {
            ceil_div(work_items as int, threads as int)
        },
{
    let budget = KernelResourceBudget::new(0, 0, threads).expect("threads is non-zero");
    moirai_gpu::plan_launch(budget, work_items).grid_blocks
}

/// The rejection message for a dispatch of `len` items that needs more than
/// `u32::MAX` workgroups.
pub open spec fn workgroup_overflow_text(len: nat) -> Seq<char> {
    "dispatch size "@ + decimal_spec(len) + " exceeds u32 workgroup range"@
}

/// Number of workgroups of `width` invocations that cover `len` work items.
///
/// Fails with `DispatchFailed` exactly when that count exceeds `u32::MAX`.
pub fn workgroups(len: usize, width: BlockWidth) -> (r: Result<u32, HephaestusError>)
    ensures
        r is Ok <==> ceil_div(len as int, width.spec_get() as int) <= u32::MAX,
        r is Ok ==> r->Ok_0 == ceil_div(len as int, width.spec_get() as int),
        r is Err ==> (r->Err_0 matches HephaestusError::DispatchFailed { message }
            && message@ == workgroup_overflow_text(len as nat)),
{
    let len = len as u64;
    match width.checked_covering_blocks(len) {
        None => {
            let message = framed_decimal("dispatch size ", len, " exceeds u32 workgroup range");
            Err(HephaestusError::DispatchFailed { message })
        },
        Some(_) => Ok(planned_grid_blocks(width.get(), len)),
    }
}

/// Covering law: the workgroup count from `workgroups` covers every item, and
/// one group fewer would not.
pub proof fn lemma_workgroups_cover(len: nat, width: nat)
    requires
        width > 0,
    ensures
        ceil_div(len as int, width as int) * width >= len,
        ceil_div(len as int, width as int) == 0 || (ceil_div(len as int, width as int) - 1)
            * width < len,
{
    let q = ceil_div(len as int, width as int);
    assert(q * width >= len && (q == 0 || (q - 1) * width < len)) by (nonlinear_arith)
        requires
            width > 0,
            q == (len + width - 1) / (width as int),
    ;
}

/// Workgroup counts of one dispatch along the three grid axes.
#[derive(Debug, Clone, Copy, PartialEq, Eq, Structural)]
pub struct DispatchGrid {
    pub x: u32,
    pub y: u32,
    pub z: u32,
}

/// A grid of `workgroup`-sized workgroups covers `domain` when each axis
/// needs at most `u32::MAX` workgroups.
pub open spec fn domain_fits(domain: [usize; 3], workgroup: [usize; 3]) -> bool {
    &&& ceil_div(domain[0] as int, workgroup[0] as int) <= u32::MAX
    &&& ceil_div(domain[1] as int, workgroup[1] as int) <= u32::MAX
    &&& ceil_div(domain[2] as int, workgroup[2] as int) <= u32::MAX
}

/// The refusal of a domain axis that needs more than `u32::MAX` workgroups.
pub open spec fn domain_axis_text(axis: nat, groups: int) -> Seq<char> {
    "dispatch domain axis "@ + decimal_spec(axis) + " needs "@ + decimal_spec(groups as nat)
        + " workgroups, exceeding u32"@
}

fn covering_axis(extent: usize, size: usize, axis: u64) -> (r: Result<u32, HephaestusError>)
    requires
        size > 0,
    ensures
        r is Ok <==> ceil_div(extent as int, size as int) <= u32::MAX,
        r is Ok ==> r->Ok_0 == ceil_div(extent as int, size as int),
        r is Err ==> r->Err_0 is InvalidConfiguration && message_of(r->Err_0) == domain_axis_text(
            axis as nat,
            ceil_div(extent as int, size as int),
        ),
{
    assert(extent % size != 0 ==> extent / size < usize::MAX) by (nonlinear_arith)
        requires
            size > 0,
    ;
    let groups = extent / size + if extent % size == 0 {
        0
    } else {
        1
    };
    assert(groups == ceil_div(extent as int, size as int)) by (nonlinear_arith)
        requires
            size > 0,
            groups == extent / size + if extent % size == 0 {
                0int
            } else {
                1int
            },
    ;
    if groups > u32::MAX as usize {
        let mut message = String::from_str("dispatch domain axis ");
        let a = crate::text::decimal(axis);
        message.append(a.as_str());
        message.append(" needs ");
        let g = crate::text::decimal(groups as u64);
        message.append(g.as_str());
        message.append(" workgroups, exceeding u32");
        return Err(HephaestusError::InvalidConfiguration { message });
    }
    Ok(groups as u32)
}

/// The grid of `workgroup`-sized workgroups that covers `domain`.
pub fn covering_domain(domain: [usize; 3], workgroup: [usize; 3]) -> (r: Result<
    DispatchGrid,
    HephaestusError,
>)
    requires
        workgroup[0] > 0,
        workgroup[1] > 0,
        workgroup[2] > 0,
    ensures
        r is Ok <==> domain_fits(domain, workgroup),
        r is Ok ==> r->Ok_0.x == ceil_div(domain[0] as int, workgroup[0] as int) && r->Ok_0.y
            == ceil_div(domain[1] as int, workgroup[1] as int) && r->Ok_0.z == ceil_div(
            domain[2] as int,
            workgroup[2] as int,
        ),
        r is Err ==> r->Err_0 is InvalidConfiguration,
        ceil_div(domain[0] as int, workgroup[0] as int) > u32::MAX ==> message_of(r->Err_0)
            == domain_axis_text(0, ceil_div(domain[0] as int, workgroup[0] as int)),
        ceil_div(domain[0] as int, workgroup[0] as int) <= u32::MAX && ceil_div(
            domain[1] as int,
            workgroup[1] as int,
        ) > u32::MAX ==> message_of(r->Err_0) == domain_axis_text(
            1,
            ceil_div(domain[1] as int, workgroup[1] as int),
        ),
        ceil_div(domain[0] as int, workgroup[0] as int) <= u32::MAX && ceil_div(
            domain[1] as int,
            workgroup[1] as int,
        ) <= u32::MAX && ceil_div(domain[2] as int, workgroup[2] as int) > u32::MAX ==> message_of(
            r->Err_0,
        ) == domain_axis_text(2, ceil_div(domain[2] as int, workgroup[2] as int)),
{
    let x = covering_axis(domain[0], workgroup[0], 0)?;
    let y = covering_axis(domain[1], workgroup[1], 1)?;
    let z = covering_axis(domain[2], workgroup[2], 2)?;
    Ok(DispatchGrid { x, y, z })
}

#[verifier::external_type_specification]
#[verifier::external_body]
#[verifier::reject_recursive_types(T)]
pub struct ExOnceLock<T>(OnceLock<T>);

/// Calls `OnceLock::get_or_init` on a cell of memoized compilation outcomes:
/// returns the cell's outcome, filling an empty cell with `compile`'s outcome
/// in the form `memoized_outcome` gives it. Which caller fills the cell
/// depends on the order in which callers arrive, so nothing is stated of the
/// outcome returned.
#[verifier::external_body]
fn once_get_or_compile<T, F: FnOnce() -> Result<T, HephaestusError>>(
    cell: &OnceLock<Result<T, String>>,
    compile: F,
) -> (r: &Result<T, String>)
    requires
        ready_to_compile(compile),
{
    cell.get_or_init(|| memoized_outcome(compile()))
}

/// `compile` may be called.
pub open spec fn ready_to_compile<T, F: FnOnce() -> Result<T, HephaestusError>>(compile: F) -> bool {
    compile.requires(())
}

/// The form in which a compilation outcome is memoized: the value, or the
/// rendered failure.
pub fn memoized_outcome<T>(outcome: Result<T, HephaestusError>) -> (m: Result<T, String>)
    ensures
        outcome is Ok ==> m is Ok && m->Ok_0 == outcome->Ok_0,
        outcome is Err ==> m is Err && m->Err_0@ == error_text(outcome->Err_0),
{
    match outcome {
        Ok(value) => Ok(value),
        Err(error) => Err(error.describe()),
    }
}

/// Replay a memoized compilation outcome: a clone of the value, or the
/// recorded failure as `DispatchFailed`.
pub fn replay_compilation<T: Clone>(memo: &Result<T, String>) -> (r: Result<T, HephaestusError>)
    ensures
        memo is Ok ==> r is Ok && cloned(memo->Ok_0, r->Ok_0),
        memo is Err ==> r is Err && r->Err_0 == (HephaestusError::DispatchFailed {
            message: memo->Err_0,
        }),
{
    match memo {
        Ok(value) => Ok(value.clone()),
        Err(message) => Err(HephaestusError::DispatchFailed { message: message.clone() }),
    }
}

/// Compile at most once per cell: the first caller runs `compile` and every
/// caller, that one included, receives the memoized outcome, a failure
/// coming back as `DispatchFailed` with the first failure's rendered text.
pub fn cached_compilation<T: Clone, F: FnOnce() -> Result<T, HephaestusError>>(
    cell: &OnceLock<Result<T, String>>,
    compile: F,
) -> (r: Result<T, HephaestusError>)
    requires
        ready_to_compile(compile),
    ensures
        r is Err ==> r->Err_0 is DispatchFailed,
{
    replay_compilation(once_get_or_compile(cell, compile))
}

} // verus!
