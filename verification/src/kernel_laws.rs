//! What the generated compute kernels compute. Each law fixes the text of a
//! kernel from its workgroup storage and entry point on, exactly as it stands
//! in the generated source for every scalar type, width and combine
//! expression, and proves that the computation those statements describe
//! gives the mathematical result for every input.

use crate::kernel_source::{matmul_source_before_kernel, matmul_source_spec};
use crate::reduction_kernels::{
    axis_reduction_parallel_source_before_kernel, axis_reduction_parallel_source_spec,
    final_reduction_source_before_kernel, final_reduction_source_spec, sequential_scan_source_before_kernel,
    sequential_scan_source_spec, spmv_source_before_kernel, spmv_source_spec,
};
use crate::fft::strategy::is_pow2;
use crate::reduction::reduction_width_ok;
use crate::sparse::{all_u32, csr_image, csr_valid};
use crate::text::decimal_spec;
use vstd::arithmetic::div_mod::{lemma_fundamental_div_mod, lemma_mod_multiples_vanish, lemma_small_mod};
use vstd::prelude::*;

verus! {

/// The text of `text` from position `at` to its end.
pub open spec fn text_from(text: Seq<char>, at: int) -> Seq<char> {
    text.subrange(at, text.len() as int)
}

/// `sum over lo <= i < hi of f(i)`.
pub open spec fn sum_range(f: spec_fn(int) -> int, lo: int, hi: int) -> int
    decreases hi - lo,
{
    if hi <= lo {
        0
    } else {
        sum_range(f, lo, hi - 1) + f(hi - 1)
    }
}

/// Sums of functions that agree on the range agree.
pub proof fn lemma_sum_range_congruent(f: spec_fn(int) -> int, g: spec_fn(int) -> int, lo: int, hi: int)
    requires
        forall|i: int| lo <= i < hi ==> #[trigger] f(i) == g(i),
    ensures
        sum_range(f, lo, hi) == sum_range(g, lo, hi),
    decreases hi - lo,
{
    if hi > lo {
        lemma_sum_range_congruent(f, g, lo, hi - 1);
    }
}

/// A sum splits at any point of its range.
pub proof fn lemma_sum_range_split(f: spec_fn(int) -> int, lo: int, mid: int, hi: int)
    requires
        lo <= mid <= hi,
    ensures
        sum_range(f, lo, hi) == sum_range(f, lo, mid) + sum_range(f, mid, hi),
    decreases hi - mid,
{
    if hi > mid {
        lemma_sum_range_split(f, lo, mid, hi - 1);
    }
}

/// CSR row pointers stay within `[0, nnz]` and ordered.
proof fn lemma_row_ptr_bounds(nnz: int, col: Seq<usize>, row_ptr: Seq<usize>, rows: int, columns: int, r: int)
    requires
        csr_valid(nnz, col, row_ptr, rows, columns),
        0 <= r <= rows,
    ensures
        0 <= row_ptr[r] <= nnz,
    decreases rows - r,
{
    if r < rows {
        lemma_row_ptr_bounds(nnz, col, row_ptr, rows, columns, r + 1);
        assert(row_ptr[r] <= row_ptr[r + 1]);
    }
}

/// Row `r` of the CSR matrix-vector product `y = A x`: the stored values of
/// the row times the entries of `x` at their columns.
pub open spec fn csr_row_sum(
    values: Seq<int>,
    col_indices: Seq<usize>,
    row_ptr: Seq<usize>,
    x: Seq<int>,
    r: int,
) -> int {
    sum_range(|idx: int| values[idx] * x[col_indices[idx] as int], row_ptr[r] as int, row_ptr[r + 1] as int)
}

/// What the row statements of the CSR kernel compute for row `r`, reading
/// the index buffer `indices` whose row pointers start at `row_ptr`: the
/// loop from `begin = indices[row_ptr + r]` to `end = indices[row_ptr + r +
/// 1]` adds `values[idx] * x[indices[idx]]`.
pub open spec fn spmv_kernel_row(values: Seq<int>, indices: Seq<u32>, row_ptr: int, x: Seq<int>, r: int) -> int {
    sum_range(
        |idx: int| values[idx] * x[indices[idx] as int],
        indices[row_ptr + r] as int,
        indices[row_ptr + r + 1] as int,
    )
}

/// The CSR matrix-vector kernel computes `y = A x`: its row statements,
/// run over the uploaded index image of a valid CSR matrix, give for every
/// row the sum of the row's stored values times `x` at their columns.
///
/// The first clause fixes the kernel text from its workgroup storage and
/// entry point to the end, for every scalar type and width; the others
/// state what those statements compute.
pub proof fn law_spmv_kernel_computes_matrix_vector_product(
    ty: Seq<char>,
    zero: Seq<char>,
    wg: nat,
    values: Seq<int>,
    col_indices: Seq<usize>,
    row_ptr: Seq<usize>,
    rows: int,
    columns: int,
    x: Seq<int>,
    r: int,
)
    requires
        csr_valid(values.len() as int, col_indices, row_ptr, rows, columns),
        all_u32(col_indices),
        all_u32(row_ptr),
        0 <= r < rows,
    ensures
        text_from(spmv_source_spec(ty, zero, wg), spmv_source_before_kernel(ty, zero, wg).len() as int) == "@compute @workgroup_size("@
                + decimal_spec(wg)
                + ")\nfn main(@builtin(global_invocation_id) gid: vec3<u32>) {\n    let row = gid.x;\n    if (row >= arrayLength(&y)) {\n        return;\n    }\n\n    let row_ptr = sparse_meta.offsets.x;\n    let begin = indices[row_ptr + row];\n    let end = indices[row_ptr + row + 1u];\n    var acc = "@
                + ty
                + "("@
                + zero
                + ");\n    for (var idx = begin; idx < end; idx = idx + 1u) {\n        acc = acc + values[idx] * x[indices[idx]];\n    }\n    y[row] = acc;\n}\n"@,
        spmv_kernel_row(values, csr_image(col_indices, row_ptr), col_indices.len() as int, x, r)
            == csr_row_sum(values, col_indices, row_ptr, x, r),
{
    let src = spmv_source_spec(ty, zero, wg);
    let at = spmv_source_before_kernel(ty, zero, wg).len() as int;
    let tail = "@compute @workgroup_size("@
        + decimal_spec(wg)
        + ")\nfn main(@builtin(global_invocation_id) gid: vec3<u32>) {\n    let row = gid.x;\n    if (row >= arrayLength(&y)) {\n        return;\n    }\n\n    let row_ptr = sparse_meta.offsets.x;\n    let begin = indices[row_ptr + row];\n    let end = indices[row_ptr + row + 1u];\n    var acc = "@
        + ty
        + "("@
        + zero
        + ");\n    for (var idx = begin; idx < end; idx = idx + 1u) {\n        acc = acc + values[idx] * x[indices[idx]];\n    }\n    y[row] = acc;\n}\n"@;
    assert(src.subrange(at, src.len() as int) =~= tail);

    let image = csr_image(col_indices, row_ptr);
    let nnz = values.len() as int;
    let split = col_indices.len() as int;
    lemma_row_ptr_bounds(nnz, col_indices, row_ptr, rows, columns, r);
    lemma_row_ptr_bounds(nnz, col_indices, row_ptr, rows, columns, r + 1);
    assert(row_ptr[r] <= row_ptr[r + 1]);
    assert(image[split + r] as int == row_ptr[r] as int);
    assert(image[split + r + 1] as int == row_ptr[r + 1] as int);
    let f = |idx: int| values[idx] * x[image[idx] as int];
    let g = |idx: int| values[idx] * x[col_indices[idx] as int];
    assert forall|idx: int| row_ptr[r] as int <= idx < row_ptr[r + 1] as int implies #[trigger] f(idx) == g(
        idx,
    ) by {
        assert(image[idx] as int == col_indices[idx] as int);
    }
    lemma_sum_range_congruent(f, g, row_ptr[r] as int, row_ptr[r + 1] as int);
}

/// WGSL `select(f, t, cond)`: `t` where `cond` holds, `f` otherwise.
pub open spec fn wgsl_select(f: int, t: int, cond: bool) -> int {
    if cond {
        t
    } else {
        f
    }
}

/// A sum of zeros is zero.
pub proof fn lemma_sum_range_zero(f: spec_fn(int) -> int, lo: int, hi: int)
    requires
        forall|i: int| lo <= i < hi ==> #[trigger] f(i) == 0,
    ensures
        sum_range(f, lo, hi) == 0,
    decreases hi - lo,
{
    if hi > lo {
        lemma_sum_range_zero(f, lo, hi - 1);
    }
}

/// Summing `f(c + i)` over `[lo, hi)` sums `f` over `[c + lo, c + hi)`.
pub proof fn lemma_sum_range_shift(f: spec_fn(int) -> int, c: int, lo: int, hi: int)
    ensures
        sum_range(|i: int| f(c + i), lo, hi) == sum_range(f, c + lo, c + hi),
    decreases hi - lo,
{
    if hi > lo {
        lemma_sum_range_shift(f, c, lo, hi - 1);
    }
}

/// Summing `f(n - 1 - t)` over `t <= s` sums `f` over the last `s + 1`
/// indices below `n`.
pub proof fn lemma_sum_range_reversed(f: spec_fn(int) -> int, n: int, s: int)
    requires
        0 <= s,
    ensures
        sum_range(|t: int| f(n - 1 - t), 0, s + 1) == sum_range(f, n - 1 - s, n),
    decreases s,
{
    let g = |t: int| f(n - 1 - t);
    if s == 0 {
        assert(sum_range(g, 0, 0) == 0);
        assert(sum_range(f, n - 1, n - 1) == 0);
    } else {
        lemma_sum_range_reversed(f, n, s - 1);
        lemma_sum_range_split(f, n - 1 - s, n - s, n);
        assert(sum_range(f, n - 1 - s, n - 1 - s) == 0);
    }
}

/// Whether a lane loop that starts at `start`, stops once its index reaches
/// `n` and steps by `step` folds index `i`.
pub open spec fn lane_folds(start: int, step: int, n: int, i: int) -> bool
    decreases (if start < n {
        n - start
    } else {
        0
    }),
{
    if step <= 0 || start >= n {
        false
    } else {
        start == i || lane_folds(start + step, step, n, i)
    }
}

/// A lane loop folds exactly the indices below `n` from its start on that
/// its step divides the distance to.
pub proof fn lemma_lane_folds(start: int, step: int, n: int, i: int)
    requires
        step > 0,
    ensures
        lane_folds(start, step, n, i) <==> (start <= i < n && (i - start) % step == 0),
    decreases (if start < n {
        n - start
    } else {
        0
    }),
{
    if start < n {
        lemma_lane_folds(start + step, step, n, i);
        let d = i - start;
        if d >= 0 && d % step == 0 && d != 0 {
            lemma_fundamental_div_mod(d, step);
            assert(d >= step) by (nonlinear_arith)
                requires
                    d == step * (d / step) + d % step,
                    d % step == 0,
                    d > 0,
                    step > 0,
            ;
            lemma_mod_multiples_vanish(-1, d, step);
            assert(step * -1 + d == d - step) by (nonlinear_arith);
        }
        if d >= step && (d - step) % step == 0 {
            lemma_mod_multiples_vanish(1, d - step, step);
            assert(step * 1 + (d - step) == d) by (nonlinear_arith);
        }
    }
}

/// Of the lanes `0 <= l < step`, the one whose loop folds index `i` is
/// `i % step`.
pub proof fn lemma_lane_of_index(step: int, n: int, i: int, l: int)
    requires
        step > 0,
        0 <= i < n,
        0 <= l < step,
    ensures
        lane_folds(l, step, n, i) <==> l == i % step,
{
    lemma_lane_folds(l, step, n, i);
    lemma_fundamental_div_mod(i, step);
    if l == i % step {
        let q = i / step;
        assert(q >= 0) by (nonlinear_arith)
            requires
                i == step * q + l,
                0 <= l < step,
                i >= 0,
        ;
        assert(step * q >= 0) by (nonlinear_arith)
            requires
                q >= 0,
                step > 0,
        ;
        lemma_mod_multiples_vanish(q, 0, step);
        assert(step * q + 0 == i - l);
    }
    if l <= i && (i - l) % step == 0 {
        lemma_fundamental_div_mod(i - l, step);
        let q = (i - l) / step;
        lemma_mod_multiples_vanish(q, l, step);
        lemma_small_mod(l as nat, step as nat);
    }
}

/// One step of the workgroup tree: lanes below `stride` combine their
/// partial with the partial `stride` lanes above; the others keep theirs.
pub open spec fn tree_step(p: Seq<int>, stride: int) -> Seq<int> {
    Seq::new(p.len(), |l: int| if l < stride { p[l] + p[l + stride] } else { p[l] })
}

/// The workgroup tree from `stride` down: a step per stride, halving until
/// zero.
pub open spec fn tree_fold(p: Seq<int>, stride: int) -> Seq<int>
    decreases stride,
{
    if stride <= 0 {
        p
    } else {
        tree_fold(tree_step(p, stride), stride / 2)
    }
}

/// The sum of two functions sums their sums.
pub proof fn lemma_sum_range_add(f: spec_fn(int) -> int, g: spec_fn(int) -> int, lo: int, hi: int)
    ensures
        sum_range(|i: int| f(i) + g(i), lo, hi) == sum_range(f, lo, hi) + sum_range(g, lo, hi),
    decreases hi - lo,
{
    if hi > lo {
        lemma_sum_range_add(f, g, lo, hi - 1);
    }
}

/// From a power-of-two stride, the tree leaves in lane zero the sum of the
/// first `2 * stride` partials.
pub proof fn lemma_tree_fold_sums(p: Seq<int>, stride: int)
    requires
        is_pow2(stride),
        2 * stride <= p.len(),
    ensures
        tree_fold(p, stride)[0] == sum_range(|l: int| p[l], 0, 2 * stride),
    decreases stride,
{
    let q = tree_step(p, stride);
    let pf = |l: int| p[l];
    let qf = |l: int| q[l];
    let upper = |l: int| pf(stride + l);
    let both = |l: int| pf(l) + upper(l);
    assert forall|l: int| 0 <= l < stride implies #[trigger] qf(l) == both(l) by {}
    lemma_sum_range_congruent(qf, both, 0, stride);
    lemma_sum_range_add(pf, upper, 0, stride);
    lemma_sum_range_shift(pf, stride, 0, stride);
    lemma_sum_range_split(pf, 0, stride, 2 * stride);
    if stride == 1 {
        assert(tree_fold(q, 0) == q);
        assert(sum_range(qf, 0, 0) == 0);
        assert(sum_range(qf, 0, 1) == qf(0));
    } else {
        assert(stride / 2 * 2 == stride);
        lemma_tree_fold_sums(q, stride / 2);
    }
}

/// The final reduction kernel reduces all its input: of its lanes
/// `0 <= l < wg`, the lane loop of lane `i % wg` alone folds element
/// `i < n`, no lane folds an index at or past `n`, and for a valid
/// reduction width the halving tree over the lane partials leaves their
/// total (for `lhs + rhs`) in lane zero, which writes output zero.
///
/// The first clause fixes the kernel text from its workgroup storage and
/// entry point to the end, for every scalar type and width; the others
/// state what those statements compute.
pub proof fn law_final_reduction_folds_each_element_once(
    ty: Seq<char>,
    wg: nat,
    identity: Seq<char>,
    expr: Seq<char>,
    n: int,
    i: int,
)
    requires
        wg > 0,
    ensures
        text_from(final_reduction_source_spec(ty, wg, identity, expr), final_reduction_source_before_kernel(ty, wg, identity, expr).len() as int) == "var<workgroup> shared_data: array<"@
                + ty
                + ", "@
                + decimal_spec(wg)
                + ">;\n\n@compute @workgroup_size("@
                + decimal_spec(wg)
                + ")\nfn main(@builtin(local_invocation_id) local_id: vec3<u32>) {\n    let lane = local_id.x;\n    let num_elements = arrayLength(&input);\n    var acc: "@
                + ty
                + " = "@
                + identity
                + ";\n    var i = lane;\n    loop {\n        if (i >= num_elements) {\n            break;\n        }\n        let lhs = acc;\n        let rhs = input[i];\n        acc = "@
                + expr
                + ";\n        i = i + "@
                + decimal_spec(wg)
                + "u;\n    }\n    shared_data[lane] = acc;\n    workgroupBarrier();\n\n    for (var stride = "@
                + decimal_spec(wg)
                + "u / 2u; stride > 0u; stride = stride / 2u) {\n        if (lane < stride) {\n            let lhs = shared_data[lane];\n            let rhs = shared_data[lane + stride];\n            shared_data[lane] = "@
                + expr
                + ";\n        }\n        workgroupBarrier();\n    }\n\n    if (lane == 0u) {\n        output[0u] = shared_data[0];\n    }\n}\n"@,
        0 <= i < n ==> forall|l: int| 0 <= l < wg ==> (lane_folds(l, wg as int, n, i) <==> l == i % (wg as int)),
        !(0 <= i < n) ==> forall|l: int| 0 <= l < wg ==> !lane_folds(l, wg as int, n, i),
        forall|p: Seq<int>|
            reduction_width_ok(wg as int) && p.len() == wg ==> #[trigger] tree_fold(p, wg as int / 2)[0]
                == sum_range(|l: int| p[l], 0, wg as int),
{
    let src = final_reduction_source_spec(ty, wg, identity, expr);
    let at = final_reduction_source_before_kernel(ty, wg, identity, expr).len() as int;
    let tail = "var<workgroup> shared_data: array<"@
        + ty
        + ", "@
        + decimal_spec(wg)
        + ">;\n\n@compute @workgroup_size("@
        + decimal_spec(wg)
        + ")\nfn main(@builtin(local_invocation_id) local_id: vec3<u32>) {\n    let lane = local_id.x;\n    let num_elements = arrayLength(&input);\n    var acc: "@
        + ty
        + " = "@
        + identity
        + ";\n    var i = lane;\n    loop {\n        if (i >= num_elements) {\n            break;\n        }\n        let lhs = acc;\n        let rhs = input[i];\n        acc = "@
        + expr
        + ";\n        i = i + "@
        + decimal_spec(wg)
        + "u;\n    }\n    shared_data[lane] = acc;\n    workgroupBarrier();\n\n    for (var stride = "@
        + decimal_spec(wg)
        + "u / 2u; stride > 0u; stride = stride / 2u) {\n        if (lane < stride) {\n            let lhs = shared_data[lane];\n            let rhs = shared_data[lane + stride];\n            shared_data[lane] = "@
        + expr
        + ";\n        }\n        workgroupBarrier();\n    }\n\n    if (lane == 0u) {\n        output[0u] = shared_data[0];\n    }\n}\n"@;
    assert(src.subrange(at, src.len() as int) =~= tail);
    assert forall|p: Seq<int>| reduction_width_ok(wg as int) && p.len() == wg implies #[trigger] tree_fold(
        p,
        wg as int / 2,
    )[0] == sum_range(|l: int| p[l], 0, wg as int) by {
        assert(wg as int / 2 * 2 == wg);
        lemma_tree_fold_sums(p, wg as int / 2);
    }
    assert forall|l: int| 0 <= l < wg implies (0 <= i < n ==> (lane_folds(l, wg as int, n, i) <==> l == i
        % (wg as int))) && (!(0 <= i < n) ==> !lane_folds(l, wg as int, n, i)) by {
        lemma_lane_folds(l, wg as int, n, i);
        if 0 <= i < n {
            lemma_lane_of_index(wg as int, n, i, l);
        }
    }
}

/// The extent of a `rows x cols` matrix along `axis`.
pub open spec fn extent_along(rows: int, cols: int, axis: int) -> int {
    if axis == 0 {
        rows
    } else {
        cols
    }
}

/// The parallel axis reduction folds, for output `i`, exactly the
/// `extent_along(rows, cols, axis)` elements of the reduced line: the loop
/// bound is the reduced axis' extent; step `idx` reads row `idx` of column
/// `i` when reducing rows (axis 0) and column `idx` of row `i` when reducing
/// columns (axis 1); each such `idx` is folded by exactly one lane; and for
/// a valid reduction width the halving tree leaves the total of the lane
/// partials (for `lhs + rhs`) in lane zero, which writes the output.
///
/// The first clause fixes the kernel text from its workgroup storage and
/// entry point to the end, for every scalar type and width; the others
/// state what those statements compute.
pub proof fn law_axis_reduction_folds_the_reduced_line(
    ty: Seq<char>,
    wg: nat,
    identity: Seq<char>,
    expr: Seq<char>,
    rows: int,
    cols: int,
    axis: int,
    i: int,
    idx: int,
)
    requires
        wg > 0,
        axis == 0 || axis == 1,
    ensures
        text_from(axis_reduction_parallel_source_spec(ty, wg, identity, expr), axis_reduction_parallel_source_before_kernel(ty, wg, identity, expr).len() as int) == "var<workgroup> partials: array<"@
                + ty
                + ", "@
                + decimal_spec(wg)
                + ">;\n\n@compute @workgroup_size("@
                + decimal_spec(wg)
                + ")\nfn main(\n    @builtin(workgroup_id) workgroup_id: vec3<u32>,\n    @builtin(local_invocation_id) local_id: vec3<u32>\n) {\n    let i = workgroup_id.x;\n    let lane = local_id.x;\n    if (i >= axis_meta.offsets.w) {\n        return;\n    }\n\n    let axis = axis_meta.offsets.z;\n    let axis_len = select(axis_meta.input_shape.y, axis_meta.input_shape.x, axis == 0u);\n    let out_row = select(i, 0u, axis == 0u);\n    let out_col = select(0u, i, axis == 0u);\n\n    var acc: "@
                + ty
                + " = "@
                + identity
                + ";\n    var idx = lane;\n    loop {\n        if (idx >= axis_len) {\n            break;\n        }\n        let in_row = select(out_row, idx, axis == 0u);\n        let in_col = select(idx, out_col, axis == 0u);\n        let in_off = i32(axis_meta.offsets.x)\n            + i32(in_row) * axis_meta.input_strides.x\n            + i32(in_col) * axis_meta.input_strides.y;\n        let lhs = acc;\n        let rhs = input[u32(in_off)];\n        acc = "@
                + expr
                + ";\n        idx = idx + "@
                + decimal_spec(wg)
                + "u;\n    }\n    partials[lane] = acc;\n    workgroupBarrier();\n\n    var stride = "@
                + decimal_spec(wg)
                + "u / 2u;\n    loop {\n        if (stride == 0u) {\n            break;\n        }\n        if (lane < stride) {\n            let lhs = partials[lane];\n            let rhs = partials[lane + stride];\n            partials[lane] = "@
                + expr
                + ";\n        }\n        workgroupBarrier();\n        stride = stride / 2u;\n    }\n\n    if (lane == 0u) {\n        let out_off = i32(axis_meta.offsets.y)\n            + i32(out_row) * axis_meta.output_strides.x\n            + i32(out_col) * axis_meta.output_strides.y;\n        output[u32(out_off)] = partials[0u];\n    }\n}\n"@,
        ({
            let axis_len = wgsl_select(cols, rows, axis == 0);
            let out_row = wgsl_select(i, 0, axis == 0);
            let out_col = wgsl_select(0, i, axis == 0);
            let in_row = wgsl_select(out_row, idx, axis == 0);
            let in_col = wgsl_select(idx, out_col, axis == 0);
            &&& axis_len == extent_along(rows, cols, axis)
            &&& axis == 0 ==> in_row == idx && in_col == i
            &&& axis == 1 ==> in_row == i && in_col == idx
            &&& forall|l: int|
                0 <= l < wg ==> (lane_folds(l, wg as int, axis_len, idx) <==> (0 <= idx < extent_along(
                    rows,
                    cols,
                    axis,
                ) && l == idx % (wg as int)))
        }),
        forall|p: Seq<int>|
            reduction_width_ok(wg as int) && p.len() == wg ==> #[trigger] tree_fold(p, wg as int / 2)[0]
                == sum_range(|l: int| p[l], 0, wg as int),
{
    let src = axis_reduction_parallel_source_spec(ty, wg, identity, expr);
    let at = axis_reduction_parallel_source_before_kernel(ty, wg, identity, expr).len() as int;
    let tail = "var<workgroup> partials: array<"@
        + ty
        + ", "@
        + decimal_spec(wg)
        + ">;\n\n@compute @workgroup_size("@
        + decimal_spec(wg)
        + ")\nfn main(\n    @builtin(workgroup_id) workgroup_id: vec3<u32>,\n    @builtin(local_invocation_id) local_id: vec3<u32>\n) {\n    let i = workgroup_id.x;\n    let lane = local_id.x;\n    if (i >= axis_meta.offsets.w) {\n        return;\n    }\n\n    let axis = axis_meta.offsets.z;\n    let axis_len = select(axis_meta.input_shape.y, axis_meta.input_shape.x, axis == 0u);\n    let out_row = select(i, 0u, axis == 0u);\n    let out_col = select(0u, i, axis == 0u);\n\n    var acc: "@
        + ty
        + " = "@
        + identity
        + ";\n    var idx = lane;\n    loop {\n        if (idx >= axis_len) {\n            break;\n        }\n        let in_row = select(out_row, idx, axis == 0u);\n        let in_col = select(idx, out_col, axis == 0u);\n        let in_off = i32(axis_meta.offsets.x)\n            + i32(in_row) * axis_meta.input_strides.x\n            + i32(in_col) * axis_meta.input_strides.y;\n        let lhs = acc;\n        let rhs = input[u32(in_off)];\n        acc = "@
        + expr
        + ";\n        idx = idx + "@
        + decimal_spec(wg)
        + "u;\n    }\n    partials[lane] = acc;\n    workgroupBarrier();\n\n    var stride = "@
        + decimal_spec(wg)
        + "u / 2u;\n    loop {\n        if (stride == 0u) {\n            break;\n        }\n        if (lane < stride) {\n            let lhs = partials[lane];\n            let rhs = partials[lane + stride];\n            partials[lane] = "@
        + expr
        + ";\n        }\n        workgroupBarrier();\n        stride = stride / 2u;\n    }\n\n    if (lane == 0u) {\n        let out_off = i32(axis_meta.offsets.y)\n            + i32(out_row) * axis_meta.output_strides.x\n            + i32(out_col) * axis_meta.output_strides.y;\n        output[u32(out_off)] = partials[0u];\n    }\n}\n"@;
    assert(src.subrange(at, src.len() as int) =~= tail);
    assert forall|p: Seq<int>| reduction_width_ok(wg as int) && p.len() == wg implies #[trigger] tree_fold(
        p,
        wg as int / 2,
    )[0] == sum_range(|l: int| p[l], 0, wg as int) by {
        assert(wg as int / 2 * 2 == wg);
        lemma_tree_fold_sums(p, wg as int / 2);
    }
    let axis_len = wgsl_select(cols, rows, axis == 0);
    assert forall|l: int| 0 <= l < wg implies (lane_folds(l, wg as int, axis_len, idx) <==> (0 <= idx
        < extent_along(rows, cols, axis) && l == idx % (wg as int))) by {
        lemma_lane_folds(l, wg as int, axis_len, idx);
        if 0 <= idx < axis_len {
            lemma_lane_of_index(wg as int, axis_len, idx, l);
        }
    }
}

/// The element `j` of the line `line` of a `rows x cols` input along `axis`:
/// row `j` of column `line` for axis 0, column `j` of row `line` for axis 1.
pub open spec fn line_entry(input: spec_fn(int, int) -> int, axis: int, line: int, j: int) -> int {
    if axis == 0 {
        input(j, line)
    } else {
        input(line, j)
    }
}

/// The index the sequential scan visits at step `s` of a line of `len`.
pub open spec fn scan_visit(len: int, reverse: bool, s: int) -> int {
    wgsl_select(s, len - 1 - s, reverse)
}

/// The accumulator the sequential scan writes at step `s`: the running sum,
/// from the identity zero, of the entries its steps `0..=s` read at
/// `(row, col) = (select(line, idx, axis == 0), select(idx, line, axis == 0))`.
pub open spec fn scan_written(
    input: spec_fn(int, int) -> int,
    len: int,
    reverse: bool,
    axis: int,
    line: int,
    s: int,
) -> int {
    sum_range(
        |t: int|
            input(
                wgsl_select(line, scan_visit(len, reverse, t), axis == 0),
                wgsl_select(scan_visit(len, reverse, t), line, axis == 0),
            ),
        0,
        s + 1,
    )
}

/// The sequential scan writes prefix folds: along a line of length
/// `extent_along(rows, cols, axis)`, a forward scan writes at step `s` the
/// position `s` with the sum of entries `0..=s`; a reverse scan writes the
/// position `len - 1 - s` with the sum of entries `len - 1 - s..len`.
///
/// The first clause fixes the kernel text from its workgroup storage and
/// entry point to the end, for every scalar type and width; the others
/// state what those statements compute.
pub proof fn law_sequential_scan_writes_prefix_folds(
    ty: Seq<char>,
    wg: nat,
    identity: Seq<char>,
    expr: Seq<char>,
    input: spec_fn(int, int) -> int,
    rows: int,
    cols: int,
    axis: int,
    line: int,
    reverse: bool,
    s: int,
)
    requires
        axis == 0 || axis == 1,
        0 <= s < extent_along(rows, cols, axis),
    ensures
        text_from(sequential_scan_source_spec(ty, wg, identity, expr), sequential_scan_source_before_kernel(ty, wg, identity, expr).len() as int) == "fn source_offset(row: u32, col: u32) -> u32 {"@
                + "\n    let off = i32(scan_meta.offsets.x)\n        + i32(row) * scan_meta.input_strides.x\n        + i32(col) * scan_meta.input_strides.y;\n    return u32(off);\n}\n\nfn dest_offset(row: u32, col: u32) -> u32 {\n    let off = i32(scan_meta.offsets.y)\n        + i32(row) * scan_meta.output_strides.x\n        + i32(col) * scan_meta.output_strides.y;\n    return u32(off);\n}\n\n// One thread owns one full scan line and walks it sequentially, writing every\n// prefix: O(L) work per length-L line. The combine order is strictly\n// left-to-right (right-to-left when reversed), matching a sequential\n// fold exactly (bitwise-identical floating-point results).\n@compute @workgroup_size("@
                + decimal_spec(wg)
                + ")\nfn main(@builtin(global_invocation_id) gid: vec3<u32>) {\n    let line = gid.x;\n    if (line >= scan_meta.offsets.w) {\n        return;\n    }\n\n    let rows = scan_meta.input_shape.x;\n    let cols = scan_meta.input_shape.y;\n    let axis = scan_meta.offsets.z & 1u;\n    let reverse = (scan_meta.offsets.z & 2u) != 0u;\n    let len = select(cols, rows, axis == 0u);\n    var acc: "@
                + ty
                + " = "@
                + identity
                + ";\n\n    // `axis` and `reverse` are uniform across the dispatch, so these selects\n    // never diverge within a subgroup.\n    for (var s = 0u; s < len; s = s + 1u) {\n        let idx = select(s, len - 1u - s, reverse);\n        let row = select(line, idx, axis == 0u);\n        let col = select(idx, line, axis == 0u);\n        let lhs = acc;\n        let rhs = input[source_offset(row, col)];\n        acc = "@
                + expr
                + ";\n        output[dest_offset(row, col)] = acc;\n    }\n}\n"@,
        ({
            let len = wgsl_select(cols, rows, axis == 0);
            &&& len == extent_along(rows, cols, axis)
            &&& !reverse ==> scan_visit(len, reverse, s) == s && scan_written(
                input,
                len,
                reverse,
                axis,
                line,
                s,
            ) == sum_range(|j: int| line_entry(input, axis, line, j), 0, s + 1)
            &&& reverse ==> scan_visit(len, reverse, s) == len - 1 - s && scan_written(
                input,
                len,
                reverse,
                axis,
                line,
                s,
            ) == sum_range(|j: int| line_entry(input, axis, line, j), len - 1 - s, len)
        }),
{
    let src = sequential_scan_source_spec(ty, wg, identity, expr);
    let at = sequential_scan_source_before_kernel(ty, wg, identity, expr).len() as int;
    let tail = "fn source_offset(row: u32, col: u32) -> u32 {"@
        + "\n    let off = i32(scan_meta.offsets.x)\n        + i32(row) * scan_meta.input_strides.x\n        + i32(col) * scan_meta.input_strides.y;\n    return u32(off);\n}\n\nfn dest_offset(row: u32, col: u32) -> u32 {\n    let off = i32(scan_meta.offsets.y)\n        + i32(row) * scan_meta.output_strides.x\n        + i32(col) * scan_meta.output_strides.y;\n    return u32(off);\n}\n\n// One thread owns one full scan line and walks it sequentially, writing every\n// prefix: O(L) work per length-L line. The combine order is strictly\n// left-to-right (right-to-left when reversed), matching a sequential\n// fold exactly (bitwise-identical floating-point results).\n@compute @workgroup_size("@
        + decimal_spec(wg)
        + ")\nfn main(@builtin(global_invocation_id) gid: vec3<u32>) {\n    let line = gid.x;\n    if (line >= scan_meta.offsets.w) {\n        return;\n    }\n\n    let rows = scan_meta.input_shape.x;\n    let cols = scan_meta.input_shape.y;\n    let axis = scan_meta.offsets.z & 1u;\n    let reverse = (scan_meta.offsets.z & 2u) != 0u;\n    let len = select(cols, rows, axis == 0u);\n    var acc: "@
        + ty
        + " = "@
        + identity
        + ";\n\n    // `axis` and `reverse` are uniform across the dispatch, so these selects\n    // never diverge within a subgroup.\n    for (var s = 0u; s < len; s = s + 1u) {\n        let idx = select(s, len - 1u - s, reverse);\n        let row = select(line, idx, axis == 0u);\n        let col = select(idx, line, axis == 0u);\n        let lhs = acc;\n        let rhs = input[source_offset(row, col)];\n        acc = "@
        + expr
        + ";\n        output[dest_offset(row, col)] = acc;\n    }\n}\n"@;
    assert(src.subrange(at, src.len() as int) =~= tail);
    let len = wgsl_select(cols, rows, axis == 0);
    let e = |j: int| line_entry(input, axis, line, j);
    let read = |t: int|
        input(
            wgsl_select(line, scan_visit(len, reverse, t), axis == 0),
            wgsl_select(scan_visit(len, reverse, t), line, axis == 0),
        );
    if !reverse {
        assert forall|t: int| 0 <= t < s + 1 implies #[trigger] read(t) == e(t) by {}
        lemma_sum_range_congruent(read, e, 0, s + 1);
    } else {
        let back = |t: int| e(len - 1 - t);
        assert forall|t: int| 0 <= t < s + 1 implies #[trigger] read(t) == back(t) by {}
        lemma_sum_range_congruent(read, back, 0, s + 1);
        lemma_sum_range_reversed(e, len, s);
    }
}

/// An operand entry as the tiled kernel stages it in workgroup memory: the
/// entry inside the `rows x cols` operand, the additive identity zero outside.
pub open spec fn staged(x: spec_fn(int, int) -> int, rows: int, cols: int, r: int, c: int) -> int {
    if r < rows && c < cols {
        x(r, c)
    } else {
        0
    }
}

/// What one tile step of the product kernel adds for output `(row, col)` at
/// tile `t`: the invocation in the same workgroup row at column `i` stages
/// `a[row][16t + i]` in `A_shared[local_row][i]`, the one in row `i` of the
/// same column stages `b[16t + i][col]` in `B_shared[i][local_col]`, and the
/// accumulation multiplies these over the 16 lanes of the tile.
pub open spec fn matmul_tile_step(
    a: spec_fn(int, int) -> int,
    b: spec_fn(int, int) -> int,
    m: int,
    k: int,
    n: int,
    row: int,
    col: int,
    t: int,
) -> int {
    sum_range(|i: int| staged(a, m, k, row, 16 * t + i) * staged(b, k, n, 16 * t + i, col), 0, 16)
}

/// The value the product kernel stores at output `(row, col)`: the tile
/// steps summed over the `(k + 15) / 16` tiles.
pub open spec fn matmul_kernel_output(
    a: spec_fn(int, int) -> int,
    b: spec_fn(int, int) -> int,
    m: int,
    k: int,
    n: int,
    row: int,
    col: int,
) -> int {
    sum_range(|t: int| matmul_tile_step(a, b, m, k, n, row, col, t), 0, (k + 15) / 16)
}

/// The tiled product kernel computes `C = A B`: for every output `(r, c)` with
/// `r < m` and `c < n`, the value it stores is `sum over j < k of
/// a[r][j] * b[j][c]`.
///
/// The first clause fixes the kernel text from its workgroup storage and
/// entry point to the end, for every scalar type and width; the others
/// state what those statements compute.
pub proof fn law_matmul_kernel_computes_the_product(
    ty: Seq<char>,
    zero: Seq<char>,
    a: spec_fn(int, int) -> int,
    b: spec_fn(int, int) -> int,
    m: int,
    k: int,
    n: int,
    row: int,
    col: int,
)
    requires
        0 <= row < m,
        0 <= col < n,
        0 <= k,
    ensures
        text_from(matmul_source_spec(ty, zero), matmul_source_before_kernel(ty, zero).len() as int) == "var<workgroup> A_shared: array<array<"@
                + ty
                + ", 16>, 16>;\nvar<workgroup> B_shared: array<array<"@
                + ty
                + ", 16>, 16>;\n\n@compute @workgroup_size(16, 16)\nfn main(\n    @builtin(global_invocation_id) global_id: vec3<u32>,\n    @builtin(local_invocation_id) local_id: vec3<u32>\n) {\n    let row = global_id.y;\n    let col = global_id.x;\n    let local_row = local_id.y;\n    let local_col = local_id.x;\n\n    let m = a_layout.shape.x;\n    let k = a_layout.shape.y;\n    let n = b_layout.shape.y;\n\n    let stride_a_row = a_layout.strides.x;\n    let stride_a_col = a_layout.strides.y;\n    let stride_b_row = b_layout.strides.x;\n    let stride_b_col = b_layout.strides.y;\n\n    var sum = "@
                + ty
                + "("@
                + zero
                + ");\n    let num_tiles = (k + 15u) / 16u;\n\n    for (var tile_idx: u32 = 0u; tile_idx < num_tiles; tile_idx = tile_idx + 1u) {\n        // 1. Load A element into shared memory\n        let col_a = tile_idx * 16u + local_col;\n        if (row < m && col_a < k) {\n            let offset_a = i32(a_layout.offset) + i32(row) * stride_a_row + i32(col_a) * stride_a_col;\n            A_shared[local_row][local_col] = a[offset_a];\n        } else {\n            A_shared[local_row][local_col] = "@
                + ty
                + "("@
                + zero
                + ");\n        }\n\n        // 2. Load B element into shared memory\n        let row_b = tile_idx * 16u + local_row;\n        if (row_b < k && col < n) {\n            let offset_b = i32(b_layout.offset) + i32(row_b) * stride_b_row + i32(col) * stride_b_col;\n            B_shared[local_row][local_col] = b[offset_b];\n        } else {\n            B_shared[local_row][local_col] = "@
                + ty
                + "("@
                + zero
                + ");\n        }\n\n        // Synchronize to ensure all threads have finished loading the current tile\n        workgroupBarrier();\n\n        // 3. Accumulate product of the current tile\n        for (var i: u32 = 0u; i < 16u; i = i + 1u) {\n            sum = sum + A_shared[local_row][i] * B_shared[i][local_col];\n        }\n\n        // Synchronize before loading the next tile\n        workgroupBarrier();\n    }\n\n    if (row < m && col < n) {\n        let stride_c_row = c_layout.strides.x;\n        let stride_c_col = c_layout.strides.y;\n        let offset_c = i32(c_layout.offset) + i32(row) * stride_c_row + i32(col) * stride_c_col;\n        c[offset_c] = sum;\n    }\n}\n"@,
        matmul_kernel_output(a, b, m, k, n, row, col) == sum_range(|j: int| a(row, j) * b(j, col), 0, k),
{
    let src = matmul_source_spec(ty, zero);
    let at = matmul_source_before_kernel(ty, zero).len() as int;
    let tail = "var<workgroup> A_shared: array<array<"@
        + ty
        + ", 16>, 16>;\nvar<workgroup> B_shared: array<array<"@
        + ty
        + ", 16>, 16>;\n\n@compute @workgroup_size(16, 16)\nfn main(\n    @builtin(global_invocation_id) global_id: vec3<u32>,\n    @builtin(local_invocation_id) local_id: vec3<u32>\n) {\n    let row = global_id.y;\n    let col = global_id.x;\n    let local_row = local_id.y;\n    let local_col = local_id.x;\n\n    let m = a_layout.shape.x;\n    let k = a_layout.shape.y;\n    let n = b_layout.shape.y;\n\n    let stride_a_row = a_layout.strides.x;\n    let stride_a_col = a_layout.strides.y;\n    let stride_b_row = b_layout.strides.x;\n    let stride_b_col = b_layout.strides.y;\n\n    var sum = "@
        + ty
        + "("@
        + zero
        + ");\n    let num_tiles = (k + 15u) / 16u;\n\n    for (var tile_idx: u32 = 0u; tile_idx < num_tiles; tile_idx = tile_idx + 1u) {\n        // 1. Load A element into shared memory\n        let col_a = tile_idx * 16u + local_col;\n        if (row < m && col_a < k) {\n            let offset_a = i32(a_layout.offset) + i32(row) * stride_a_row + i32(col_a) * stride_a_col;\n            A_shared[local_row][local_col] = a[offset_a];\n        } else {\n            A_shared[local_row][local_col] = "@
        + ty
        + "("@
        + zero
        + ");\n        }\n\n        // 2. Load B element into shared memory\n        let row_b = tile_idx * 16u + local_row;\n        if (row_b < k && col < n) {\n            let offset_b = i32(b_layout.offset) + i32(row_b) * stride_b_row + i32(col) * stride_b_col;\n            B_shared[local_row][local_col] = b[offset_b];\n        } else {\n            B_shared[local_row][local_col] = "@
        + ty
        + "("@
        + zero
        + ");\n        }\n\n        // Synchronize to ensure all threads have finished loading the current tile\n        workgroupBarrier();\n\n        // 3. Accumulate product of the current tile\n        for (var i: u32 = 0u; i < 16u; i = i + 1u) {\n            sum = sum + A_shared[local_row][i] * B_shared[i][local_col];\n        }\n\n        // Synchronize before loading the next tile\n        workgroupBarrier();\n    }\n\n    if (row < m && col < n) {\n        let stride_c_row = c_layout.strides.x;\n        let stride_c_col = c_layout.strides.y;\n        let offset_c = i32(c_layout.offset) + i32(row) * stride_c_row + i32(col) * stride_c_col;\n        c[offset_c] = sum;\n    }\n}\n"@;
    assert(src.subrange(at, src.len() as int) =~= tail);

    let f = |j: int| staged(a, m, k, row, j) * staged(b, k, n, j, col);
    let tiles = (k + 15) / 16;
    lemma_tiles_cover(a, b, m, k, n, row, col, tiles);
    lemma_fundamental_div_mod(k + 15, 16);
    assert(16 * tiles >= k) by (nonlinear_arith)
        requires
            k + 15 == 16 * tiles + (k + 15) % 16,
            0 <= (k + 15) % 16 < 16,
    ;
    assert(tiles >= 0) by (nonlinear_arith)
        requires
            k + 15 == 16 * tiles + (k + 15) % 16,
            0 <= (k + 15) % 16 < 16,
            k >= 0,
    ;
    lemma_sum_range_split(f, 0, k, 16 * tiles);
    lemma_sum_range_zero(f, k, 16 * tiles);
    let g = |j: int| a(row, j) * b(j, col);
    lemma_sum_range_congruent(f, g, 0, k);
}

/// The first `tiles` tile steps of output `(row, col)` sum the staged
/// products over the first `16 * tiles` inner indices.
proof fn lemma_tiles_cover(
    a: spec_fn(int, int) -> int,
    b: spec_fn(int, int) -> int,
    m: int,
    k: int,
    n: int,
    row: int,
    col: int,
    tiles: int,
)
    requires
        tiles >= 0,
    ensures
        sum_range(|t: int| matmul_tile_step(a, b, m, k, n, row, col, t), 0, tiles) == sum_range(
            |j: int| staged(a, m, k, row, j) * staged(b, k, n, j, col),
            0,
            16 * tiles,
        ),
    decreases tiles,
{
    let f = |j: int| staged(a, m, k, row, j) * staged(b, k, n, j, col);
    if tiles > 0 {
        lemma_tiles_cover(a, b, m, k, n, row, col, tiles - 1);
        let t = tiles - 1;
        let inner = |i: int| staged(a, m, k, row, 16 * t + i) * staged(b, k, n, 16 * t + i, col);
        let shifted = |i: int| f(16 * t + i);
        assert forall|i: int| 0 <= i < 16 implies #[trigger] inner(i) == shifted(i) by {}
        lemma_sum_range_congruent(inner, shifted, 0, 16);
        lemma_sum_range_shift(f, 16 * t, 0, 16);
        lemma_sum_range_split(f, 0, 16 * t, 16 * t + 16);
    }
}

} // verus!
