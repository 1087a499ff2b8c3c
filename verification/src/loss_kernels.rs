//! WGSL sources of the cross-entropy kernels: a shared prelude (the uniform
//! records, addressing and status codes) followed by one stage body.

use crate::text::{decimal, decimal_spec};
use vstd::prelude::*;

verus! {

/// The status codes the kernels lower the status word to, one per failure.
#[derive(Debug, Clone, Copy, PartialEq, Eq, Structural)]
pub struct StatusCodes {
    pub nonfinite_logits: u32,
    pub target_out_of_range: u32,
    pub nonfinite_forward: u32,
    pub nonfinite_output_gradient: u32,
    pub invalid_probabilities: u32,
    pub nonfinite_destination: u32,
    pub nonfinite_backward: u32,
}

/// Stage number of `forward_preflight`.
pub const FORWARD_PREFLIGHT: u8 = 0;

/// Stage number of `forward_rows`.
pub const FORWARD_ROWS: u8 = 1;

/// Stage number of `forward_mean`.
pub const FORWARD_MEAN: u8 = 2;

/// Stage number of `backward_rows`.
pub const BACKWARD_ROWS: u8 = 3;

/// Stage number of `backward_arithmetic`.
pub const BACKWARD_ARITHMETIC: u8 = 4;

/// Stage number of `backward_accumulate`.
pub const BACKWARD_ACCUMULATE: u8 = 5;

/// The prelude every stage shares: the `LayoutMeta` and `CrossEntropyMeta`
/// uniform records, the `physical` addressing and `finite` helpers, the
/// workgroup width and the status codes.
pub open spec fn prelude_spec(width: u32, codes: StatusCodes) -> Seq<char> {
    "\nstruct LayoutMeta {\n    shape: vec4<u32>,\n    address: vec4<i32>,\n}\n\nstruct CrossEntropyMeta {\n    logits: LayoutMeta,\n    targets: LayoutMeta,\n    loss: LayoutMeta,\n    probabilities: LayoutMeta,\n    output_gradient: LayoutMeta,\n    logit_gradient: LayoutMeta,\n    dimensions: vec4<u32>,\n}\n\nfn physical(view: LayoutMeta, first: u32, second: u32) -> u32 {\n    return u32(view.address.z + i32(first) * view.address.x + i32(second) * view.address.y);\n}\n\nfn finite(value: f32) -> bool {\n    return value == value && abs(value) <= 3.402823466e+38;\n}\n\nconst WORKGROUP_WIDTH: u32 = "@
        + decimal_spec(width as nat)
        + "u;\nconst STATUS_NON_FINITE_LOGITS: u32 = "@
        + decimal_spec(codes.nonfinite_logits as nat)
        + "u;\nconst STATUS_TARGET_OUT_OF_RANGE: u32 = "@
        + decimal_spec(codes.target_out_of_range as nat)
        + "u;\nconst STATUS_NON_FINITE_FORWARD: u32 = "@
        + decimal_spec(codes.nonfinite_forward as nat)
        + "u;\nconst STATUS_NON_FINITE_OUTPUT_GRADIENT: u32 = "@
        + decimal_spec(codes.nonfinite_output_gradient as nat)
        + "u;\nconst STATUS_INVALID_PROBABILITIES: u32 = "@
        + decimal_spec(codes.invalid_probabilities as nat)
        + "u;\nconst STATUS_NON_FINITE_DESTINATION: u32 = "@
        + decimal_spec(codes.nonfinite_destination as nat)
        + "u;\nconst STATUS_NON_FINITE_BACKWARD: u32 = "@
        + decimal_spec(codes.nonfinite_backward as nat)
        + "u;\n"@
}

/// The WGSL prelude of the cross-entropy kernels.
pub fn prelude(width: u32, codes: StatusCodes) -> (s: String)
    ensures
        s@ == prelude_spec(width, codes),
{
    let width_digits = decimal(width as u64);
    let nonfinite_logits_digits = decimal(codes.nonfinite_logits as u64);
    let target_out_of_range_digits = decimal(codes.target_out_of_range as u64);
    let nonfinite_forward_digits = decimal(codes.nonfinite_forward as u64);
    let nonfinite_output_gradient_digits = decimal(codes.nonfinite_output_gradient as u64);
    let invalid_probabilities_digits = decimal(codes.invalid_probabilities as u64);
    let nonfinite_destination_digits = decimal(codes.nonfinite_destination as u64);
    let nonfinite_backward_digits = decimal(codes.nonfinite_backward as u64);
    let mut s = String::from_str("\nstruct LayoutMeta {\n    shape: vec4<u32>,\n    address: vec4<i32>,\n}\n\nstruct CrossEntropyMeta {\n    logits: LayoutMeta,\n    targets: LayoutMeta,\n    loss: LayoutMeta,\n    probabilities: LayoutMeta,\n    output_gradient: LayoutMeta,\n    logit_gradient: LayoutMeta,\n    dimensions: vec4<u32>,\n}\n\nfn physical(view: LayoutMeta, first: u32, second: u32) -> u32 {\n    return u32(view.address.z + i32(first) * view.address.x + i32(second) * view.address.y);\n}\n\nfn finite(value: f32) -> bool {\n    return value == value && abs(value) <= 3.402823466e+38;\n}\n\nconst WORKGROUP_WIDTH: u32 = ");
    s.append(width_digits.as_str());
    s.append("u;\nconst STATUS_NON_FINITE_LOGITS: u32 = ");
    s.append(nonfinite_logits_digits.as_str());
    s.append("u;\nconst STATUS_TARGET_OUT_OF_RANGE: u32 = ");
    s.append(target_out_of_range_digits.as_str());
    s.append("u;\nconst STATUS_NON_FINITE_FORWARD: u32 = ");
    s.append(nonfinite_forward_digits.as_str());
    s.append("u;\nconst STATUS_NON_FINITE_OUTPUT_GRADIENT: u32 = ");
    s.append(nonfinite_output_gradient_digits.as_str());
    s.append("u;\nconst STATUS_INVALID_PROBABILITIES: u32 = ");
    s.append(invalid_probabilities_digits.as_str());
    s.append("u;\nconst STATUS_NON_FINITE_DESTINATION: u32 = ");
    s.append(nonfinite_destination_digits.as_str());
    s.append("u;\nconst STATUS_NON_FINITE_BACKWARD: u32 = ");
    s.append(nonfinite_backward_digits.as_str());
    s.append("u;\n");
    s
}

/// The forward preflight: one invocation per row checks the target index
/// and that the logits, their normalizer and the row loss are finite,
/// lowering the status word to the first failure's code.
pub open spec fn forward_preflight_spec() -> Seq<char> {
    "\n@group(0) @binding(0) var<storage, read> logits: array<f32>;\n@group(0) @binding(1) var<storage, read> targets: array<u32>;\n@group(0) @binding(2) var<storage, read_write> status: atomic<u32>;\n@group(0) @binding(3) var<uniform> parameters: CrossEntropyMeta;\n\n@compute @workgroup_size(WORKGROUP_WIDTH)\nfn main(@builtin(global_invocation_id) id: vec3<u32>) {\n    let row = id.x;\n    if (row >= parameters.dimensions.x) { return; }\n    let target_index = targets[physical(parameters.targets, row, 0u)];\n    if (target_index >= parameters.dimensions.y) {\n        atomicMin(&status, STATUS_TARGET_OUT_OF_RANGE);\n        return;\n    }\n    var maximum = -3.402823466e+38;\n    var class_index = 0u;\n    loop {\n        if (class_index >= parameters.dimensions.y) { break; }\n        let value = logits[physical(parameters.logits, row, class_index)];\n        if (!finite(value)) { atomicMin(&status, STATUS_NON_FINITE_LOGITS); }\n        maximum = max(maximum, value);\n        class_index += 1u;\n    }\n    var denominator = 0.0;\n    class_index = 0u;\n    loop {\n        if (class_index >= parameters.dimensions.y) { break; }\n        denominator += exp(logits[physical(parameters.logits, row, class_index)] - maximum);\n        class_index += 1u;\n    }\n    let target_logit = logits[physical(parameters.logits, row, target_index)];\n    let row_loss = log(denominator) + (maximum - target_logit);\n    if (!finite(denominator) || denominator <= 0.0 || !finite(row_loss)) {\n        atomicMin(&status, STATUS_NON_FINITE_FORWARD);\n    }\n}\n"@
}

/// The WGSL body of this stage.
pub fn forward_preflight() -> (s: &'static str)
    ensures
        s@ == forward_preflight_spec(),
{
    "\n@group(0) @binding(0) var<storage, read> logits: array<f32>;\n@group(0) @binding(1) var<storage, read> targets: array<u32>;\n@group(0) @binding(2) var<storage, read_write> status: atomic<u32>;\n@group(0) @binding(3) var<uniform> parameters: CrossEntropyMeta;\n\n@compute @workgroup_size(WORKGROUP_WIDTH)\nfn main(@builtin(global_invocation_id) id: vec3<u32>) {\n    let row = id.x;\n    if (row >= parameters.dimensions.x) { return; }\n    let target_index = targets[physical(parameters.targets, row, 0u)];\n    if (target_index >= parameters.dimensions.y) {\n        atomicMin(&status, STATUS_TARGET_OUT_OF_RANGE);\n        return;\n    }\n    var maximum = -3.402823466e+38;\n    var class_index = 0u;\n    loop {\n        if (class_index >= parameters.dimensions.y) { break; }\n        let value = logits[physical(parameters.logits, row, class_index)];\n        if (!finite(value)) { atomicMin(&status, STATUS_NON_FINITE_LOGITS); }\n        maximum = max(maximum, value);\n        class_index += 1u;\n    }\n    var denominator = 0.0;\n    class_index = 0u;\n    loop {\n        if (class_index >= parameters.dimensions.y) { break; }\n        denominator += exp(logits[physical(parameters.logits, row, class_index)] - maximum);\n        class_index += 1u;\n    }\n    let target_logit = logits[physical(parameters.logits, row, target_index)];\n    let row_loss = log(denominator) + (maximum - target_logit);\n    if (!finite(denominator) || denominator <= 0.0 || !finite(row_loss)) {\n        atomicMin(&status, STATUS_NON_FINITE_FORWARD);\n    }\n}\n"
}

/// The forward rows: one invocation per row writes the row's softmax
/// probabilities and its loss `log(sum exp(l - max)) + max - l[target]`.
pub open spec fn forward_rows_spec() -> Seq<char> {
    "\n@group(0) @binding(0) var<storage, read> logits: array<f32>;\n@group(0) @binding(1) var<storage, read> targets: array<u32>;\n@group(0) @binding(2) var<storage, read_write> probabilities: array<f32>;\n@group(0) @binding(3) var<storage, read_write> row_losses: array<f32>;\n@group(0) @binding(4) var<uniform> parameters: CrossEntropyMeta;\n\n@compute @workgroup_size(WORKGROUP_WIDTH)\nfn main(@builtin(global_invocation_id) id: vec3<u32>) {\n    let row = id.x;\n    if (row >= parameters.dimensions.x) { return; }\n    var maximum = -3.402823466e+38;\n    var class_index = 0u;\n    loop {\n        if (class_index >= parameters.dimensions.y) { break; }\n        maximum = max(maximum, logits[physical(parameters.logits, row, class_index)]);\n        class_index += 1u;\n    }\n    var denominator = 0.0;\n    class_index = 0u;\n    loop {\n        if (class_index >= parameters.dimensions.y) { break; }\n        denominator += exp(logits[physical(parameters.logits, row, class_index)] - maximum);\n        class_index += 1u;\n    }\n    class_index = 0u;\n    loop {\n        if (class_index >= parameters.dimensions.y) { break; }\n        probabilities[physical(parameters.probabilities, row, class_index)] =\n            exp(logits[physical(parameters.logits, row, class_index)] - maximum) / denominator;\n        class_index += 1u;\n    }\n    let target_index = targets[physical(parameters.targets, row, 0u)];\n    row_losses[row] = log(denominator) +\n        (maximum - logits[physical(parameters.logits, row, target_index)]);\n}\n"@
}

/// The WGSL body of this stage.
pub fn forward_rows() -> (s: &'static str)
    ensures
        s@ == forward_rows_spec(),
{
    "\n@group(0) @binding(0) var<storage, read> logits: array<f32>;\n@group(0) @binding(1) var<storage, read> targets: array<u32>;\n@group(0) @binding(2) var<storage, read_write> probabilities: array<f32>;\n@group(0) @binding(3) var<storage, read_write> row_losses: array<f32>;\n@group(0) @binding(4) var<uniform> parameters: CrossEntropyMeta;\n\n@compute @workgroup_size(WORKGROUP_WIDTH)\nfn main(@builtin(global_invocation_id) id: vec3<u32>) {\n    let row = id.x;\n    if (row >= parameters.dimensions.x) { return; }\n    var maximum = -3.402823466e+38;\n    var class_index = 0u;\n    loop {\n        if (class_index >= parameters.dimensions.y) { break; }\n        maximum = max(maximum, logits[physical(parameters.logits, row, class_index)]);\n        class_index += 1u;\n    }\n    var denominator = 0.0;\n    class_index = 0u;\n    loop {\n        if (class_index >= parameters.dimensions.y) { break; }\n        denominator += exp(logits[physical(parameters.logits, row, class_index)] - maximum);\n        class_index += 1u;\n    }\n    class_index = 0u;\n    loop {\n        if (class_index >= parameters.dimensions.y) { break; }\n        probabilities[physical(parameters.probabilities, row, class_index)] =\n            exp(logits[physical(parameters.logits, row, class_index)] - maximum) / denominator;\n        class_index += 1u;\n    }\n    let target_index = targets[physical(parameters.targets, row, 0u)];\n    row_losses[row] = log(denominator) +\n        (maximum - logits[physical(parameters.logits, row, target_index)]);\n}\n"
}

/// The forward mean: a single invocation averages the row losses into the
/// loss as a running mean.
pub open spec fn forward_mean_spec() -> Seq<char> {
    "\n@group(0) @binding(0) var<storage, read> row_losses: array<f32>;\n@group(0) @binding(1) var<storage, read_write> loss: array<f32>;\n@group(0) @binding(2) var<uniform> parameters: CrossEntropyMeta;\n\n@compute @workgroup_size(1)\nfn main() {\n    var mean = 0.0;\n    var row = 0u;\n    loop {\n        if (row >= parameters.dimensions.x) { break; }\n        mean += (row_losses[row] - mean) / f32(row + 1u);\n        row += 1u;\n    }\n    loss[physical(parameters.loss, 0u, 0u)] = mean;\n}\n"@
}

/// The WGSL body of this stage.
pub fn forward_mean() -> (s: &'static str)
    ensures
        s@ == forward_mean_spec(),
{
    "\n@group(0) @binding(0) var<storage, read> row_losses: array<f32>;\n@group(0) @binding(1) var<storage, read_write> loss: array<f32>;\n@group(0) @binding(2) var<uniform> parameters: CrossEntropyMeta;\n\n@compute @workgroup_size(1)\nfn main() {\n    var mean = 0.0;\n    var row = 0u;\n    loop {\n        if (row >= parameters.dimensions.x) { break; }\n        mean += (row_losses[row] - mean) / f32(row + 1u);\n        row += 1u;\n    }\n    loss[physical(parameters.loss, 0u, 0u)] = mean;\n}\n"
}

/// The backward preflight: one invocation per row checks the upstream
/// gradient, the target index, and that the saved probabilities form a
/// distribution within the tolerance; row zero saves the upstream gradient.
pub open spec fn backward_rows_spec() -> Seq<char> {
    "\n@group(0) @binding(0) var<storage, read> output_gradient: array<f32>;\n@group(0) @binding(1) var<storage, read> probabilities: array<f32>;\n@group(0) @binding(2) var<storage, read> targets: array<u32>;\n@group(0) @binding(3) var<storage, read_write> status: array<atomic<u32>>;\n@group(0) @binding(4) var<uniform> parameters: CrossEntropyMeta;\n\n@compute @workgroup_size(WORKGROUP_WIDTH)\nfn main(@builtin(global_invocation_id) id: vec3<u32>) {\n    let row = id.x;\n    if (row >= parameters.dimensions.x) { return; }\n    let upstream = output_gradient[physical(parameters.output_gradient, 0u, 0u)];\n    if (row == 0u) { atomicStore(&status[1], bitcast<u32>(upstream)); }\n    if (!finite(upstream)) { atomicMin(&status[0], STATUS_NON_FINITE_OUTPUT_GRADIENT); }\n    if (targets[physical(parameters.targets, row, 0u)] >= parameters.dimensions.y) {\n        atomicMin(&status[0], STATUS_TARGET_OUT_OF_RANGE);\n    }\n    var sum = 0.0;\n    var class_index = 0u;\n    loop {\n        if (class_index >= parameters.dimensions.y) { break; }\n        let probability = probabilities[physical(parameters.probabilities, row, class_index)];\n        if (!finite(probability) || probability < 0.0 || probability > 1.0) {\n            atomicMin(&status[0], STATUS_INVALID_PROBABILITIES);\n        }\n        sum += probability;\n        class_index += 1u;\n    }\n    let tolerance = bitcast<f32>(parameters.dimensions.z);\n    if (!finite(sum) || abs(sum - 1.0) > tolerance) {\n        atomicMin(&status[0], STATUS_INVALID_PROBABILITIES);\n    }\n}\n"@
}

/// The WGSL body of this stage.
pub fn backward_rows() -> (s: &'static str)
    ensures
        s@ == backward_rows_spec(),
{
    "\n@group(0) @binding(0) var<storage, read> output_gradient: array<f32>;\n@group(0) @binding(1) var<storage, read> probabilities: array<f32>;\n@group(0) @binding(2) var<storage, read> targets: array<u32>;\n@group(0) @binding(3) var<storage, read_write> status: array<atomic<u32>>;\n@group(0) @binding(4) var<uniform> parameters: CrossEntropyMeta;\n\n@compute @workgroup_size(WORKGROUP_WIDTH)\nfn main(@builtin(global_invocation_id) id: vec3<u32>) {\n    let row = id.x;\n    if (row >= parameters.dimensions.x) { return; }\n    let upstream = output_gradient[physical(parameters.output_gradient, 0u, 0u)];\n    if (row == 0u) { atomicStore(&status[1], bitcast<u32>(upstream)); }\n    if (!finite(upstream)) { atomicMin(&status[0], STATUS_NON_FINITE_OUTPUT_GRADIENT); }\n    if (targets[physical(parameters.targets, row, 0u)] >= parameters.dimensions.y) {\n        atomicMin(&status[0], STATUS_TARGET_OUT_OF_RANGE);\n    }\n    var sum = 0.0;\n    var class_index = 0u;\n    loop {\n        if (class_index >= parameters.dimensions.y) { break; }\n        let probability = probabilities[physical(parameters.probabilities, row, class_index)];\n        if (!finite(probability) || probability < 0.0 || probability > 1.0) {\n            atomicMin(&status[0], STATUS_INVALID_PROBABILITIES);\n        }\n        sum += probability;\n        class_index += 1u;\n    }\n    let tolerance = bitcast<f32>(parameters.dimensions.z);\n    if (!finite(sum) || abs(sum - 1.0) > tolerance) {\n        atomicMin(&status[0], STATUS_INVALID_PROBABILITIES);\n    }\n}\n"
}

/// The backward arithmetic check: one invocation per element checks that
/// the destination value, the increment it would receive and their sum are
/// finite.
pub open spec fn backward_arithmetic_spec() -> Seq<char> {
    "\n@group(0) @binding(0) var<storage, read> probabilities: array<f32>;\n@group(0) @binding(1) var<storage, read> targets: array<u32>;\n@group(0) @binding(2) var<storage, read> destination: array<f32>;\n@group(0) @binding(3) var<storage, read_write> status: array<atomic<u32>>;\n@group(0) @binding(4) var<uniform> parameters: CrossEntropyMeta;\n\n@compute @workgroup_size(WORKGROUP_WIDTH)\nfn main(@builtin(global_invocation_id) id: vec3<u32>) {\n    let elements = parameters.dimensions.x * parameters.dimensions.y;\n    if (id.x >= elements) { return; }\n    let row = id.x / parameters.dimensions.y;\n    let class_index = id.x % parameters.dimensions.y;\n    let upstream = bitcast<f32>(atomicLoad(&status[1]));\n    let scaled = upstream / f32(parameters.dimensions.x);\n    let probability = probabilities[physical(parameters.probabilities, row, class_index)];\n    let target_index = targets[physical(parameters.targets, row, 0u)];\n    let indicator = select(0.0, 1.0, class_index == target_index);\n    let increment = scaled * (probability - indicator);\n    let current = destination[physical(parameters.logit_gradient, row, class_index)];\n    if (!finite(current)) { atomicMin(&status[0], STATUS_NON_FINITE_DESTINATION); }\n    if (!finite(increment) || !finite(current + increment)) {\n        atomicMin(&status[0], STATUS_NON_FINITE_BACKWARD);\n    }\n}\n"@
}

/// The WGSL body of this stage.
pub fn backward_arithmetic() -> (s: &'static str)
    ensures
        s@ == backward_arithmetic_spec(),
{
    "\n@group(0) @binding(0) var<storage, read> probabilities: array<f32>;\n@group(0) @binding(1) var<storage, read> targets: array<u32>;\n@group(0) @binding(2) var<storage, read> destination: array<f32>;\n@group(0) @binding(3) var<storage, read_write> status: array<atomic<u32>>;\n@group(0) @binding(4) var<uniform> parameters: CrossEntropyMeta;\n\n@compute @workgroup_size(WORKGROUP_WIDTH)\nfn main(@builtin(global_invocation_id) id: vec3<u32>) {\n    let elements = parameters.dimensions.x * parameters.dimensions.y;\n    if (id.x >= elements) { return; }\n    let row = id.x / parameters.dimensions.y;\n    let class_index = id.x % parameters.dimensions.y;\n    let upstream = bitcast<f32>(atomicLoad(&status[1]));\n    let scaled = upstream / f32(parameters.dimensions.x);\n    let probability = probabilities[physical(parameters.probabilities, row, class_index)];\n    let target_index = targets[physical(parameters.targets, row, 0u)];\n    let indicator = select(0.0, 1.0, class_index == target_index);\n    let increment = scaled * (probability - indicator);\n    let current = destination[physical(parameters.logit_gradient, row, class_index)];\n    if (!finite(current)) { atomicMin(&status[0], STATUS_NON_FINITE_DESTINATION); }\n    if (!finite(increment) || !finite(current + increment)) {\n        atomicMin(&status[0], STATUS_NON_FINITE_BACKWARD);\n    }\n}\n"
}

/// The backward accumulation: one invocation per element adds
/// `upstream * (p - [class == target]) / batch` into the destination.
pub open spec fn backward_accumulate_spec() -> Seq<char> {
    "\n@group(0) @binding(0) var<storage, read> output_gradient: array<f32>;\n@group(0) @binding(1) var<storage, read> probabilities: array<f32>;\n@group(0) @binding(2) var<storage, read> targets: array<u32>;\n@group(0) @binding(3) var<storage, read_write> destination: array<f32>;\n@group(0) @binding(4) var<uniform> parameters: CrossEntropyMeta;\n\n@compute @workgroup_size(WORKGROUP_WIDTH)\nfn main(@builtin(global_invocation_id) id: vec3<u32>) {\n    let elements = parameters.dimensions.x * parameters.dimensions.y;\n    if (id.x >= elements) { return; }\n    let row = id.x / parameters.dimensions.y;\n    let class_index = id.x % parameters.dimensions.y;\n    let target_index = targets[physical(parameters.targets, row, 0u)];\n    let indicator = select(0.0, 1.0, class_index == target_index);\n    let upstream = output_gradient[physical(parameters.output_gradient, 0u, 0u)];\n    let index = physical(parameters.logit_gradient, row, class_index);\n    destination[index] += upstream *\n        (probabilities[physical(parameters.probabilities, row, class_index)] - indicator) /\n        f32(parameters.dimensions.x);\n}\n"@
}

/// The WGSL body of this stage.
pub fn backward_accumulate() -> (s: &'static str)
    ensures
        s@ == backward_accumulate_spec(),
{
    "\n@group(0) @binding(0) var<storage, read> output_gradient: array<f32>;\n@group(0) @binding(1) var<storage, read> probabilities: array<f32>;\n@group(0) @binding(2) var<storage, read> targets: array<u32>;\n@group(0) @binding(3) var<storage, read_write> destination: array<f32>;\n@group(0) @binding(4) var<uniform> parameters: CrossEntropyMeta;\n\n@compute @workgroup_size(WORKGROUP_WIDTH)\nfn main(@builtin(global_invocation_id) id: vec3<u32>) {\n    let elements = parameters.dimensions.x * parameters.dimensions.y;\n    if (id.x >= elements) { return; }\n    let row = id.x / parameters.dimensions.y;\n    let class_index = id.x % parameters.dimensions.y;\n    let target_index = targets[physical(parameters.targets, row, 0u)];\n    let indicator = select(0.0, 1.0, class_index == target_index);\n    let upstream = output_gradient[physical(parameters.output_gradient, 0u, 0u)];\n    let index = physical(parameters.logit_gradient, row, class_index);\n    destination[index] += upstream *\n        (probabilities[physical(parameters.probabilities, row, class_index)] - indicator) /\n        f32(parameters.dimensions.x);\n}\n"
}

/// The body of stage `stage`.
pub open spec fn stage_body_spec(stage: u8) -> Seq<char> {
    if stage == FORWARD_PREFLIGHT {
        forward_preflight_spec()
    } else if stage == FORWARD_ROWS {
        forward_rows_spec()
    } else if stage == FORWARD_MEAN {
        forward_mean_spec()
    } else if stage == BACKWARD_ROWS {
        backward_rows_spec()
    } else if stage == BACKWARD_ARITHMETIC {
        backward_arithmetic_spec()
    } else {
        backward_accumulate_spec()
    }
}

/// The WGSL source of stage `stage`: the prelude, a newline, and the stage's
/// body.
pub fn shader(stage: u8, width: u32, codes: StatusCodes) -> (s: String)
    requires
        stage <= BACKWARD_ACCUMULATE,
    ensures
        s@ == prelude_spec(width, codes) + "\n"@ + stage_body_spec(stage),
{
    let body = if stage == FORWARD_PREFLIGHT {
        forward_preflight()
    } else if stage == FORWARD_ROWS {
        forward_rows()
    } else if stage == FORWARD_MEAN {
        forward_mean()
    } else if stage == BACKWARD_ROWS {
        backward_rows()
    } else if stage == BACKWARD_ARITHMETIC {
        backward_arithmetic()
    } else {
        backward_accumulate()
    };
    let mut s = prelude(width, codes);
    s.append("\n");
    s.append(body);
    s
}

} // verus!
