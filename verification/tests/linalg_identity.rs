use hephaestus_wgpu::linalg::{
    identity_buffer_layout, identity_matrix, identity_shader_source, matpow_schedule,
    DialectScalar, MatmulZero, MatpowStep, MatrixIdentityScalar,
};

#[derive(Clone, Copy, Debug, PartialEq)]
struct VectorIdentity([i32; 2]);

impl DialectScalar for VectorIdentity {
    const TYPE_TOKEN: &'static str = "vec2<i32>";
}

impl MatmulZero for VectorIdentity {
    const WGSL_ZERO: &'static str = "vec2<i32>(0)";
}

impl MatrixIdentityScalar for VectorIdentity {
    const ZERO: Self = Self([-7, -5]);
    const ONE: Self = Self([9, 11]);
}

/// The WGSL `f32` scalar, spelled by its type token.
struct F32Token;

impl DialectScalar for F32Token {
    const TYPE_TOKEN: &'static str = "f32";
}

#[test]
fn identity_shader_preserves_separate_typed_bindings() {
    let source = identity_shader_source::<F32Token>();

    assert!(source.contains("@group(0) @binding(2) var<uniform> zero_value: f32;"));
    assert!(source.contains("@group(0) @binding(3) var<uniform> one_value: f32;"));
    assert_eq!(source.matches("@binding(").count(), 4);
    assert!(source.contains("select(zero_value, one_value, id.x == id.y)"));
}

#[test]
fn identity_buffer_aligns_three_lane_values_without_host_padding() {
    let (one_offset, buffer_size) = identity_buffer_layout::<[i32; 3]>(256).unwrap();

    assert_eq!(one_offset, 256);
    assert_eq!(buffer_size, 268);
}

#[test]
fn identity_shader_preserves_admitted_vector_tokens() {
    let source = identity_shader_source::<VectorIdentity>();

    assert!(source.contains("zero_value: vec2<i32>"));
    assert!(source.contains("one_value: vec2<i32>"));
    assert!(!source.contains("vec2<vec2<i32>>"));
}

#[test]
fn identity_buffer_rejects_zero_alignment() {
    assert!(identity_buffer_layout::<u32>(0).is_err());
    assert_eq!(identity_buffer_layout::<u32>(4).unwrap(), (4, 8));
}

#[test]
fn identity_matrix_places_one_on_the_diagonal() {
    let m = identity_matrix::<VectorIdentity>(3);
    assert_eq!(m.len(), 9);
    for i in 0..3 {
        for j in 0..3 {
            let expected = if i == j { VectorIdentity::ONE } else { VectorIdentity::ZERO };
            assert_eq!(m[i * 3 + j], expected);
        }
    }
    assert_eq!(identity_matrix::<u32>(2), vec![1, 0, 0, 1]);
}

#[test]
fn matpow_schedule_multiplies_by_set_exponent_bits() {
    assert!(matpow_schedule(0).is_empty());
    assert_eq!(matpow_schedule(1), vec![MatpowStep::MultiplyResult]);
    assert_eq!(matpow_schedule(2), vec![MatpowStep::SquareBase, MatpowStep::MultiplyResult]);
    assert_eq!(matpow_schedule(5), vec![
            MatpowStep::MultiplyResult,
            MatpowStep::SquareBase,
            MatpowStep::SquareBase,
            MatpowStep::MultiplyResult,
        ]);
    let steps = matpow_schedule(13);
    let (mut result, mut base) = (0u64, 1u64);
    for step in steps {
        match step {
            MatpowStep::MultiplyResult => result += base,
            MatpowStep::SquareBase => base *= 2,
        }
    }
    assert_eq!(result, 13);
}
