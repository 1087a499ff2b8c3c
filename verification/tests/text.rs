use hephaestus_wgpu::fft::kernel::scalar_source;
use hephaestus_wgpu::text::replace_all;

#[test]
fn replacement_matches_std_replace() {
    let cases = [
        ("array<{{scalar}}>; var x: {{scalar}};", "{{scalar}}", "f16"),
        ("aaaa", "aa", "b"),
        ("aaa", "aa", "X"),
        ("no placeholder here", "{{scalar}}", "f32"),
        ("", "x", "y"),
        ("xyz", "xyz", ""),
        ("é{{s}}ü{{s}}", "{{s}}", "ß"),
    ];
    for (source, pattern, token) in cases {
        assert_eq!(replace_all(source, pattern, token), source.replace(pattern, token));
    }
}

#[test]
fn fft_templates_take_the_scalar_token_and_preamble() {
    let template = "@group(0) @binding(0) var<storage, read_write> data: array<{{scalar}}>;\n";
    assert_eq!(
        scalar_source(template, "f32", ""),
        "@group(0) @binding(0) var<storage, read_write> data: array<f32>;\n"
    );
    assert_eq!(
        scalar_source(template, "f16", "enable f16;\n\n"),
        "enable f16;\n\n@group(0) @binding(0) var<storage, read_write> data: array<f16>;\n"
    );
}
