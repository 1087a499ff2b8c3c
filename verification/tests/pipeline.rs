use hephaestus_wgpu::pipeline::{cached_compilation, workgroups};
use hephaestus_wgpu::{BlockWidth, HephaestusError};
use std::cell::Cell;
use std::sync::OnceLock;

fn workgroups_accepts_exact_u32_group_limit() {
    let width = BlockWidth::new(256).expect("invariant: test width is non-zero");
    let len: usize = (u64::from(width.get()) * u64::from(u32::MAX))
        .try_into()
        .expect("invariant: max-workgroup test value fits usize on 64-bit");
    match workgroups(len, width) {
        Ok(groups) => assert_eq!(groups, u32::MAX),
        Err(error) => panic!("expected max workgroup count, got {error:?}"),
    }
}

fn workgroups_rejects_beyond_u32_group_limit() {
    let width = BlockWidth::new(256).expect("invariant: test width is non-zero");
    let len_u64 = u64::from(width.get()) * u64::from(u32::MAX) + 1;
    let len: usize = len_u64
        .try_into()
        .expect("invariant: overflow test value fits usize on 64-bit");
    match workgroups(len, width) {
        Err(HephaestusError::DispatchFailed { message }) => assert_eq!(
            message,
            format!("dispatch size {len_u64} exceeds u32 workgroup range")
        ),
        other => panic!("expected dispatch-size rejection, got {other:?}"),
    }
}

fn cached_compilation_initializes_once_under_concurrency() {
    const CALLERS: usize = 8;
    let cell = OnceLock::new();
    let compilations = Cell::new(0usize);
    for _ in 0..CALLERS {
        let value = cached_compilation(&cell, || {
            compilations.set(compilations.get() + 1);
            Ok(17_u32)
        })
        .expect("cached compilation succeeds");
        assert_eq!(value, 17);
    }
    assert_eq!(compilations.get(), 1);
}

fn cached_compilation_replays_failure() {
    let cell: OnceLock<Result<u32, String>> = OnceLock::new();
    let compilations = Cell::new(0usize);
    for _ in 0..2 {
        match cached_compilation(&cell, || {
            compilations.set(compilations.get() + 1);
            Err(HephaestusError::DispatchFailed {
                message: "shader rejected".to_owned(),
            })
        }) {
            Err(HephaestusError::DispatchFailed { message }) => {
                assert_eq!(message, "kernel dispatch failed: shader rejected")
            }
            other => panic!("expected cached dispatch failure, got {other:?}"),
        }
    }
    assert_eq!(compilations.get(), 1);
}

#[test]
fn module_cases_share_process_state() {
    let cases: [(&str, fn()); 4] = [
        (
            "workgroups_accepts_exact_u32_group_limit",
            workgroups_accepts_exact_u32_group_limit,
        ),
        (
            "workgroups_rejects_beyond_u32_group_limit",
            workgroups_rejects_beyond_u32_group_limit,
        ),
        (
            "cached_compilation_initializes_once_under_concurrency",
            cached_compilation_initializes_once_under_concurrency,
        ),
        ("cached_compilation_replays_failure", cached_compilation_replays_failure),
    ];
    for (_name, case) in cases {
        case();
    }
}

#[test]
fn workgroups_cover_partial_groups() {
    let width = BlockWidth::new(256).unwrap();
    assert_eq!(workgroups(0, width).unwrap(), 0);
    assert_eq!(workgroups(1, width).unwrap(), 1);
    assert_eq!(workgroups(256, width).unwrap(), 1);
    assert_eq!(workgroups(257, width).unwrap(), 2);
    assert!(BlockWidth::new(0).is_none());
    assert_eq!(BlockWidth::standard().get(), 256);
}

#[test]
fn errors_render_their_messages() {
    let error = HephaestusError::LengthMismatch { host_len: 12, device_len: 3 };
    assert_eq!(error.describe(), "length mismatch: host 12, device 3");
    let error = HephaestusError::InvalidConfiguration { message: "bad".to_owned() };
    assert_eq!(error.describe(), "invalid configuration: bad");
}
