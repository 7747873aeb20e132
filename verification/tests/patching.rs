use std::io::Cursor;
use wingbird_patch::patching::{apply_patch_bytes, header_overflows, PatchError};

fn make_patch(source: &[u8], target: &[u8]) -> Vec<u8> {
    let mut patch = Vec::new();
    qbsdiff::Bsdiff::new(source, target)
        .compare(Cursor::new(&mut patch))
        .unwrap();
    patch
}

#[test]
fn patch_turns_source_into_target() {
    let source: Vec<u8> = (0..4000u32).map(|i| (i % 251) as u8).collect();
    let mut target = source.clone();
    target[100] = 7;
    target.extend_from_slice(b"appended tail");
    let patch = make_patch(&source, &target);
    assert!(!header_overflows(&patch));
    assert_eq!(apply_patch_bytes(&source, &patch), Ok(target));
}

#[test]
fn non_patch_is_refused() {
    assert_eq!(apply_patch_bytes(b"src", b"not a patch at all, too short?"), Err(PatchError::Malformed));
    assert_eq!(apply_patch_bytes(b"src", &[0u8; 64]), Err(PatchError::Malformed));
}

#[test]
fn truncated_patch_is_refused() {
    let source = b"hello hello hello hello".to_vec();
    let target = b"hello world hello world!".to_vec();
    let patch = make_patch(&source, &target);
    let cut = &patch[..patch.len() / 2];
    assert_eq!(apply_patch_bytes(&source, cut), Err(PatchError::Malformed));
}

fn header(c: u64, d: u64) -> Vec<u8> {
    let mut p = b"BSDIFF40".to_vec();
    p.extend_from_slice(&c.to_le_bytes());
    p.extend_from_slice(&d.to_le_bytes());
    p.extend_from_slice(&0u64.to_le_bytes());
    p
}

#[test]
fn header_size_overflow_is_detected() {
    assert!(header_overflows(&header(u64::MAX >> 1, u64::MAX >> 1)));
    assert!(header_overflows(&header(1 << 63 | 1, 0)));
    assert!(!header_overflows(&header(1 << 63, 0)));
    assert!(header_overflows(&header((1 << 63) | 5, (1 << 63) | 5)));
    assert!(!header_overflows(&header(10, 10)));
    assert!(!header_overflows(b"BSDIFF40"));
}

#[test]
fn sizes_past_the_patch_are_refused() {
    let p = header(100, 100);
    assert!(!header_overflows(&p));
    assert_eq!(apply_patch_bytes(b"", &p), Err(PatchError::Malformed));
}
