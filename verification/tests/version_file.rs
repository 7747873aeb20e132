use wingbird_patch::decimal::{format_u32, parse_u32_chars};
use wingbird_patch::types::LibVersion;
use wingbird_patch::version::VersionFileError;

fn parse(s: &str) -> Option<u32> {
    let v: Vec<char> = s.chars().collect();
    parse_u32_chars(&v)
}

#[test]
fn decimal_text_is_written_as_display_does() {
    for n in [0u32, 7, 10, 99, 100, 12345, u32::MAX] {
        assert_eq!(format_u32(n), n.to_string());
    }
}

#[test]
fn decimal_text_is_read_as_str_parse_does() {
    for s in ["0", "42", "+42", "0007", "4294967295", "4294967296", "", "+", "-1", " 1", "1 ", "1a", "٣", "99999999999"] {
        assert_eq!(parse(s), s.parse::<u32>().ok(), "input {:?}", s);
    }
}

#[test]
fn version_text_is_release_colon_number() {
    let v = LibVersion { release_version: "1.2.3".to_string(), patch_number: 7 };
    assert_eq!(v.to_file_content(), "1.2.3:7");
}

#[test]
fn version_text_round_trips() {
    for (rel, n) in [("1.0.0", 0u32), ("2024.1+build", 42), ("", 5), ("v", u32::MAX)] {
        let v = LibVersion { release_version: rel.to_string(), patch_number: n };
        let back = LibVersion::from_file_content(&v.to_file_content()).unwrap();
        assert_eq!(back, v);
    }
}

#[test]
fn version_text_reads_only_the_second_field() {
    let v = LibVersion::from_file_content("1.0:12:junk").unwrap();
    assert_eq!(v.release_version, "1.0");
    assert_eq!(v.patch_number, 12);
}

#[test]
fn release_with_colon_is_cut_at_the_first_colon() {
    let v = LibVersion { release_version: "a:1".to_string(), patch_number: 9 };
    let back = LibVersion::from_file_content(&v.to_file_content()).unwrap();
    assert_eq!(back.release_version, "a");
    assert_eq!(back.patch_number, 1);
}

#[test]
fn bad_patch_number_is_refused() {
    assert_eq!(LibVersion::from_file_content("1.0:"), Err(VersionFileError::InvalidPatchNumber));
    assert_eq!(LibVersion::from_file_content("1.0:x"), Err(VersionFileError::InvalidPatchNumber));
    assert_eq!(LibVersion::from_file_content("1.0:7\n"), Err(VersionFileError::InvalidPatchNumber));
    assert_eq!(LibVersion::from_file_content("1.0:4294967296"), Err(VersionFileError::InvalidPatchNumber));
}
