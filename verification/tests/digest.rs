use wingbird_patch::digest::{digest_matches, digest_to_hex, hash_hex, verify_file_hash};
use wingbird_patch::hex::to_hex;

#[test]
fn hex_of_bytes_is_lower_case_two_digits_each() {
    assert_eq!(to_hex(&[0x00, 0x0f, 0xa0, 0xff, 0x12]), "000fa0ff12");
    assert_eq!(to_hex(&[]), "");
}

#[test]
fn digest_hex_has_sixty_four_digits() {
    let d = [0xabu8; 32];
    let h = digest_to_hex(&d);
    assert_eq!(h.len(), 64);
    assert_eq!(h, "ab".repeat(32));
}

#[test]
fn hash_of_empty_input_is_the_blake3_test_vector() {
    assert_eq!(
        hash_hex(b""),
        "af1349b9f5f9a1a6a0404dea36dcc9499bcb25c9adc112b7cc9a93cae41f3262"
    );
}

#[test]
fn hash_matches_the_blake3_crate() {
    let data = b"libapp.so contents";
    assert_eq!(hash_hex(data), blake3::hash(data).to_hex().to_string());
    assert_ne!(hash_hex(data), to_hex(data));
}

#[test]
fn verify_file_hash_accepts_only_the_exact_hex() {
    let data = b"some patch";
    let good = blake3::hash(data).to_hex().to_string();
    assert!(verify_file_hash(data, &good));
    assert!(!verify_file_hash(data, &good.to_uppercase()));
    assert!(!verify_file_hash(data, &good[..63]));
    assert!(!verify_file_hash(b"other patch", &good));
    assert!(!verify_file_hash(data, ""));
}

#[test]
fn digest_matches_compares_the_hex_text() {
    let d = [0x01u8; 32];
    assert!(digest_matches(&d, &"01".repeat(32)));
    assert!(!digest_matches(&d, &"10".repeat(32)));
}
