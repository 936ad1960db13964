use plugin_host::integrity::{
    checksum_matches, is_valid_input, is_wasm_file, verify, verify_with_digest, IntegrityFault,
};

const WASM: [u8; 8] = [0x00, 0x61, 0x73, 0x6d, 0x01, 0x00, 0x00, 0x00];

fn hex_of(bytes: &[u8]) -> String {
    format!("{:x}", md5::compute(bytes))
}

#[test]
fn magic_check() {
    assert!(is_wasm_file(&WASM));
    assert!(is_wasm_file(&[0x00, 0x61, 0x73, 0x6d]));
    assert!(!is_wasm_file(&[0x00, 0x61, 0x73]));
    assert!(!is_wasm_file(&[]));
    assert!(!is_wasm_file(&[0x01, 0x61, 0x73, 0x6d]));
    assert!(!is_wasm_file(&[0x00, 0x61, 0x73, 0x6e, 0x6d]));
    assert!(!is_wasm_file(&[0x61, 0x00, 0x73, 0x6d]));
}

#[test]
fn checksum_of_known_texts() {
    assert!(is_valid_input("d41d8cd98f00b204e9800998ecf8427e", b""));
    assert!(is_valid_input("c3fcd3d76192e4007dfb496cca67e13b", b"abcdefghijklmnopqrstuvwxyz"));
    assert!(!is_valid_input("c3fcd3d76192e4007dfb496cca67e13b", b"abcdefghijklmnopqrstuvwxyy"));
    assert!(!is_valid_input("C3FCD3D76192E4007DFB496CCA67E13B", b"abcdefghijklmnopqrstuvwxyz"));
    assert!(!is_valid_input("c3fcd3d76192e4007dfb496cca67e13", b"abcdefghijklmnopqrstuvwxyz"));
    assert!(!is_valid_input("c3fcd3d76192e4007dfb496cca67e13b0", b"abcdefghijklmnopqrstuvwxyz"));
    assert!(!is_valid_input("", b"abcdefghijklmnopqrstuvwxyz"));
    assert!(!is_valid_input("abcdefghijklmnopqrstuvwxyz", b"abcdefghijklmnopqrstuvwxyz"));
}

#[test]
fn checksum_is_compared_digit_by_digit() {
    let digest: [u8; 16] = [0x00, 0x01, 0x0f, 0x10, 0x9a, 0xa9, 0xff, 0xf0, 0x12, 0x34, 0x56, 0x78, 0x9a, 0xbc, 0xde, 0xf0];
    assert!(checksum_matches("00010f109aa9fff0123456789abcdef0", &digest));
    assert!(!checksum_matches("00010f109aa9fff0123456789abcdef1", &digest));
    assert!(!checksum_matches("10010f109aa9fff0123456789abcdef0", &digest));
    assert!(!checksum_matches("00010F109AA9FFF0123456789ABCDEF0", &digest));
    assert!(!checksum_matches("0010f0019aa9fff0123456789abcdef0", &digest));
}

#[test]
fn verify_needs_both_checks() {
    let sum = hex_of(&WASM);
    assert_eq!(verify(&WASM, &sum), Ok(()));
    assert_eq!(verify(&WASM, "00000000000000000000000000000000"), Err(IntegrityFault::ChecksumMismatch));
    let text = b"not a module";
    assert_eq!(verify(text, &hex_of(text)), Err(IntegrityFault::BadMagic));
    assert_eq!(verify(text, &sum), Err(IntegrityFault::ChecksumMismatch));
    assert_eq!(verify(&[], "d41d8cd98f00b204e9800998ecf8427e"), Err(IntegrityFault::BadMagic));
}

#[test]
fn verify_is_repeatable() {
    let sum = hex_of(&WASM);
    assert_eq!(verify(&WASM, &sum), verify(&WASM, &sum));
    assert_eq!(verify(&WASM, "x"), verify(&WASM, "x"));
}

#[test]
fn verdict_for_a_given_digest() {
    let digest: [u8; 16] = [0xab; 16];
    let sum = "abababababababababababababababab";
    assert_eq!(verify_with_digest(&WASM, &digest, sum), Ok(()));
    assert_eq!(verify_with_digest(&[1, 2, 3, 4], &digest, sum), Err(IntegrityFault::BadMagic));
    assert_eq!(verify_with_digest(&WASM, &digest, "ab"), Err(IntegrityFault::ChecksumMismatch));
    assert_eq!(verify_with_digest(&[1, 2, 3, 4], &digest, "ab"), Err(IntegrityFault::ChecksumMismatch));
}
