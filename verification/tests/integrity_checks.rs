//! Integrity verification against SHA-256 checksums.

use cargo_dl::integrity::verify_integrity;
use sha2::Digest;

fn digest_of(data: &[u8]) -> Vec<u8> {
    sha2::Sha256::digest(data).to_vec()
}

#[test]
fn matching_digest_passes() {
    let data = b"artifact bytes".to_vec();
    let expected = digest_of(&data);
    assert!(verify_integrity(&data, &expected).is_ok());
}

#[test]
fn differing_digest_fails_with_both_digests_in_hex() {
    let data = b"abc".to_vec();
    let expected = vec![0u8; 32];
    match verify_integrity(&data, &expected) {
        Err(failure) => {
            assert_eq!(
                failure.expected_hex.as_str(),
                "0000000000000000000000000000000000000000000000000000000000000000"
            );
            // The SHA-256 digest of the three bytes `abc`.
            assert_eq!(
                failure.computed_hex.as_str(),
                "ba7816bf8f01cfea414140de5dae2223b00361a396177a9cb410ff61f20015ad"
            );
        }
        Ok(()) => panic!("expected an integrity failure"),
    }
}

#[test]
fn single_flipped_byte_is_caught() {
    let mut data = b"some cached artifact".to_vec();
    let expected = digest_of(&data);
    data[3] ^= 1;
    assert!(verify_integrity(&data, &expected).is_err());
}

#[test]
fn empty_input_has_the_known_digest() {
    let data: Vec<u8> = Vec::new();
    let expected = digest_of(&data);
    assert!(verify_integrity(&data, &expected).is_ok());
    // The SHA-256 digest of no bytes at all.
    assert_eq!(
        hex::encode(&expected),
        "e3b0c44298fc1c149afbf4c8996fb92427ae41e4649b934ca495991b7852b855"
    );
}
