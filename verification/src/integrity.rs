//! Integrity verification: SHA-256 digests of artifact bytes, compared
//! byte-for-byte against the expected checksum, with mismatches reported in
//! hex.

use vstd::prelude::*;

use sha2::Digest;

verus! {

/// The SHA-256 digest of a byte sequence.
pub uninterp spec fn sha256_of(data: Seq<u8>) -> Seq<u8>;

/// Relies on `sha2::Sha256`: the digest is a function of the bytes alone,
/// and is 32 bytes long.
#[verifier::external_body]
pub(crate) fn sha256(data: &[u8]) -> (r: Vec<u8>)
    ensures
        r@ == sha256_of(data@),
        r@.len() == 32,
{
    sha2::Sha256::digest(data).to_vec()
}

/// The lowercase hex digit for a value below sixteen.
pub open spec fn hex_digit(n: int) -> char {
    if n == 0 {
        '0'
    } else if n == 1 {
        '1'
    } else if n == 2 {
        '2'
    } else if n == 3 {
        '3'
    } else if n == 4 {
        '4'
    } else if n == 5 {
        '5'
    } else if n == 6 {
        '6'
    } else if n == 7 {
        '7'
    } else if n == 8 {
        '8'
    } else if n == 9 {
        '9'
    } else if n == 10 {
        'a'
    } else if n == 11 {
        'b'
    } else if n == 12 {
        'c'
    } else if n == 13 {
        'd'
    } else if n == 14 {
        'e'
    } else {
        'f'
    }
}

/// Lowercase hex text for a byte sequence: two digits per byte, high
/// nibble first.
pub open spec fn hex_of(bytes: Seq<u8>) -> Seq<char> {
    Seq::new(
        2 * bytes.len(),
        |i: int|
            if i % 2 == 0 {
                hex_digit(bytes[i / 2] as int / 16)
            } else {
                hex_digit(bytes[i / 2] as int % 16)
            },
    )
}

/// Relies on `hex::encode`: two lowercase hex digits per byte, high nibble
/// first.
#[verifier::external_body]
pub(crate) fn hex_encode(data: &[u8]) -> (r: String)
    ensures
        r@ == hex_of(data@),
{
    hex::encode(data)
}

/// Byte-for-byte comparison of two byte strings.
pub fn bytes_equal(a: &[u8], b: &[u8]) -> (r: bool)
    ensures
        r == (a@ == b@),
{
    if a.len() != b.len() {
        return false;
    }
    let n = a.len();
    let mut i: usize = 0;
    while i < n
        invariant
            n == a@.len(),
            n == b@.len(),
            i <= n,
            forall|j: int| 0 <= j < i ==> a@[j] == b@[j],
        decreases n - i,
    {
        if a[i] != b[i] {
            return false;
        }
        i += 1;
    }
    proof {
        assert(a@ =~= b@);
    }
    true
}

/// An integrity failure: the expected and the computed digest, in hex.
pub struct IntegrityFailure {
    pub expected_hex: String,
    pub computed_hex: String,
}

/// Check artifact bytes against their expected SHA-256 digest. Bytes pass
/// exactly when their digest equals the expected value byte-for-byte; a
/// mismatch is reported with both digests in hex, and nothing downstream
/// (no write, no extraction) is owed an artifact that fails here.
pub fn verify_integrity(data: &[u8], expected: &[u8]) -> (r: Result<(), IntegrityFailure>)
    ensures
        r is Ok <==> sha256_of(data@) == expected@,
        r matches Err(e) ==> e.expected_hex@ == hex_of(expected@) && e.computed_hex@ == hex_of(
            sha256_of(data@),
        ),
{
    let computed = sha256(data);
    if bytes_equal(computed.as_slice(), expected) {
        Ok(())
    } else {
        Err(
            IntegrityFailure {
                expected_hex: hex_encode(expected),
                computed_hex: hex_encode(computed.as_slice()),
            },
        )
    }
}

} // verus!
