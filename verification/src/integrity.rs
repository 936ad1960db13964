//! Integrity checks on a staged artifact: its content digest and its format
//! magic.

use vstd::prelude::*;
use crate::text::chars_of;

verus! {

/// Why a staged artifact was turned down.
#[derive(Clone, Copy, Debug, PartialEq, Eq, Structural)]
pub enum IntegrityFault {
    /// The digest of the bytes is not the checksum that the service gave.
    ChecksumMismatch,
    /// The bytes do not begin with the WebAssembly magic.
    BadMagic,
}

/// The MD5 digest of `data`. This library does not define it: it is what
/// `md5::compute` returns for these bytes.
pub uninterp spec fn md5_digest(data: Seq<u8>) -> Seq<u8>;

/// Calls `md5::compute` and hands out the sixteen bytes of its `Digest`.
/// Trusted: the result is the MD5 digest of `data`, named `md5_digest` here.
#[verifier::external_body]
pub(crate) fn md5_compute(data: &[u8]) -> (digest: [u8; 16])
    ensures
        digest@ == md5_digest(data@),
{
    md5::compute(data).0
}

/// The lower-case hexadecimal digit for `n`, where `n` is below sixteen.
pub open spec fn hex_digit(n: int) -> char {
    seq!['0', '1', '2', '3', '4', '5', '6', '7', '8', '9', 'a', 'b', 'c', 'd', 'e', 'f'][n]
}

/// The bytes written in lower-case hexadecimal, two digits for each byte, the
/// high half first.
pub open spec fn hex_lower(bytes: Seq<u8>) -> Seq<char> {
    Seq::new(
        2 * bytes.len(),
        |i: int|
            if i % 2 == 0 {
                hex_digit(bytes[i / 2] as int / 16)
            } else {
                hex_digit(bytes[i / 2] as int % 16)
            },
    )
}

/// The four bytes that open a WebAssembly binary.
pub open spec fn wasm_magic() -> Seq<u8> {
    seq![0x00u8, 0x61u8, 0x73u8, 0x6du8]
}

/// Whether `bytes` begins with the WebAssembly magic.
pub open spec fn has_wasm_magic(bytes: Seq<u8>) -> bool {
    bytes.len() >= 4 && bytes.subrange(0, 4) == wasm_magic()
}

/// Whether `check_sum` is the digest of `bytes` in lower-case hexadecimal.
pub open spec fn checksum_holds(check_sum: Seq<char>, bytes: Seq<u8>) -> bool {
    check_sum == hex_lower(md5_digest(bytes))
}

fn hex_char(n: u8) -> (c: char)
    requires
        n < 16,
    ensures
        c == hex_digit(n as int),
{
    if n < 10 {
        (48u8 + n) as char
    } else {
        (87u8 + n) as char
    }
}

/// Whether `check_sum` writes `digest` in lower-case hexadecimal.
pub fn checksum_matches(check_sum: &str, digest: &[u8; 16]) -> (ok: bool)
    ensures
        ok == (check_sum@ == hex_lower(digest@)),
{
    let chars = chars_of(check_sum);
    let ghost want = hex_lower(digest@);
    if chars.len() != 32 {
        return false;
    }
    let mut i: usize = 0;
    while i < 16
        invariant
            i <= 16,
            chars.len() == 32,
            chars@ == check_sum@,
            want == hex_lower(digest@),
            forall|k: int| 0 <= k < 2 * i ==> chars@[k] == want[k],
        decreases 16 - i,
    {
        let b: u8 = digest[i];
        let high = hex_char(b / 16);
        let low = hex_char(b % 16);
        assert(want[2 * i] == high);
        assert(want[2 * i + 1] == low);
        if chars[2 * i] != high || chars[2 * i + 1] != low {
            return false;
        }
        i = i + 1;
    }
    assert(chars@ =~= want);
    true
}

/// Whether the staged bytes have the digest that the service announced:
/// `check_sum` must be the MD5 digest of `bytes`, written as thirty-two
/// lower-case hexadecimal digits.
pub fn is_valid_input(check_sum: &str, bytes: &[u8]) -> (ok: bool)
    ensures
        ok == checksum_holds(check_sum@, bytes@),
{
    let digest = md5_compute(bytes);
    checksum_matches(check_sum, &digest)
}

/// Whether the staged bytes begin with the WebAssembly magic `00 61 73 6d`.
pub fn is_wasm_file(bytes: &[u8]) -> (ok: bool)
    ensures
        ok == has_wasm_magic(bytes@),
{
    if bytes.len() < 4 {
        return false;
    }
    let ok = bytes[0] == 0x00 && bytes[1] == 0x61 && bytes[2] == 0x73 && bytes[3] == 0x6d;
    if ok {
        assert(bytes@.subrange(0, 4) =~= wasm_magic());
    } else {
        assert(bytes@.subrange(0, 4)[0] == bytes@[0]);
        assert(bytes@.subrange(0, 4)[1] == bytes@[1]);
        assert(bytes@.subrange(0, 4)[2] == bytes@[2]);
        assert(bytes@.subrange(0, 4)[3] == bytes@[3]);
    }
    ok
}

/// The verdict on staged bytes whose digest is `digest`: the checksum is
/// looked at first, the magic second.
pub open spec fn verdict(check_sum: Seq<char>, digest: Seq<u8>, bytes: Seq<u8>) -> Result<
    (),
    IntegrityFault,
> {
    if check_sum != hex_lower(digest) {
        Err(IntegrityFault::ChecksumMismatch)
    } else if !has_wasm_magic(bytes) {
        Err(IntegrityFault::BadMagic)
    } else {
        Ok(())
    }
}

/// Judges staged bytes against a digest that was computed for them.
pub fn verify_with_digest(bytes: &[u8], digest: &[u8; 16], check_sum: &str) -> (r: Result<
    (),
    IntegrityFault,
>)
    ensures
        r == verdict(check_sum@, digest@, bytes@),
{
    if !checksum_matches(check_sum, digest) {
        Err(IntegrityFault::ChecksumMismatch)
    } else if !is_wasm_file(bytes) {
        Err(IntegrityFault::BadMagic)
    } else {
        Ok(())
    }
}

/// Verifies a staged artifact. It passes if and only if `check_sum` is the
/// MD5 digest of `bytes` in lower-case hexadecimal and `bytes` begins with the
/// WebAssembly magic.
pub fn verify(bytes: &[u8], check_sum: &str) -> (r: Result<(), IntegrityFault>)
    ensures
        r == verdict(check_sum@, md5_digest(bytes@), bytes@),
        r is Ok <==> checksum_holds(check_sum@, bytes@) && has_wasm_magic(bytes@),
{
    let digest = md5_compute(bytes);
    verify_with_digest(bytes, &digest, check_sum)
}

} // verus!
