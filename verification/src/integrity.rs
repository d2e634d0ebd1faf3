//! Content integrity: hexadecimal hash encodings and the content digest.
use vstd::prelude::*;
use sha2::Digest;

verus! {

/// Whether `b` is the ASCII code of a hexadecimal digit.
pub open spec fn is_hex_digit(b: u8) -> bool {
    (0x30 <= b && b <= 0x39) || (0x61 <= b && b <= 0x66) || (0x41 <= b && b <= 0x46)
}

/// The value an ASCII hexadecimal digit denotes.
pub open spec fn hex_digit_value(b: u8) -> int {
    if 0x30 <= b && b <= 0x39 {
        b - 0x30
    } else if 0x61 <= b && b <= 0x66 {
        b - 0x61 + 10
    } else {
        b - 0x41 + 10
    }
}

/// Whether `s` is a valid hexadecimal encoding: even length, hexadecimal
/// digits of either case only.
pub open spec fn is_hex_encoding(s: Seq<u8>) -> bool {
    s.len() % 2 == 0 && forall|i: int| 0 <= i < s.len() ==> is_hex_digit(#[trigger] s[i])
}

/// The bytes a hexadecimal encoding denotes: two digits to a byte, high
/// nibble first.
pub open spec fn hex_decoded(s: Seq<u8>) -> Seq<u8> {
    Seq::new(
        (s.len() / 2) as nat,
        |i: int| (hex_digit_value(s[2 * i]) * 16 + hex_digit_value(s[2 * i + 1])) as u8,
    )
}

/// Relies on hex::decode: it accepts exactly the even-length strings of
/// hexadecimal digits (either case), and decodes two digits to a byte,
/// high nibble first.
#[verifier::external_body]
pub(crate) fn hex_decode(s: &[u8]) -> (r: Result<Vec<u8>, ()>)
    ensures
        r is Ok <==> is_hex_encoding(s@),
        r matches Ok(v) ==> v@ == hex_decoded(s@),
{
    match hex::decode(s) {
        Ok(v) => Ok(v),
        Err(_) => Err(()),
    }
}

/// Relies on hex::encode: two lowercase hexadecimal digits for each byte,
/// high nibble first.
#[verifier::external_body]
pub(crate) fn hex_encode(b: &[u8]) -> (r: String)
    ensures
        vstd::utf8::encode_utf8(r@).len() == 2 * b@.len(),
        is_hex_encoding(vstd::utf8::encode_utf8(r@)),
        hex_decoded(vstd::utf8::encode_utf8(r@)) == b@,
        forall|i: int|
            0 <= i < vstd::utf8::encode_utf8(r@).len() ==> !(0x41
                <= #[trigger] vstd::utf8::encode_utf8(r@)[i] && vstd::utf8::encode_utf8(r@)[i]
                <= 0x46),
{
    hex::encode(b)
}

/// The SHA-256 digest of a byte sequence, named: the digest is a function
/// of the bytes alone.
pub uninterp spec fn sha256_of(b: Seq<u8>) -> Seq<u8>;

/// Relies on sha2::Sha256: the digest depends on the bytes alone and is
/// 32 bytes long.
#[verifier::external_body]
pub(crate) fn sha256(b: &[u8]) -> (r: Vec<u8>)
    ensures
        r@ == sha256_of(b@),
        r@.len() == 32,
{
    sha2::Sha256::digest(b).to_vec()
}

/// Byte-for-byte equality of two byte strings.
pub fn bytes_eq(a: &[u8], b: &[u8]) -> (r: bool)
    ensures
        r == (a@ == b@),
{
    if a.len() != b.len() {
        proof {
            assert(a@.len() != b@.len());
        }
        return false;
    }
    let mut k: usize = 0;
    while k < a.len()
        invariant
            0 <= k <= a@.len(),
            a@.len() == b@.len(),
            forall|j: int| 0 <= j < k ==> a@[j] == b@[j],
        decreases a@.len() - k,
    {
        if a[k] != b[k] {
            return false;
        }
        k = k + 1;
    }
    proof {
        assert(a@ =~= b@);
    }
    true
}

} // verus!
