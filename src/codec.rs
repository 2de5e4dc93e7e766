//! Byte encodings: base64 and SHA-256 through their crates, hexadecimal and
//! decimal text written out here.
use vstd::prelude::*;

use base64::Engine;
use sha2::Digest;

verus! {

#[verifier::external_type_specification]
#[verifier::external_body]
pub struct ExDecodeError(base64::DecodeError);

/// The padded standard base64 text of some bytes.
pub uninterp spec fn base64_encoding(b: Seq<u8>) -> Seq<char>;

/// The bytes that a text decodes to under padded standard base64, or none
/// when it is not such an encoding.
pub uninterp spec fn base64_decoding(s: Seq<char>) -> Option<Seq<u8>>;

/// The SHA-256 digest of some bytes.
pub uninterp spec fn sha256_digest(b: Seq<u8>) -> Seq<u8>;

/// Relies on base64's `Engine::encode` with the `STANDARD` engine: the
/// padded standard encoding, which depends on the bytes alone and which the
/// same engine's `decode` turns back into those bytes. It panics only when
/// the encoded length overflows `usize`.
#[verifier::external_body]
pub(crate) fn base64_encode(b: &[u8]) -> (r: String)
    requires
        b@.len() < usize::MAX / 2,
    ensures
        r@ == base64_encoding(b@),
        base64_decoding(r@) == Some(b@),
{
    base64::engine::general_purpose::STANDARD.encode(b)
}

/// Relies on base64's `Engine::decode` with the `STANDARD` engine: the
/// decoded bytes, or the reason the text is not a padded standard encoding;
/// which of the two depends on the text alone.
#[verifier::external_body]
pub(crate) fn base64_decode(s: &str) -> (r: Result<Vec<u8>, base64::DecodeError>)
    ensures
        r is Ok <==> base64_decoding(s@) is Some,
        r matches Ok(v) ==> base64_decoding(s@) == Some(v@),
{
    base64::engine::general_purpose::STANDARD.decode(s)
}

/// Relies on sha2's `Sha256::digest`: the 32-byte SHA-256 digest, which
/// depends on the bytes alone.
#[verifier::external_body]
pub(crate) fn sha256(b: &[u8]) -> (r: Vec<u8>)
    ensures
        r@ == sha256_digest(b@),
        r@.len() == 32,
{
    sha2::Sha256::digest(b).to_vec()
}

/// The lower-case hexadecimal digit of `d`, for `d < 16`.
pub open spec fn hex_digit(d: nat) -> char {
    if d < 10 {
        ((d + 48) as u8) as char
    } else {
        ((d + 87) as u8) as char
    }
}

/// Two lower-case hexadecimal digits per byte, high nibble first.
pub open spec fn hex_of(b: Seq<u8>) -> Seq<char>
    decreases b.len(),
{
    if b.len() == 0 {
        Seq::empty()
    } else {
        hex_of(b.drop_last()) + seq![
            hex_digit((b.last() / 16) as nat),
            hex_digit((b.last() % 16) as nat),
        ]
    }
}

/// The decimal digits of `n`, most significant first, without leading zeros.
pub open spec fn decimal(n: nat) -> Seq<char>
    decreases n,
{
    if n < 10 {
        seq![hex_digit(n)]
    } else {
        decimal(n / 10) + seq![hex_digit(n % 10)]
    }
}

/// The digit `d` as a one-character string.
fn digit_str(d: u8) -> (r: &'static str)
    requires
        d < 16,
    ensures
        r@ == seq![hex_digit(d as nat)],
{
    let digits = "0123456789abcdef";
    proof {
        reveal_strlit("0123456789abcdef");
    }
    let r = digits.substring_char(d as usize, d as usize + 1);
    assert(r@ =~= seq![hex_digit(d as nat)]);
    r
}

/// Writes bytes as lower-case hexadecimal, two digits per byte.
pub fn hex_lower(b: &[u8]) -> (r: String)
    ensures
        r@ == hex_of(b@),
{
    let mut r = String::new();
    let mut i: usize = 0;
    assert(b@.take(0) =~= Seq::<u8>::empty());
    while i < b.len()
        invariant
            i <= b@.len(),
            r@ == hex_of(b@.take(i as int)),
        decreases b@.len() - i,
    {
        let byte = b[i];
        r.append(digit_str(byte / 16));
        r.append(digit_str(byte % 16));
        assert(b@.take(i + 1).drop_last() =~= b@.take(i as int));
        assert(r@ =~= hex_of(b@.take(i + 1)));
        i = i + 1;
    }
    assert(b@.take(b@.len() as int) =~= b@);
    r
}

/// Writes `n` in decimal.
pub fn decimal_string(n: u64) -> (r: String)
    ensures
        r@ == decimal(n as nat),
    decreases n,
{
    if n < 10 {
        let r = String::from_str(digit_str(n as u8));
        r
    } else {
        let mut r = decimal_string(n / 10);
        r.append(digit_str((n % 10) as u8));
        r
    }
}

} // verus!
