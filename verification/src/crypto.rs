use vstd::prelude::*;

use crate::bytes::BANG;
use crate::bytes::DOT;
use crate::bytes::no_dot;

verus! {

/// The HMAC-SHA256 digest of `msg` under the key `key`. The digest is a
/// function of the key and the message alone; its 32 bytes are otherwise
/// left unspecified here, since nothing in this crate depends on how the
/// compression rounds work.
pub uninterp spec fn hmac_sha256_of(key: Seq<u8>, msg: Seq<u8>) -> Seq<u8>;

/// The base64 encoding of `data` in the standard alphabet of RFC 4648,
/// with `=` padding. A function of the input bytes alone.
pub uninterp spec fn base64_of(data: Seq<u8>) -> Seq<u8>;

/// Holds of exactly the bytes a standard base64 encoder can emit:
/// `A`-`Z`, `a`-`z`, `0`-`9`, `+`, `/`, and the padding byte `=`.
/// Neither `.` (46) nor `!` (33) is among them, which is what keeps the
/// signature and message portions of a token separable.
pub open spec fn is_base64_byte(b: u8) -> bool {
    (65 <= b <= 90) || (97 <= b <= 122) || (48 <= b <= 57) || b == 43 || b == 47 || b == 61
}

/// Holds when every byte of `s` could have come out of the standard base64
/// encoder.
pub open spec fn all_base64_bytes(s: Seq<u8>) -> bool {
    forall|i: int| 0 <= i < s.len() ==> is_base64_byte(#[trigger] s[i])
}

/// A base64 string never holds the separators this crate splices tokens
/// with.
pub proof fn lemma_base64_no_separators(s: Seq<u8>)
    requires
        all_base64_bytes(s),
    ensures
        no_dot(s),
        forall|i: int| 0 <= i < s.len() ==> s[i] != BANG,
{
    assert forall|i: int| 0 <= i < s.len() implies s[i] != DOT && s[i] != BANG by {
        assert(is_base64_byte(s[i]));
    }
}

/// Relies on `hmac::Hmac<sha2::Sha256>` for the keyed digest. Its
/// `new_from_slice` accepts keys of any length and never fails (long keys
/// are first hashed, short ones padded), `update` absorbs the message, and
/// `finalize` yields the 32-byte SHA-256 digest, a function of key and
/// message alone.
#[verifier::external_body]
pub(crate) fn hmac_sha256(key: &[u8], msg: &[u8]) -> (r: Vec<u8>)
    ensures
        r@ == hmac_sha256_of(key@, msg@),
        r@.len() == 32,
{
    let mut mac = <hmac::Hmac<sha2::Sha256> as hmac::KeyInit>::new_from_slice(key)
        .expect("HMAC accepts keys of any length");
    hmac::Mac::update(&mut mac, msg);
    hmac::Mac::finalize(mac).into_bytes().to_vec()
}

/// Relies on `base64::Engine::encode` with the `STANDARD` engine: the
/// result is the RFC 4648 standard-alphabet encoding with `=` padding, a
/// function of the input alone, four output bytes for every started group
/// of three input bytes, all drawn from the standard alphabet.
#[verifier::external_body]
pub(crate) fn base64_encode(data: &[u8]) -> (r: Vec<u8>)
    ensures
        r@ == base64_of(data@),
        r@.len() == 4 * ((data@.len() + 2) / 3),
        all_base64_bytes(r@),
{
    base64::Engine::encode(&base64::prelude::BASE64_STANDARD, data).into_bytes()
}

/// Relies on `rand::fill` with the thread-local CSPRNG: it fills the whole
/// buffer, so the result is 64 bytes. Nothing else can be promised of
/// random output.
#[verifier::external_body]
pub(crate) fn random_bytes_64() -> (r: Vec<u8>)
    ensures
        r@.len() == 64,
{
    let mut buf = [0u8; 64];
    rand::fill(&mut buf[..]);
    buf.to_vec()
}

/// Relies on `rand::random::<i128>` with the thread-local CSPRNG. Nothing
/// can be promised of a random value.
#[verifier::external_body]
pub(crate) fn random_i128() -> i128 {
    rand::random::<i128>()
}

/// The signature of `msg` under `secret`: the base64 rendering of the
/// HMAC-SHA256 digest.
pub open spec fn spec_signature(secret: Seq<u8>, msg: Seq<u8>) -> Seq<u8> {
    base64_of(hmac_sha256_of(secret, msg))
}

/// Computes the base64-rendered HMAC-SHA256 signature of `message` under
/// `secret`. Any secret is accepted, the empty one too; the result is
/// always free of separator bytes.
pub fn sign_and_encode(secret: &[u8], message: &[u8]) -> (r: Vec<u8>)
    ensures
        r@ == spec_signature(secret@, message@),
        all_base64_bytes(r@),
{
    let digest = hmac_sha256(secret, message);
    base64_encode(digest.as_slice())
}

} // verus!
