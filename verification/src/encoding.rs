//! Base64 transport encoding for keys, shared secrets, and message envelopes.
use vstd::prelude::*;

use base64::Engine;

verus! {

/// The base64 text (standard alphabet, padded) that encodes a byte sequence.
///
/// The exact alphabet and padding layout are fixed by the base64 crate's
/// `STANDARD` engine; contracts only rely on the encoding being a function of
/// the bytes alone, and on strict decoding inverting it.
pub uninterp spec fn b64_of(bytes: Seq<u8>) -> Seq<char>;

/// Relies on base64's `Engine::encode` with the `STANDARD` engine:
/// the returned text is the padded standard-alphabet encoding of `bytes`,
/// a function of `bytes` alone.
#[verifier::external_body]
pub(crate) fn b64_encode(bytes: &[u8]) -> (r: String)
    ensures
        r@ == b64_of(bytes@),
{
    base64::engine::general_purpose::STANDARD.encode(bytes)
}

#[verifier::external_type_specification]
#[verifier::external_body]
pub struct ExDecodeError(base64::DecodeError);

/// Relies on base64's `Engine::decode` with the `STANDARD` engine.
/// That engine is strict: it requires canonical padding and rejects set
/// trailing bits, so it accepts exactly the outputs of `Engine::encode` and
/// inverts them.
#[verifier::external_body]
pub(crate) fn b64_decode(text: &str) -> (r: Result<Vec<u8>, base64::DecodeError>)
    ensures
        r is Ok ==> text@ == b64_of(r->Ok_0@),
        forall|b: Seq<u8>| text@ == #[trigger] b64_of(b) ==> r is Ok && r->Ok_0@ == b,
{
    base64::engine::general_purpose::STANDARD.decode(text)
}

/// Relies on `String::from_utf8`: succeeds exactly on valid UTF-8 input, and
/// then returns the unique text whose UTF-8 encoding is that input.
#[verifier::external_body]
pub(crate) fn string_from_utf8(bytes: Vec<u8>) -> (r: Option<String>)
    ensures
        r is Some <==> vstd::utf8::valid_utf8(bytes@),
        r is Some ==> vstd::utf8::encode_utf8(r->0@) == bytes@,
{
    String::from_utf8(bytes).ok()
}

/// Copies a 32-byte vector into a fixed-size array.
pub(crate) fn bytes32_from_vec(v: &Vec<u8>) -> (r: [u8; 32])
    requires
        v@.len() == 32,
    ensures
        r@ == v@,
{
    let mut r: [u8; 32] = [0u8; 32];
    let mut i: usize = 0;
    while i < 32
        invariant
            i <= 32,
            v@.len() == 32,
            forall|j: int| 0 <= j < i ==> r@[j] == v@[j],
        decreases 32 - i,
    {
        r[i] = v[i];
        i += 1;
    }
    proof {
        assert(r@ =~= v@);
    }
    r
}

} // verus!
