//! Text encodings the sync format uses: base64 for binary data (the `base64`
//! crate's standard engine) and the hyphenated form of UUIDs (the `uuid` crate).
use vstd::prelude::*;
use base64::engine::general_purpose::STANDARD;
use base64::Engine;
use crate::sync::cloud_service::hex_digit;

verus! {

/// What `base64`'s standard engine (standard alphabet, with padding) produces for `bytes`.
pub uninterp spec fn base64_standard(bytes: Seq<u8>) -> Seq<char>;

/// What `base64`'s standard engine decodes `text` to, or `None` where it rejects it.
pub uninterp spec fn base64_standard_decoded(text: Seq<char>) -> Option<Seq<u8>>;

/// The last `count` hexadecimal digits of `n`, most significant first, in lower case.
pub open spec fn hex_digits(n: nat, count: nat) -> Seq<char>
    decreases count,
{
    if count == 0 {
        Seq::empty()
    } else {
        hex_digits(n / 16, (count - 1) as nat).push(hex_digit(n % 16))
    }
}

/// The hyphenated lower-case text of the UUID whose 128-bit value is `id`:
/// its 32 hexadecimal digits in groups of 8, 4, 4, 4 and 12, joined by hyphens.
pub open spec fn uuid_text(id: u128) -> Seq<char> {
    let h = hex_digits(id as nat, 32);
    h.subrange(0, 8) + "-"@ + h.subrange(8, 12) + "-"@ + h.subrange(12, 16) + "-"@ + h.subrange(16, 20) + "-"@
        + h.subrange(20, 32)
}

/// The 128-bit value of the UUID that `uuid::Uuid::parse_str` reads from `text`,
/// or `None` where it rejects the text.
pub uninterp spec fn uuid_parsed(text: Seq<char>) -> Option<u128>;

/// Calls `Engine::encode` of `base64::engine::general_purpose::STANDARD`.
/// Claimed: the result is the named encoding of the bytes. The call panics only
/// when the encoded length overflows `usize`, which no slice held in memory
/// reaches, as a slice never exceeds `isize::MAX` bytes.
#[verifier::external_body]
pub(crate) fn base64_encode(bytes: &[u8]) -> (r: String)
    ensures
        r@ == base64_standard(bytes@),
{
    STANDARD.encode(bytes)
}

/// Calls `Engine::decode` of `base64::engine::general_purpose::STANDARD`; an
/// error is turned into its message. Claimed: the result is the named decoding,
/// and a text that the same engine produced from some bytes decodes back to
/// exactly those bytes. The error message is not described.
#[verifier::external_body]
pub(crate) fn base64_decode(text: &str) -> (r: Result<Vec<u8>, String>)
    ensures
        r is Ok <==> base64_standard_decoded(text@) is Some,
        r is Ok ==> base64_standard_decoded(text@) == Some(r->Ok_0@),
        forall|b: Seq<u8>| text@ == #[trigger] base64_standard(b) ==> r is Ok && r->Ok_0@ == b,
{
    match STANDARD.decode(text) {
        Ok(v) => Ok(v),
        Err(e) => Err(e.to_string()),
    }
}

/// Calls `uuid::Uuid::from_u128` and formats the UUID with `Display`, which
/// writes the hyphenated lower-case form. Claimed: the result is that text,
/// as `uuid_text` spells it out.
#[verifier::external_body]
pub(crate) fn uuid_to_string(id: u128) -> (r: String)
    ensures
        r@ == uuid_text(id),
{
    uuid::Uuid::from_u128(id).to_string()
}

/// Calls `uuid::Uuid::parse_str` and takes the UUID's 128-bit value with
/// `as_u128`; an error is turned into its message. Claimed: the result is the
/// named parse, and the hyphenated text of a UUID parses back to that UUID.
/// The error message is not described.
#[verifier::external_body]
pub(crate) fn uuid_parse(text: &str) -> (r: Result<u128, String>)
    ensures
        r is Ok <==> uuid_parsed(text@) is Some,
        r is Ok ==> uuid_parsed(text@) == Some(r->Ok_0),
        forall|id: u128| text@ == #[trigger] uuid_text(id) ==> r is Ok && r->Ok_0 == id,
{
    match uuid::Uuid::parse_str(text) {
        Ok(u) => Ok(u.as_u128()),
        Err(e) => Err(e.to_string()),
    }
}

} // verus!
