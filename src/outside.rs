use vstd::prelude::*;
use sha2::Digest;

verus! {

/// The text that `String::from_utf8_lossy` makes of some bytes.
pub uninterp spec fn utf8_lossy(b: Seq<u8>) -> Seq<char>;

/// The whitespace-separated words of a text, as `str::split_whitespace` yields them.
pub uninterp spec fn words_of(s: Seq<char>) -> Seq<Seq<char>>;

/// The bytes that standard base64 with padding decodes a text to, if it is valid.
pub uninterp spec fn base64_decoded(s: Seq<u8>) -> Option<Seq<u8>>;

/// The standard base64 text, with padding, of some bytes, as ASCII bytes.
pub uninterp spec fn base64_text(b: Seq<u8>) -> Seq<u8>;

/// The SHA-256 digest of some bytes.
pub uninterp spec fn sha256_of(b: Seq<u8>) -> Seq<u8>;

/// The SHA-384 digest of some bytes.
pub uninterp spec fn sha384_of(b: Seq<u8>) -> Seq<u8>;

/// The SHA-512 digest of some bytes.
pub uninterp spec fn sha512_of(b: Seq<u8>) -> Seq<u8>;

/// Whether every byte is ASCII.
pub open spec fn all_ascii(b: Seq<u8>) -> bool {
    forall|i: int| 0 <= i < b.len() ==> b[i] < 128
}

/// Relies on `String::from_utf8_lossy`: valid UTF-8, such as ASCII, is kept
/// character for character.
#[verifier::external_body]
pub(crate) fn text_of(b: &[u8]) -> (r: String)
    ensures
        r@ == utf8_lossy(b@),
        all_ascii(b@) ==> r@ == b@.map_values(|c: u8| c as char),
{
    String::from_utf8_lossy(b).into_owned()
}

/// Relies on `str::split_whitespace`: the words of the text, in order.
#[verifier::external_body]
pub(crate) fn split_words(s: &str) -> (r: Vec<String>)
    ensures
        r@.len() == words_of(s@).len(),
        forall|i: int| 0 <= i < r@.len() ==> #[trigger] r@[i]@ == words_of(s@)[i],
{
    s.split_whitespace().map(String::from).collect()
}

/// The error that `base64::decode` reports for invalid input.
#[verifier::external_type_specification]
#[verifier::external_body]
pub struct ExDecodeError(base64::DecodeError);

/// Relies on `base64::decode`: standard alphabet with padding; an error where
/// the text is not valid base64.
#[verifier::external_body]
#[allow(deprecated)]
pub(crate) fn base64_decode(s: &[u8]) -> (r: Result<Vec<u8>, base64::DecodeError>)
    ensures
        match r {
            Ok(v) => base64_decoded(s@) == Some(v@),
            Err(_) => base64_decoded(s@) is None,
        },
{
    base64::decode(s)
}

/// Relies on `base64::encode`: standard alphabet with padding.
#[verifier::external_body]
#[allow(deprecated)]
pub(crate) fn base64_encode(b: &[u8]) -> (r: Vec<u8>)
    ensures
        r@ == base64_text(b@),
{
    base64::encode(b).into_bytes()
}

/// Relies on `sha2::Sha256::digest`: a 32-byte digest.
#[verifier::external_body]
pub(crate) fn sha256(b: &[u8]) -> (r: Vec<u8>)
    ensures
        r@ == sha256_of(b@),
        r@.len() == 32,
{
    sha2::Sha256::digest(b).to_vec()
}

/// Relies on `sha2::Sha384::digest`: a 48-byte digest.
#[verifier::external_body]
pub(crate) fn sha384(b: &[u8]) -> (r: Vec<u8>)
    ensures
        r@ == sha384_of(b@),
        r@.len() == 48,
{
    sha2::Sha384::digest(b).to_vec()
}

/// Relies on `sha2::Sha512::digest`: a 64-byte digest.
#[verifier::external_body]
pub(crate) fn sha512(b: &[u8]) -> (r: Vec<u8>)
    ensures
        r@ == sha512_of(b@),
        r@.len() == 64,
{
    sha2::Sha512::digest(b).to_vec()
}

} // verus!
