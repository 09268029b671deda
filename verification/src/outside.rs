//! Trusted declarations for the outside crates the library computes with:
//! random bytes, SHA-256, base64, identifiers and the platform data
//! directory. Each wrapper holds one outside call; its contract is what
//! that crate's documentation promises, nothing more.

use vstd::prelude::*;
use sha2::Digest;

verus! {

/// The SHA-256 digest of a byte sequence.
pub uninterp spec fn sha256_of(data: Seq<u8>) -> Seq<u8>;

/// URL-safe base64 without padding, as base64's `URL_SAFE_NO_PAD` engine writes it.
pub uninterp spec fn b64url_nopad_of(data: Seq<u8>) -> Seq<char>;

/// URL-safe base64 decoding with padding accepted, as base64's `URL_SAFE` engine reads it.
pub uninterp spec fn b64url_decode_of(text: Seq<char>) -> Option<Seq<u8>>;

/// The `application/x-www-form-urlencoded` encoding of a string's UTF-8 bytes.
pub uninterp spec fn urlencode_of(text: Seq<char>) -> Seq<char>;

/// Relies on rand::fill with the thread-local generator, a cryptographically
/// secure source. Nothing is assumed of the bytes beyond their count.
#[verifier::external_body]
pub fn random_bytes(n: usize) -> (r: Vec<u8>)
    ensures
        r@.len() == n,
{
    let mut bytes = vec![0u8; n];
    rand::fill(&mut bytes[..]);
    bytes
}

/// Relies on sha2::Sha256::digest: a pure function of the input bytes
/// whose output is 32 bytes long.
#[verifier::external_body]
pub fn sha256(data: &[u8]) -> (r: Vec<u8>)
    ensures
        r@ == sha256_of(data@),
        r@.len() == 32,
{
    sha2::Sha256::digest(data).to_vec()
}

/// Relies on base64's `URL_SAFE_NO_PAD` engine: encoding is a pure function
/// of the input bytes.
#[verifier::external_body]
pub fn b64url_nopad(data: &[u8]) -> (r: String)
    ensures
        r@ == b64url_nopad_of(data@),
{
    base64::Engine::encode(&base64::engine::general_purpose::URL_SAFE_NO_PAD, data)
}

/// Relies on base64's `URL_SAFE` engine: decoding is a pure function of the
/// input text, and fails exactly on text that is not padded URL-safe base64.
#[verifier::external_body]
pub fn b64url_decode(text: &str) -> (r: Option<Vec<u8>>)
    ensures
        match r {
            Some(v) => b64url_decode_of(text@) == Some(v@),
            None => b64url_decode_of(text@) is None,
        },
{
    base64::Engine::decode(&base64::engine::general_purpose::URL_SAFE, text.as_bytes()).ok()
}

/// Relies on url::form_urlencoded::byte_serialize, the encoder the url crate
/// itself uses for query pairs: a pure function of the input string.
#[verifier::external_body]
pub fn urlencode(text: &str) -> (r: String)
    ensures
        r@ == urlencode_of(text@),
{
    url::form_urlencoded::byte_serialize(text.as_bytes()).collect()
}

/// Relies on uuid::Uuid::new_v4: a random identifier. Only the hyphenated
/// text length, 36, is documented and assumed.
#[verifier::external_body]
pub fn new_uuid() -> (r: String)
    ensures
        r@.len() == 36,
{
    uuid::Uuid::new_v4().to_string()
}

/// Relies on dirs::data_local_dir: the platform's local-data directory,
/// if the platform reports one. Nothing is assumed of the text.
#[verifier::external_body]
pub fn data_local_dir() -> (r: Option<String>) {
    dirs::data_local_dir().map(|p| p.to_string_lossy().into_owned())
}

/// Relies on dirs::home_dir: the user's home directory, if the platform
/// reports one. Nothing is assumed of the text.
#[verifier::external_body]
pub fn home_dir() -> (r: Option<String>) {
    dirs::home_dir().map(|p| p.to_string_lossy().into_owned())
}

} // verus!
