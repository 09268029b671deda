//! PKCE verifier/challenge generation and the provider's authorization URL.

use vstd::prelude::*;
use vstd::string::*;
use crate::outside::{
    b64url_nopad, b64url_nopad_of, random_bytes, sha256, sha256_of, urlencode, urlencode_of,
};

verus! {

pub fn oauth_client_id() -> (r: &'static str)
    ensures
        r@ == "app_EMoamEEZ73f0CkXaXp7hrann"@,
{
    "app_EMoamEEZ73f0CkXaXp7hrann"
}

pub fn oauth_issuer() -> (r: &'static str)
    ensures
        r@ == "https://auth.openai.com"@,
{
    "https://auth.openai.com"
}

pub fn oauth_scope() -> (r: &'static str)
    ensures
        r@ == "openid profile email offline_access"@,
{
    "openid profile email offline_access"
}

pub fn oauth_redirect_uri() -> (r: &'static str)
    ensures
        r@ == "http://localhost:1455/auth/callback"@,
{
    "http://localhost:1455/auth/callback"
}

pub fn oauth_originator() -> (r: &'static str)
    ensures
        r@ == "codex_cli_rs"@,
{
    "codex_cli_rs"
}

pub fn callback_addr() -> (r: &'static str)
    ensures
        r@ == "127.0.0.1:1455"@,
{
    "127.0.0.1:1455"
}

pub fn callback_path() -> (r: &'static str)
    ensures
        r@ == "/auth/callback"@,
{
    "/auth/callback"
}

/// Fresh random bytes, URL-safe-no-pad encoded.
pub fn random_urlsafe(byte_len: usize) -> (r: String)
    ensures
        exists|b: Seq<u8>| b.len() == byte_len && r@ == b64url_nopad_of(b),
{
    let bytes = random_bytes(byte_len);
    let encoded = b64url_nopad(bytes.as_slice());
    proof {
        assert(bytes@.len() == byte_len && encoded@ == b64url_nopad_of(bytes@));
    }
    encoded
}

/// A PKCE pair: 64 random bytes encoded as the verifier, and the S256
/// challenge, the SHA-256 digest of the verifier's UTF-8 bytes,
/// URL-safe-no-pad encoded.
pub fn build_pkce() -> (r: (String, String))
    ensures
        exists|b: Seq<u8>| b.len() == 64 && r.0@ == b64url_nopad_of(b),
        r.1@ == b64url_nopad_of(sha256_of(vstd::utf8::encode_utf8(r.0@))),
{
    let verifier = random_urlsafe(64);
    let digest = sha256(verifier.as_str().as_bytes());
    let challenge = b64url_nopad(digest.as_slice());
    (verifier, challenge)
}

/// The authorization URL: the issuer's `/oauth/authorize` endpoint with the
/// fixed client id, redirect URI, scope and provider flags, and the given
/// state and challenge, every value form-urlencoded.
pub open spec fn authorize_url_of(state: Seq<char>, challenge: Seq<char>) -> Seq<char> {
    "https://auth.openai.com/oauth/authorize?response_type="@ + urlencode_of("code"@)
        + "&client_id="@ + urlencode_of("app_EMoamEEZ73f0CkXaXp7hrann"@) + "&redirect_uri="@
        + urlencode_of("http://localhost:1455/auth/callback"@) + "&scope="@ + urlencode_of(
        "openid profile email offline_access"@,
    ) + "&state="@ + urlencode_of(state) + "&code_challenge="@ + urlencode_of(challenge)
        + "&code_challenge_method="@ + urlencode_of("S256"@) + "&originator="@ + urlencode_of(
        "codex_cli_rs"@,
    ) + "&id_token_add_organizations="@ + urlencode_of("true"@) + "&codex_cli_simplified_flow="@
        + urlencode_of("true"@)
}

/// Deterministic construction of the provider's authorization URL.
pub fn build_authorize_url(state: &str, challenge: &str) -> (r: Result<String, String>)
    ensures
        r is Ok,
        r matches Ok(u) ==> u@ == authorize_url_of(state@, challenge@),
{
    let mut out = String::from_str("https://auth.openai.com/oauth/authorize?response_type=");
    out.append(urlencode("code").as_str());
    out.append("&client_id=");
    out.append(urlencode(oauth_client_id()).as_str());
    out.append("&redirect_uri=");
    out.append(urlencode(oauth_redirect_uri()).as_str());
    out.append("&scope=");
    out.append(urlencode(oauth_scope()).as_str());
    out.append("&state=");
    out.append(urlencode(state).as_str());
    out.append("&code_challenge=");
    out.append(urlencode(challenge).as_str());
    out.append("&code_challenge_method=");
    out.append(urlencode("S256").as_str());
    out.append("&originator=");
    out.append(urlencode(oauth_originator()).as_str());
    out.append("&id_token_add_organizations=");
    out.append(urlencode("true").as_str());
    out.append("&codex_cli_simplified_flow=");
    out.append(urlencode("true").as_str());
    Ok(out)
}

} // verus!
