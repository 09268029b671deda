//! Identity extraction from an issued identity token: the unsigned payload
//! segment is base64url-decoded and its claims read. No signature is
//! checked; the token comes from the trusted first-party endpoint over TLS.

use vstd::prelude::*;
use vstd::string::*;
use crate::jsonx::{identity_claims_of, json_bytes_ok, read_identity_claims, text_opt_is};
use crate::outside::{b64url_decode, b64url_decode_of};
use crate::strutil::{find_char, first_idx};

verus! {

/// The payload segment: the text between the first and the second `.`,
/// or up to the end when only one `.` occurs; absent without any `.`.
pub open spec fn spec_payload_segment(token: Seq<char>) -> Option<Seq<char>> {
    let d1 = first_idx(token, '.');
    if d1 < 0 {
        None
    } else {
        let rest = token.skip(d1 + 1);
        let d2 = first_idx(rest, '.');
        if d2 < 0 {
            Some(rest)
        } else {
            Some(rest.take(d2))
        }
    }
}

/// The middle segment of a dot-separated token.
pub fn payload_segment(token: &str) -> (r: Option<String>)
    ensures
        match r {
            Some(s) => spec_payload_segment(token@) == Some(s@),
            None => spec_payload_segment(token@) is None,
        },
{
    let n: usize = token.unicode_len();
    let d1 = match find_char(token, '.') {
        Some(i) => i,
        None => {
            return None;
        },
    };
    let rest = token.substring_char(d1 + 1, n);
    proof {
        assert(rest@ =~= token@.skip(d1 + 1));
    }
    match find_char(rest, '.') {
        Some(d2) => {
            let seg = rest.substring_char(0, d2);
            proof {
                assert(seg@ =~= rest@.take(d2 as int));
            }
            Some(String::from_str(seg))
        },
        None => Some(String::from_str(rest)),
    }
}

/// The segment padded with `=` to a length divisible by four.
pub open spec fn padded_segment(seg: Seq<char>) -> Seq<char> {
    if seg.len() % 4 == 0 {
        seg
    } else if seg.len() % 4 == 1 {
        seg + seq!['=', '=', '=']
    } else if seg.len() % 4 == 2 {
        seg + seq!['=', '=']
    } else {
        seg + seq!['=']
    }
}

/// The payload bytes of a token: the padded middle segment, base64url
/// decoded. Absent exactly when there is no segment or it does not decode.
pub fn decode_jwt_payload(token: &str) -> (r: Option<Vec<u8>>)
    ensures
        match spec_payload_segment(token@) {
            None => r is None,
            Some(seg) => (match b64url_decode_of(padded_segment(seg)) {
                Some(b) => (r matches Some(v) && v@ == b),
                None => r is None,
            }),
        },
{
    let seg = match payload_segment(token) {
        Some(s) => s,
        None => {
            return None;
        },
    };
    let mut padded = seg;
    let rem: usize = padded.as_str().unicode_len() % 4;
    proof {
        reveal_strlit("=");
        reveal_strlit("==");
        reveal_strlit("===");
        assert("="@ =~= seq!['=']);
        assert("=="@ =~= seq!['=', '=']);
        assert("==="@ =~= seq!['=', '=', '=']);
    }
    if rem == 1 {
        padded.append("===");
    } else if rem == 2 {
        padded.append("==");
    } else if rem == 3 {
        padded.append("=");
    }
    b64url_decode(padded.as_str())
}

/// The fallback order for the provider account id: the provider claim's
/// value when it is present, else the standard subject claim; absent,
/// not an error, when neither is.
pub fn fallback_id(claim: Option<String>, sub: Option<String>) -> (r: Option<String>)
    ensures
        claim is Some ==> r == claim,
        claim is None ==> r == sub,
        r is None <==> claim is None && sub is None,
{
    match claim {
        Some(v) => Some(v),
        None => sub,
    }
}

/// The provider account id the claims name: the provider claim's
/// `chatgpt_account_id` when that key is present (its string value, which
/// may be absent), else its `account_id` when present, else the `sub`
/// claim.
pub open spec fn spec_claim_choice(
    c: ((bool, Option<Seq<char>>), (bool, Option<Seq<char>>), Option<Seq<char>>, Option<Seq<char>>),
) -> Option<Seq<char>> {
    let picked = if c.0.0 {
        c.0.1
    } else if c.1.0 {
        c.1.1
    } else {
        None
    };
    match picked {
        Some(v) => Some(v),
        None => c.2,
    }
}

/// The provider account id a whole token carries, through decode and read.
pub open spec fn spec_extract_account_id(token: Seq<char>) -> Option<Seq<char>> {
    match spec_payload_segment(token) {
        None => None,
        Some(seg) => (match b64url_decode_of(padded_segment(seg)) {
            None => None,
            Some(b) => if !json_bytes_ok(b) {
                None
            } else {
                spec_claim_choice(identity_claims_of(b))
            },
        }),
    }
}

/// The email a whole token carries, through decode and read.
pub open spec fn spec_extract_email(token: Seq<char>) -> Option<Seq<char>> {
    match spec_payload_segment(token) {
        None => None,
        Some(seg) => (match b64url_decode_of(padded_segment(seg)) {
            None => None,
            Some(b) => if !json_bytes_ok(b) {
                None
            } else {
                identity_claims_of(b).3
            },
        }),
    }
}

/// The provider account id carried by an identity token: the nested
/// provider claim's `chatgpt_account_id`, else its `account_id`, read as
/// a string, else the token's `sub` claim; absent, not an error, when the
/// token does not decode or holds none of them.
pub fn extract_account_id(id_token: &str) -> (r: Option<String>)
    ensures
        text_opt_is(r, spec_extract_account_id(id_token@)),
{
    let payload = match decode_jwt_payload(id_token) {
        Some(p) => p,
        None => {
            return None;
        },
    };
    let claims = match read_identity_claims(payload.as_slice()) {
        Some(c) => c,
        None => {
            return None;
        },
    };
    let (chatgpt, plain, sub, _email) = claims;
    let picked = if chatgpt.0 {
        chatgpt.1
    } else if plain.0 {
        plain.1
    } else {
        None
    };
    fallback_id(picked, sub)
}

/// The top-level `email` claim of an identity token, when it is a string.
pub fn extract_email(id_token: &str) -> (r: Option<String>)
    ensures
        text_opt_is(r, spec_extract_email(id_token@)),
{
    let payload = match decode_jwt_payload(id_token) {
        Some(p) => p,
        None => {
            return None;
        },
    };
    match read_identity_claims(payload.as_slice()) {
        Some(c) => c.3,
        None => None,
    }
}

} // verus!
