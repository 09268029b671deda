//! Trusted declarations for serde_json. Each reader takes the raw text or
//! bytes and hands back the plain fields this library's protocols read;
//! every result is a pure function of the input, so each carries a name
//! the callers' contracts are exact over.

use vstd::prelude::*;

verus! {

/// Whether serde_json::from_str accepts the text as JSON.
pub uninterp spec fn json_text_ok(text: Seq<char>) -> bool;

/// Whether serde_json::from_slice accepts the bytes as JSON.
pub uninterp spec fn json_bytes_ok(data: Seq<u8>) -> bool;

/// The token response's three fields: the `access_token`, `id_token` and
/// `refresh_token` string values of the parsed body, each absent when the
/// key is missing or not a string.
pub uninterp spec fn token_fields_of(text: Seq<char>) -> (
    Option<Seq<char>>,
    Option<Seq<char>>,
    Option<Seq<char>>,
);

/// The usage response's fields: the `plan_type` string, and under
/// `rate_limit` the `primary_window` and `secondary_window` objects, each
/// absent when missing and otherwise carrying the decimal text of
/// `used_percent` and the integers `limit_window_seconds` and `reset_at`.
pub uninterp spec fn quota_fields_of(text: Seq<char>) -> (
    Option<Seq<char>>,
    Option<(Option<Seq<char>>, Option<i64>, Option<i64>)>,
    Option<(Option<Seq<char>>, Option<i64>, Option<i64>)>,
);

/// The identity claims of a decoded token payload: whether the provider
/// claim holds `chatgpt_account_id` and its string value, the same for
/// `account_id`, and the `sub` and `email` string values.
pub uninterp spec fn identity_claims_of(data: Seq<u8>) -> (
    (bool, Option<Seq<char>>),
    (bool, Option<Seq<char>>),
    Option<Seq<char>>,
    Option<Seq<char>>,
);

/// Whether an optional string holds exactly an optional text.
pub open spec fn text_opt_is(o: Option<String>, s: Option<Seq<char>>) -> bool {
    match o {
        Some(v) => s == Some(v@),
        None => s is None,
    }
}

/// Whether an optional window tuple holds exactly its named counterpart.
pub open spec fn window_opt_is(
    o: Option<(Option<String>, Option<i64>, Option<i64>)>,
    s: Option<(Option<Seq<char>>, Option<i64>, Option<i64>)>,
) -> bool {
    match o {
        Some(w) => (match s {
            Some(t) => text_opt_is(w.0, t.0) && w.1 == t.1 && w.2 == t.2,
            None => false,
        }),
        None => s is None,
    }
}

/// Relies on serde_json::from_str and Value::get/as_str: the three token
/// fields are a pure function of the body text; `Err` carries the
/// parser's message exactly when the text is not JSON.
#[verifier::external_body]
pub fn read_token_fields(body: &str) -> (r: Result<
    (Option<String>, Option<String>, Option<String>),
    String,
>)
    ensures
        (r is Ok) == json_text_ok(body@),
        r matches Ok(f) ==> text_opt_is(f.0, token_fields_of(body@).0) && text_opt_is(
            f.1,
            token_fields_of(body@).1,
        ) && text_opt_is(f.2, token_fields_of(body@).2),
{
    match serde_json::from_str::<serde_json::Value>(body) {
        Err(e) => Err(e.to_string()),
        Ok(p) => Ok((
            p.get("access_token").and_then(|v| v.as_str()).map(|s| s.to_owned()),
            p.get("id_token").and_then(|v| v.as_str()).map(|s| s.to_owned()),
            p.get("refresh_token").and_then(|v| v.as_str()).map(|s| s.to_owned()),
        )),
    }
}

/// Relies on serde_json::from_str and Value::get/as_str: the plan name
/// is a pure function of the body text; `Err` carries the parser's
/// message exactly when the text is not JSON.
#[verifier::external_body]
pub fn read_quota_plan(body: &str) -> (r: Result<Option<String>, String>)
    ensures
        (r is Ok) == json_text_ok(body@),
        r matches Ok(f) ==> text_opt_is(f, quota_fields_of(body@).0),
{
    match serde_json::from_str::<serde_json::Value>(body) {
        Err(e) => Err(e.to_string()),
        Ok(p) => Ok(p.get("plan_type").and_then(|x| x.as_str()).map(|s| s.to_owned())),
    }
}

/// Relies on serde_json::from_str, Value::get/as_i64 and the display of
/// JSON numbers: the named rate-limit window is a pure function of the
/// body text.
#[verifier::external_body]
pub fn read_quota_window(body: &str, primary: bool) -> (r: Option<
    (Option<String>, Option<i64>, Option<i64>),
>)
    ensures
        json_text_ok(body@) ==> window_opt_is(
            r,
            if primary {
                quota_fields_of(body@).1
            } else {
                quota_fields_of(body@).2
            },
        ),
        !json_text_ok(body@) ==> r is None,
{
    let key = if primary { "primary_window" } else { "secondary_window" };
    let p: serde_json::Value = serde_json::from_str(body).ok()?;
    p.get("rate_limit").and_then(|rl| rl.get(key)).map(|v| (
        v.get("used_percent").and_then(|x| match x {
            serde_json::Value::Number(n) => Some(n.to_string()),
            _ => None,
        }),
        v.get("limit_window_seconds").and_then(|x| x.as_i64()),
        v.get("reset_at").and_then(|x| x.as_i64()),
    ))
}

/// Relies on serde_json::from_slice and Value::get/as_str over the
/// decoded token payload: the identity claims are a pure function of the
/// bytes; `None` exactly when the bytes are not JSON.
#[verifier::external_body]
pub fn read_identity_claims(data: &[u8]) -> (r: Option<
    ((bool, Option<String>), (bool, Option<String>), Option<String>, Option<String>),
>)
    ensures
        (r is Some) == json_bytes_ok(data@),
        r matches Some(c) ==> ({
            &&& c.0.0 == identity_claims_of(data@).0.0
            &&& text_opt_is(c.0.1, identity_claims_of(data@).0.1)
            &&& c.1.0 == identity_claims_of(data@).1.0
            &&& text_opt_is(c.1.1, identity_claims_of(data@).1.1)
            &&& text_opt_is(c.2, identity_claims_of(data@).2)
            &&& text_opt_is(c.3, identity_claims_of(data@).3)
        }),
{
    let p: serde_json::Value = match serde_json::from_slice(data) {
        Ok(v) => v,
        Err(_) => return None,
    };
    let read = |v: Option<&serde_json::Value>| match v {
        Some(x) => (true, x.as_str().map(|s| s.to_owned())),
        None => (false, None),
    };
    let auth = p.get("https://api.openai.com/auth");
    Some((
        read(auth.and_then(|a| a.get("chatgpt_account_id"))),
        read(auth.and_then(|a| a.get("account_id"))),
        p.get("sub").and_then(|v| v.as_str()).map(|s| s.to_owned()),
        p.get("email").and_then(|v| v.as_str()).map(|s| s.to_owned()),
    ))
}

} // verus!
