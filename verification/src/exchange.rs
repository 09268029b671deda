//! The code-for-token exchange: the form the token endpoint is posted,
//! the reading of its response, and the recording of a successful
//! exchange in the account store.

use vstd::prelude::*;
use vstd::string::*;
use crate::data::{has_account, upsert_account, Account, AppData, QuotaInfo, Tokens};
use crate::jsonx::{json_text_ok, read_token_fields, token_fields_of};
use crate::outside::new_uuid;
use crate::strutil::{dec_str, spec_starts_with, truncate_chars, u64_to_string};

verus! {

/// The five form pairs of the token request, in order: the fixed grant
/// type and client id, the received code, the flow's PKCE verifier, and
/// the fixed redirect URI.
pub fn token_request_form(code: &str, code_verifier: &str) -> (r: Vec<(String, String)>)
    ensures
        r@.len() == 5,
        r@[0].0@ == "grant_type"@ && r@[0].1@ == "authorization_code"@,
        r@[1].0@ == "client_id"@ && r@[1].1@ == "app_EMoamEEZ73f0CkXaXp7hrann"@,
        r@[2].0@ == "code"@ && r@[2].1@ == code@,
        r@[3].0@ == "code_verifier"@ && r@[3].1@ == code_verifier@,
        r@[4].0@ == "redirect_uri"@ && r@[4].1@ == "http://localhost:1455/auth/callback"@,
{
    let mut out: Vec<(String, String)> = Vec::new();
    out.push((String::from_str("grant_type"), String::from_str("authorization_code")));
    out.push((String::from_str("client_id"), String::from_str(crate::pkce::oauth_client_id())));
    out.push((String::from_str("code"), String::from_str(code)));
    out.push((String::from_str("code_verifier"), String::from_str(code_verifier)));
    out.push((String::from_str("redirect_uri"), String::from_str(crate::pkce::oauth_redirect_uri())));
    out
}

/// The failure text of an exchange response: status and a bounded excerpt.
pub open spec fn exchange_fail_msg(status: int, body: Seq<char>) -> Seq<char> {
    "OAuth exchange failed ("@ + dec_str(status) + "): "@ + body.take(
        if body.len() < 240 {
            body.len() as int
        } else {
            240
        },
    )
}

/// Tokens from the response's fields: the access token is required, the
/// identity and refresh tokens default to empty.
pub fn tokens_from_fields(
    access_token: Option<String>,
    id_token: Option<String>,
    refresh_token: Option<String>,
) -> (r: Result<Tokens, String>)
    ensures
        (r is Ok) == (access_token is Some),
        r matches Ok(t) ==> ({
            &&& access_token == Some(t.access_token)
            &&& (match id_token {
                Some(s) => t.id_token == s,
                None => t.id_token@.len() == 0,
            })
            &&& (match refresh_token {
                Some(s) => t.refresh_token == s,
                None => t.refresh_token@.len() == 0,
            })
        }),
        r matches Err(m) ==> m@ == "OAuth payload missing access_token"@,
{
    match access_token {
        None => Err(String::from_str("OAuth payload missing access_token")),
        Some(access) => Ok(
            Tokens {
                id_token: match id_token {
                    Some(s) => s,
                    None => String::new(),
                },
                access_token: access,
                refresh_token: match refresh_token {
                    Some(s) => s,
                    None => String::new(),
                },
            },
        ),
    }
}

/// Reads a token response: a non-2xx status fails with a bounded excerpt,
/// an unparsable body fails with the parser's message, a parsed body
/// without a string `access_token` fails; otherwise exactly the read
/// tokens, the optional ones defaulting to empty.
pub fn parse_token_response(status: u16, body: &str) -> (r: Result<Tokens, String>)
    ensures
        !(200 <= status < 300) ==> (r matches Err(m) && m@ == exchange_fail_msg(
            status as int,
            body@,
        )),
        200 <= status < 300 && !json_text_ok(body@) ==> (r matches Err(m) && spec_starts_with(
            m@,
            "Invalid OAuth payload: "@,
        )),
        200 <= status < 300 && json_text_ok(body@) ==> ({
            let f = token_fields_of(body@);
            match f.0 {
                None => (r matches Err(m) && m@ == "OAuth payload missing access_token"@),
                Some(a) => (r matches Ok(t) && t.access_token@ == a && (match f.1 {
                    Some(x) => t.id_token@ == x,
                    None => t.id_token@.len() == 0,
                }) && (match f.2 {
                    Some(x) => t.refresh_token@ == x,
                    None => t.refresh_token@.len() == 0,
                })),
            }
        }),
{
    if !(200 <= status && status < 300) {
        let mut m = String::from_str("OAuth exchange failed (");
        m.append(u64_to_string(status as u64).as_str());
        m.append("): ");
        m.append(truncate_chars(body, 240).as_str());
        return Err(m);
    }
    let fields = match read_token_fields(body) {
        Ok(f) => f,
        Err(e) => {
            let mut m = String::from_str("Invalid OAuth payload: ");
            m.append(e.as_str());
            proof {
                assert(m@.subrange(0, "Invalid OAuth payload: "@.len() as int)
                    =~= "Invalid OAuth payload: "@);
            }
            return Err(m);
        },
    };
    tokens_from_fields(fields.0, fields.1, fields.2)
}

/// Records a successful exchange: the new account enters the store with
/// the tokens and identity, the quota outcome is attached — a quota
/// failure only marks the account's last error, it never fails the flow —
/// and the account becomes active when nothing was.
pub fn record_exchange_success(
    data: &mut AppData,
    tokens: Tokens,
    email: Option<String>,
    account_id: Option<String>,
    quota_result: Result<QuotaInfo, String>,
    now: i64,
) -> (r: Account)
    ensures
        r.email == email,
        r.account_id == account_id,
        r.tokens == tokens,
        r.created_at == now,
        r.last_login_at == now,
        quota_result matches Ok(q) ==> r.quota == Some(q) && r.last_error is None,
        quota_result matches Err(e) ==> r.quota is None && r.last_error == Some(e),
        final(data).accounts@ == old(data).accounts@.push(r),
        final(data).active_account_id == (if old(data).active_account_id is None {
            Some(r.id)
        } else {
            old(data).active_account_id
        }),
        final(data).proxies == old(data).proxies,
        final(data).active_proxy_id == old(data).active_proxy_id,
        final(data).limits_base_url == old(data).limits_base_url,
        final(data).preferred_ide == old(data).preferred_ide,
        has_account(final(data).accounts@, r.id@),
        old(data).wf() ==> final(data).wf(),
{
    let account = upsert_account(data, tokens, email, account_id, new_uuid(), now);
    let k = data.accounts.len() - 1;
    let mut updated = data.accounts[k].duplicate();
    match quota_result {
        Ok(q) => {
            updated.quota = Some(q);
            updated.last_error = None;
        },
        Err(e) => {
            updated.last_error = Some(e);
        },
    }
    let result = updated.duplicate();
    data.accounts[k] = updated;
    proof {
        assert(data.accounts@ =~= old(data).accounts@.push(result));
        assert(account.id == result.id);
        let s = data.accounts@;
        assert(s[s.len() - 1].id@ == result.id@);
        if old(data).wf() {
            match old(data).active_account_id {
                Some(id) => {
                    let i = choose|i: int|
                        0 <= i < old(data).accounts@.len() && old(data).accounts@[i].id@ == id@;
                    assert(s[i].id@ == id@);
                },
                None => {},
            }
        }
    }
    result
}

} // verus!
