//! The quota query: endpoint selection, the request's headers, and the
//! defensive parsing of the usage payload. A missing window or field is
//! empty, never a parse error.

use vstd::prelude::*;
use vstd::string::*;
use crate::data::{
    account_idx, active_proxy, find_account_index, has_account, lemma_account_idx, proxy_idx,
    AppData, ProxyEntry, QuotaInfo, QuotaWindow, Tokens,
};
use crate::jsonx::{json_text_ok, quota_fields_of, read_quota_plan, read_quota_window, text_opt_is};
use crate::strutil::{
    contains_sub, dec_str, spec_contains, spec_starts_with, trim_ws, trimmed, truncate_chars,
    u64_to_string,
};

verus! {

/// The base URL with every trailing `/` removed.
pub open spec fn spec_base_trimmed(s: Seq<char>) -> Seq<char>
    decreases s.len(),
{
    if s.len() > 0 && s[s.len() - 1] == '/' {
        spec_base_trimmed(s.drop_last())
    } else {
        s
    }
}

/// The usage endpoint: one of two fixed suffixes, by whether the base
/// URL carries the first-party path marker.
pub open spec fn spec_quota_endpoint(base_url: Seq<char>) -> Seq<char> {
    let base = spec_base_trimmed(base_url);
    if spec_contains(base, "/backend-api"@) {
        base + "/wham/usage"@
    } else {
        base + "/api/codex/usage"@
    }
}

/// Selects the usage endpoint for a base URL.
pub fn quota_endpoint(base_url: &str) -> (r: String)
    ensures
        r@ == spec_quota_endpoint(base_url@),
{
    let mut end: usize = base_url.unicode_len();
    proof {
        assert(base_url@.take(end as int) =~= base_url@);
    }
    while end > 0 && base_url.get_char(end - 1) == '/'
        invariant
            end <= base_url@.len(),
            spec_base_trimmed(base_url@.take(end as int)) == spec_base_trimmed(base_url@),
        decreases end,
    {
        proof {
            assert(base_url@.take(end as int).drop_last() =~= base_url@.take(end - 1));
        }
        end = end - 1;
    }
    let base = base_url.substring_char(0, end);
    proof {
        assert(base@ =~= base_url@.take(end as int));
        assert(spec_base_trimmed(base@) == base@);
    }
    let mut out = String::from_str(base);
    if contains_sub(base, "/backend-api") {
        out.append("/wham/usage");
    } else {
        out.append("/api/codex/usage");
    }
    out
}

#[derive(Debug)]
pub struct QuotaRequest {
    pub url: String,
    pub bearer: String,
    pub account_header: Option<String>,
}

/// The quota request: the endpoint, the bearer header value, and the
/// account-scoping header when a nonempty account id is known. Rejected
/// without a network call when no access token is held.
pub fn quota_request(base_url: &str, tokens: &Tokens, account_id: Option<&str>) -> (r: Result<
    QuotaRequest,
    String,
>)
    ensures
        (r is Err) <==> trimmed(tokens.access_token@).len() == 0,
        r matches Err(m) ==> m@ == "Missing access_token"@,
        r matches Ok(q) ==> ({
            &&& q.url@ == spec_quota_endpoint(base_url@)
            &&& q.bearer@ == "Bearer "@ + tokens.access_token@
            &&& (match account_id {
                None => q.account_header is None,
                Some(a) => {
                    &&& (trimmed(a@).len() == 0 ==> q.account_header is None)
                    &&& (trimmed(a@).len() > 0 ==> (q.account_header matches Some(h) && h@ == a@))
                },
            })
        }),
{
    let at = trim_ws(tokens.access_token.as_str());
    if at.unicode_len() == 0 {
        return Err(String::from_str("Missing access_token"));
    }
    let mut bearer = String::from_str("Bearer ");
    bearer.append(tokens.access_token.as_str());
    let account_header = match account_id {
        None => None,
        Some(a) => {
            if trim_ws(a).unicode_len() == 0 {
                None
            } else {
                Some(String::from_str(a))
            }
        },
    };
    Ok(QuotaRequest { url: quota_endpoint(base_url), bearer, account_header })
}

/// One window of the usage payload, from its read fields. A missing
/// window is entirely empty; a present one carries exactly its fields
/// and records when it was read.
pub fn parse_quota_window(
    win: Option<&(Option<String>, Option<i64>, Option<i64>)>,
    now: i64,
) -> (r: QuotaWindow)
    ensures
        win is None ==> r.is_empty(),
        win matches Some(w) ==> r.used_percent == w.0 && r.limit_window_seconds == w.1
            && r.reset_at == w.2 && r.fetched_at == Some(now),
{
    match win {
        None => QuotaWindow::default(),
        Some(w) => QuotaWindow {
            used_percent: crate::data::dup_opt_string(&w.0),
            limit_window_seconds: w.1,
            reset_at: w.2,
            fetched_at: Some(now),
        },
    }
}

/// The failure text of a quota response: the status and a bounded excerpt.
pub open spec fn quota_fail_msg(status: int, body: Seq<char>) -> Seq<char> {
    "Quota request failed ("@ + dec_str(status) + "): "@ + body.take(
        if body.len() < 240 {
            body.len() as int
        } else {
            240
        },
    )
}

/// How one read window becomes the stored snapshot's window.
pub open spec fn window_from_fields(
    w: Option<(Option<Seq<char>>, Option<i64>, Option<i64>)>,
    now: i64,
    r: QuotaWindow,
) -> bool {
    match w {
        None => r.is_empty(),
        Some(t) => text_opt_is(r.used_percent, t.0) && r.limit_window_seconds == t.1 && r.reset_at
            == t.2 && r.fetched_at == Some(now),
    }
}

/// Reads a quota response: a non-2xx status fails with a bounded excerpt;
/// an unparsable body fails with the parser's message; anything else
/// succeeds and carries exactly the read fields, every missing window or
/// field left empty.
pub fn parse_quota_response(status: u16, body: &str, now: i64) -> (r: Result<QuotaInfo, String>)
    ensures
        !(200 <= status < 300) ==> (r matches Err(m) && m@ == quota_fail_msg(
            status as int,
            body@,
        )),
        200 <= status < 300 && !json_text_ok(body@) ==> (r matches Err(m) && spec_starts_with(
            m@,
            "Invalid quota payload: "@,
        )),
        200 <= status < 300 && json_text_ok(body@) ==> (r matches Ok(q) && ({
            let f = quota_fields_of(body@);
            &&& text_opt_is(q.plan_type, f.0)
            &&& window_from_fields(f.1, now, q.primary)
            &&& window_from_fields(f.2, now, q.secondary)
            &&& q.fetched_at == now
        })),
{
    if !(200 <= status && status < 300) {
        let mut m = String::from_str("Quota request failed (");
        m.append(u64_to_string(status as u64).as_str());
        m.append("): ");
        m.append(truncate_chars(body, 240).as_str());
        return Err(m);
    }
    let plan_type = match read_quota_plan(body) {
        Ok(p) => p,
        Err(e) => {
            let mut m = String::from_str("Invalid quota payload: ");
            m.append(e.as_str());
            proof {
                assert(m@.subrange(0, "Invalid quota payload: "@.len() as int)
                    =~= "Invalid quota payload: "@);
            }
            return Err(m);
        },
    };
    let w1 = read_quota_window(body, true);
    let w2 = read_quota_window(body, false);
    let primary = parse_quota_window(w1.as_ref(), now);
    let secondary = parse_quota_window(w2.as_ref(), now);
    Ok(QuotaInfo { plan_type, primary, secondary, fetched_at: now })
}

/// What a single-account refresh reads before its network call.
pub struct QuotaRefreshTarget {
    pub base_url: String,
    pub tokens: Tokens,
    pub account_id: Option<String>,
    pub proxy: Option<ProxyEntry>,
}

/// The snapshot a single-account quota refresh takes: the base URL, the
/// named account's tokens and provider id, and the active proxy. An
/// unknown account id is rejected before any network call.
pub fn quota_refresh_target(data: &AppData, account_id: &str) -> (r: Result<
    QuotaRefreshTarget,
    String,
>)
    ensures
        (r is Ok) == has_account(data.accounts@, account_id@),
        r matches Err(m) ==> m@ == "Account not found"@,
        r matches Ok(t) ==> ({
            let k = account_idx(data.accounts@, account_id@);
            &&& t.base_url == data.limits_base_url
            &&& t.tokens == data.accounts@[k].tokens
            &&& t.account_id == data.accounts@[k].account_id
            &&& (match t.proxy {
                Some(p) => (match data.active_proxy_id {
                    Some(pid) => proxy_idx(data.proxies@, pid@) >= 0 && p == data.proxies@[
                        proxy_idx(data.proxies@, pid@)
                    ],
                    None => false,
                }),
                None => (match data.active_proxy_id {
                    Some(pid) => proxy_idx(data.proxies@, pid@) == -1,
                    None => true,
                }),
            })
        }),
{
    proof {
        lemma_account_idx(data.accounts@, account_id@);
    }
    match find_account_index(&data.accounts, account_id) {
        None => Err(String::from_str("Account not found")),
        Some(k) => {
            let account = data.accounts[k].duplicate();
            Ok(QuotaRefreshTarget {
                base_url: data.limits_base_url.clone(),
                tokens: account.tokens,
                account_id: account.account_id,
                proxy: active_proxy(data),
            })
        },
    }
}

} // verus!
