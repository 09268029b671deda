//! The callback listener's pure side: reading the request line, matching
//! the redirect to a flow, the terminal HTML pages, and the manual
//! "paste callback URL" normalization. The socket work stands outside
//! the library; it hands the raw request text in and the response out.

use vstd::prelude::*;
use vstd::string::*;
use crate::flow::{after_callback, match_callback, state_idx, FlowRegistry};
use crate::seqx::{last_where, lemma_last_where_bounds};
use crate::strutil::{dec_str, eq_str, find_char, first_idx, is_ws, is_ws_char, spec_contains,
    spec_starts_with, starts_with, contains_sub, trim_ws, trimmed, u64_to_string};
use crate::urlx::{pairs_view_is, url_parse_ok, url_path_of, url_query_pairs_of, url_read};

verus! {

/// The terminal HTML page: a title and a message in the fixed template.
pub open spec fn html_of(title: Seq<char>, message: Seq<char>) -> Seq<char> {
    "<!doctype html><html><head><meta charset=\"utf-8\"><title>"@ + title
        + "</title><style>body{font-family:Segoe UI,Arial,sans-serif;background:#f6f8fb;color:#1d2733;padding:30px}.card{max-width:640px;margin:0 auto;background:white;border-radius:14px;padding:24px;box-shadow:0 10px 30px rgba(20,37,63,.08)}h1{margin:0 0 12px 0;font-size:22px}p{margin:0;font-size:15px;line-height:1.45}</style></head><body><div class=\"card\"><h1>"@
        + title + "</h1><p>"@ + message + "</p></div></body></html>"@
}

/// A self-contained HTML page around a title and a message.
pub fn html_message(title: &str, message: &str) -> (r: String)
    ensures
        r@ == html_of(title@, message@),
{
    let mut out = String::from_str(
        "<!doctype html><html><head><meta charset=\"utf-8\"><title>",
    );
    out.append(title);
    out.append(
        "</title><style>body{font-family:Segoe UI,Arial,sans-serif;background:#f6f8fb;color:#1d2733;padding:30px}.card{max-width:640px;margin:0 auto;background:white;border-radius:14px;padding:24px;box-shadow:0 10px 30px rgba(20,37,63,.08)}h1{margin:0 0 12px 0;font-size:22px}p{margin:0;font-size:15px;line-height:1.45}</style></head><body><div class=\"card\"><h1>",
    );
    out.append(title);
    out.append("</h1><p>");
    out.append(message);
    out.append("</p></div></body></html>");
    out
}

/// A complete HTTP response around a status line and an HTML body, with
/// the body's byte length declared.
pub fn http_response_text(status: &str, body: &str) -> (r: String)
    ensures
        r@ == "HTTP/1.1 "@ + status@
            + "\r\nContent-Type: text/html; charset=utf-8\r\nContent-Length: "@ + dec_str(
            body.spec_bytes().len() as usize as int,
        ) + "\r\nConnection: close\r\n\r\n"@ + body@,
{
    let mut out = String::from_str("HTTP/1.1 ");
    out.append(status);
    out.append("\r\nContent-Type: text/html; charset=utf-8\r\nContent-Length: ");
    out.append(u64_to_string(body.len() as u64).as_str());
    out.append("\r\nConnection: close\r\n\r\n");
    out.append(body);
    proof {
        assert(out@ =~= "HTTP/1.1 "@ + status@
            + "\r\nContent-Type: text/html; charset=utf-8\r\nContent-Length: "@ + dec_str(
            body.spec_bytes().len() as usize as int,
        ) + "\r\nConnection: close\r\n\r\n"@ + body@);
    }
    out
}

/// The first line of the request: up to the first line feed, a trailing
/// carriage return stripped.
pub open spec fn spec_first_line(s: Seq<char>) -> Seq<char> {
    let e = first_idx(s, '\n');
    let l = if e < 0 {
        s
    } else {
        s.take(e)
    };
    if l.len() > 0 && l[l.len() - 1] == '\r' {
        l.drop_last()
    } else {
        l
    }
}

pub fn first_line<'a>(s: &'a str) -> (r: &'a str)
    ensures
        r@ == spec_first_line(s@),
{
    let n: usize = s.unicode_len();
    let e: usize = match find_char(s, '\n') {
        Some(i) => i,
        None => n,
    };
    let line = s.substring_char(0, e);
    proof {
        assert(line@ =~= s@.take(e as int));
        if first_idx(s@, '\n') < 0 {
            assert(s@.take(n as int) =~= s@);
        }
    }
    let m: usize = line.unicode_len();
    if m > 0 && line.get_char(m - 1) == '\r' {
        let out = line.substring_char(0, m - 1);
        proof {
            assert(out@ =~= line@.drop_last());
        }
        out
    } else {
        line
    }
}

/// The first index at or after `from` holding a non-space character.
pub open spec fn skip_ws_idx(s: Seq<char>, from: int) -> int
    decreases s.len() - from,
{
    if from >= s.len() {
        s.len() as int
    } else if is_ws_char(s[from]) {
        skip_ws_idx(s, from + 1)
    } else {
        from
    }
}

/// The first index at or after `from` holding a space character.
pub open spec fn token_end_idx(s: Seq<char>, from: int) -> int
    decreases s.len() - from,
{
    if from >= s.len() {
        s.len() as int
    } else if !is_ws_char(s[from]) {
        token_end_idx(s, from + 1)
    } else {
        from
    }
}

pub proof fn lemma_skip_ws_is(s: Seq<char>, from: int, i: int)
    requires
        0 <= from <= i <= s.len(),
        forall|j: int| from <= j < i ==> is_ws_char(s[j]),
        i == s.len() || !is_ws_char(s[i]),
    ensures
        skip_ws_idx(s, from) == i,
    decreases i - from,
{
    if from < i {
        lemma_skip_ws_is(s, from + 1, i);
    }
}

pub proof fn lemma_token_end_is(s: Seq<char>, from: int, i: int)
    requires
        0 <= from <= i <= s.len(),
        forall|j: int| from <= j < i ==> !is_ws_char(s[j]),
        i == s.len() || is_ws_char(s[i]),
    ensures
        token_end_idx(s, from) == i,
    decreases i - from,
{
    if from < i {
        lemma_token_end_is(s, from + 1, i);
    }
}

/// The method token of a request line: its first white-space-separated
/// word, empty when there is none.
pub open spec fn request_method(line: Seq<char>) -> Seq<char> {
    let a = skip_ws_idx(line, 0);
    let b = token_end_idx(line, a);
    line.subrange(a, b)
}

/// The target of a request line: its second word, `/` when there is none.
pub open spec fn request_target(line: Seq<char>) -> Seq<char> {
    let a = skip_ws_idx(line, 0);
    let b = token_end_idx(line, a);
    let a2 = skip_ws_idx(line, b);
    let b2 = token_end_idx(line, a2);
    if a2 == b2 {
        "/"@
    } else {
        line.subrange(a2, b2)
    }
}

/// Position of the first non-space character at or after `from`.
fn scan_ws(line: &str, from: usize) -> (r: usize)
    requires
        from <= line@.len(),
    ensures
        r == skip_ws_idx(line@, from as int),
        from <= r <= line@.len(),
{
    let n: usize = line.unicode_len();
    let mut i: usize = from;
    while i < n && is_ws(line.get_char(i))
        invariant
            n == line@.len(),
            from <= i <= n,
            forall|j: int| from <= j < i ==> is_ws_char(line@[j]),
        decreases n - i,
    {
        i = i + 1;
    }
    proof {
        lemma_skip_ws_is(line@, from as int, i as int);
    }
    i
}

/// Position of the first space character at or after `from`.
fn scan_token(line: &str, from: usize) -> (r: usize)
    requires
        from <= line@.len(),
    ensures
        r == token_end_idx(line@, from as int),
        from <= r <= line@.len(),
{
    let n: usize = line.unicode_len();
    let mut i: usize = from;
    while i < n && !is_ws(line.get_char(i))
        invariant
            n == line@.len(),
            from <= i <= n,
            forall|j: int| from <= j < i ==> !is_ws_char(line@[j]),
        decreases n - i,
    {
        i = i + 1;
    }
    proof {
        lemma_token_end_is(line@, from as int, i as int);
    }
    i
}

/// The method and target tokens of a request line.
pub fn request_line_parts(line: &str) -> (r: (String, String))
    ensures
        r.0@ == request_method(line@),
        r.1@ == request_target(line@),
{
    let a = scan_ws(line, 0);
    let b = scan_token(line, a);
    let method = String::from_str(line.substring_char(a, b));
    proof {
        assert(method@ =~= line@.subrange(a as int, b as int));
    }
    let a2 = scan_ws(line, b);
    let b2 = scan_token(line, a2);
    let target = if a2 == b2 {
        String::from_str("/")
    } else {
        let t = String::from_str(line.substring_char(a2, b2));
        proof {
            assert(t@ =~= line@.subrange(a2 as int, b2 as int));
        }
        t
    };
    (method, target)
}

/// The predicate "this query pair carries `key`".
pub open spec fn pair_key_is(key: Seq<char>) -> spec_fn((String, String)) -> bool {
    |p: (String, String)| p.0@ == key
}

/// The value of the last query pair with this key, as the repeated
/// assignments of a scan leave it.
pub open spec fn last_param(pairs: Seq<(String, String)>, key: Seq<char>) -> Option<String> {
    let k = last_where(pairs, pair_key_is(key));
    if k < 0 {
        None
    } else {
        Some(pairs[k].1)
    }
}

/// The last value a key takes in the decoded query pairs.
pub fn find_query_param(pairs: &Vec<(String, String)>, key: &str) -> (r: Option<String>)
    ensures
        r == last_param(pairs@, key@),
{
    let n: usize = pairs.len();
    let mut found: Option<String> = None;
    let mut i: usize = 0;
    proof {
        assert(pairs@.take(0) =~= Seq::<(String, String)>::empty());
    }
    while i < n
        invariant
            n == pairs@.len(),
            0 <= i <= n,
            found == last_param(pairs@.take(i as int), key@),
        decreases n - i,
    {
        let is_match = eq_str(pairs[i].0.as_str(), key);
        proof {
            let t = pairs@.take(i + 1);
            assert(t.drop_last() =~= pairs@.take(i as int));
            assert(t.last() == pairs@[i as int]);
            assert(pair_key_is(key@)(t.last()) == is_match);
            lemma_last_where_bounds(pairs@.take(i as int), pair_key_is(key@));
            lemma_last_where_bounds(t, pair_key_is(key@));
        }
        if is_match {
            found = Some(pairs[i].1.clone());
        }
        i = i + 1;
    }
    proof {
        assert(pairs@.take(n as int) =~= pairs@);
    }
    found
}

/// The predicate "this named query pair carries `key`".
pub open spec fn ghost_pair_key_is(key: Seq<char>) -> spec_fn((Seq<char>, Seq<char>)) -> bool {
    |p: (Seq<char>, Seq<char>)| p.0 == key
}

/// The value of the last named query pair with this key.
pub open spec fn spec_last_param(pairs: Seq<(Seq<char>, Seq<char>)>, key: Seq<char>) -> Option<
    Seq<char>,
> {
    let k = last_where(pairs, ghost_pair_key_is(key));
    if k < 0 {
        None
    } else {
        Some(pairs[k].1)
    }
}

/// A scan over the pair vector finds exactly what the named pairs hold.
pub proof fn lemma_last_param_view(
    v: Seq<(String, String)>,
    s: Seq<(Seq<char>, Seq<char>)>,
    key: Seq<char>,
)
    requires
        pairs_view_is(v, s),
    ensures
        match last_param(v, key) {
            Some(x) => spec_last_param(s, key) == Some(x@),
            None => spec_last_param(s, key) is None,
        },
    decreases v.len(),
{
    lemma_last_where_bounds(v, pair_key_is(key));
    lemma_last_where_bounds(s, ghost_pair_key_is(key));
    if v.len() > 0 {
        assert(s[v.len() - 1].0 == v[v.len() - 1].0@ && s[v.len() - 1].1 == v[v.len() - 1].1@);
        assert(pair_key_is(key)(v.last()) == ghost_pair_key_is(key)(s.last()));
        if !pair_key_is(key)(v.last()) {
            assert forall|i: int| 0 <= i < v.drop_last().len() implies s.drop_last()[i].0
                == #[trigger] v.drop_last()[i].0@ && s.drop_last()[i].1 == v.drop_last()[i].1@ by {
                assert(v.drop_last()[i] == v[i]);
                assert(s.drop_last()[i] == s[i]);
                assert(s[i].0 == v[i].0@ && s[i].1 == v[i].1@);
            }
            lemma_last_param_view(v.drop_last(), s.drop_last(), key);
            let k = last_where(v.drop_last(), pair_key_is(key));
            if k >= 0 {
                assert(v.drop_last()[k] == v[k]);
                assert(s.drop_last()[k] == s[k]);
            }
        }
    }
}

/// What the listener decides for one connection: answer at once, or run
/// the exchange for the matched flow and answer afterwards.
pub enum CallbackDecision {
    Respond { status: String, html: String },
    Exchange { flow_id: String, code_verifier: String, code: String, callback_url: String },
}

/// Reads one callback request and drives the registry: only `GET` on the
/// callback path with `code` and `state` reaches matching; each rejected
/// shape forces its own page, and a state token equal to no waiting
/// flow's token is rejected with no flow touched.
pub fn handle_callback_request(reg: &mut FlowRegistry, request: &str) -> (d: CallbackDecision)
    ensures
        d matches CallbackDecision::Respond { status, html } ==> *final(reg) == *old(reg),
        ({
            let line = spec_first_line(request@);
            let cb = "http://localhost:1455"@ + request_target(line);
            let pairs = url_query_pairs_of(cb);
            if request_method(line) != "GET"@ {
                (d matches CallbackDecision::Respond { status, html } && status@
                    == "405 Method Not Allowed"@ && html@ == html_of(
                    "Method Not Allowed"@,
                    "Only GET is supported for OAuth callback."@,
                ))
            } else if !url_parse_ok(cb) {
                (d matches CallbackDecision::Respond { status, html } && status@
                    == "400 Bad Request"@ && html@ == html_of(
                    "Invalid Request"@,
                    "Could not parse callback URL."@,
                ))
            } else if url_path_of(cb) != "/auth/callback"@ {
                (d matches CallbackDecision::Respond { status, html } && status@
                    == "404 Not Found"@ && html@ == html_of(
                    "Not Found"@,
                    "This endpoint is only used for OAuth callback."@,
                ))
            } else if spec_last_param(pairs, "code"@) is None {
                (d matches CallbackDecision::Respond { status, html } && status@
                    == "400 Bad Request"@ && html@ == html_of(
                    "Callback Error"@,
                    "Query does not contain OAuth code."@,
                ))
            } else if spec_last_param(pairs, "state"@) is None {
                (d matches CallbackDecision::Respond { status, html } && status@
                    == "400 Bad Request"@ && html@ == html_of(
                    "Callback Error"@,
                    "Query does not contain OAuth state."@,
                ))
            } else {
                let tok = spec_last_param(pairs, "state"@)->0;
                let k = state_idx(old(reg).flows@, tok);
                if k < 0 || !(old(reg).flows@[k].status is WaitingCallback) {
                    (d matches CallbackDecision::Respond { status, html } && status@
                        == "400 Bad Request"@ && html@ == html_of(
                        "Callback Error"@,
                        "No active OAuth flow matched this state."@,
                    ))
                } else {
                    (d matches CallbackDecision::Exchange { flow_id, code_verifier, code, callback_url }
                        && flow_id == old(reg).flows@[k].id && code_verifier == old(
                        reg,
                    ).flows@[k].code_verifier && code@ == spec_last_param(pairs, "code"@)->0
                        && callback_url@ == cb && final(reg).flows@ == after_callback(
                        old(reg).flows@,
                        tok,
                        callback_url,
                    ))
                }
            }
        }),
{
    let line = first_line(request);
    let (method, target) = request_line_parts(line);
    if !eq_str(method.as_str(), "GET") {
        return CallbackDecision::Respond {
            status: String::from_str("405 Method Not Allowed"),
            html: html_message("Method Not Allowed", "Only GET is supported for OAuth callback."),
        };
    }
    let mut callback_url = String::from_str("http://localhost:1455");
    callback_url.append(target.as_str());
    let (path, pairs) = match url_read(callback_url.as_str()) {
        Ok(pq) => pq,
        Err(_) => {
            return CallbackDecision::Respond {
                status: String::from_str("400 Bad Request"),
                html: html_message("Invalid Request", "Could not parse callback URL."),
            };
        },
    };
    if !eq_str(path.as_str(), crate::pkce::callback_path()) {
        return CallbackDecision::Respond {
            status: String::from_str("404 Not Found"),
            html: html_message("Not Found", "This endpoint is only used for OAuth callback."),
        };
    }
    proof {
        lemma_last_param_view(pairs@, url_query_pairs_of(callback_url@), "code"@);
        lemma_last_param_view(pairs@, url_query_pairs_of(callback_url@), "state"@);
    }
    let code = match find_query_param(&pairs, "code") {
        Some(c) => c,
        None => {
            return CallbackDecision::Respond {
                status: String::from_str("400 Bad Request"),
                html: html_message("Callback Error", "Query does not contain OAuth code."),
            };
        },
    };
    let state_value = match find_query_param(&pairs, "state") {
        Some(s) => s,
        None => {
            return CallbackDecision::Respond {
                status: String::from_str("400 Bad Request"),
                html: html_message("Callback Error", "Query does not contain OAuth state."),
            };
        },
    };
    let url_copy = callback_url.clone();
    match match_callback(reg, state_value.as_str(), callback_url) {
        None => CallbackDecision::Respond {
            status: String::from_str("400 Bad Request"),
            html: html_message("Callback Error", "No active OAuth flow matched this state."),
        },
        Some((flow_id, code_verifier)) => CallbackDecision::Exchange {
            flow_id,
            code_verifier,
            code,
            callback_url: url_copy,
        },
    }
}

/// The page sent once the exchange has run: success, or the failure text.
pub fn exchange_result_page(error: Option<&String>) -> (r: (String, String))
    ensures
        error is None ==> r.0@ == "200 OK"@ && r.1@ == html_of(
            "Login Completed"@,
            "OAuth completed successfully. You can return to the app now."@,
        ),
        error matches Some(e) ==> r.0@ == "400 Bad Request"@ && r.1@ == html_of(
            "OAuth Failed"@,
            "Token exchange failed: "@ + e@,
        ),
{
    match error {
        None => (
            String::from_str("200 OK"),
            html_message(
                "Login Completed",
                "OAuth completed successfully. You can return to the app now.",
            ),
        ),
        Some(e) => {
            let mut msg = String::from_str("Token exchange failed: ");
            msg.append(e.as_str());
            (String::from_str("400 Bad Request"), html_message("OAuth Failed", msg.as_str()))
        },
    }
}

/// `c` stripped of every leading question mark, as the manual path takes
/// a bare query string.
pub open spec fn strip_leading_q(s: Seq<char>) -> Seq<char>
    decreases s.len(),
{
    if s.len() > 0 && s[0] == '?' {
        strip_leading_q(s.drop_first())
    } else {
        s
    }
}

/// The manual input normalized to a full callback URL: a full URL stands,
/// a callback path is bound to the local listener, a bare query with
/// `code=` and `state=` is bound to the fixed redirect URI; anything
/// else is rejected.
pub open spec fn normalized_callback(input: Seq<char>) -> Option<Seq<char>> {
    let t = trimmed(input);
    if spec_starts_with(t, "http://"@) || spec_starts_with(t, "https://"@) {
        Some(t)
    } else if spec_starts_with(t, "/auth/callback"@) {
        Some("http://localhost:1455"@ + t)
    } else if spec_contains(t, "code="@) && spec_contains(t, "state="@) {
        Some("http://localhost:1455/auth/callback?"@ + strip_leading_q(t))
    } else {
        None
    }
}

/// Normalizes a pasted callback and reads its `code` and `state`: the
/// code, the state token, and the normalized URL. Each rejected shape
/// forces its own message, and success is owed whenever the normalized
/// URL parses with both parameters present.
pub fn parse_callback_input(input: &str) -> (r: Result<(String, String, String), String>)
    ensures
        ({
            let t = trimmed(input@);
            if t.len() == 0 {
                (r matches Err(m) && m@ == "Callback URL is empty"@)
            } else {
                match normalized_callback(input@) {
                    None => (r matches Err(m) && m@
                        == "Invalid callback format. Paste full callback URL or query with code/state"@),
                    Some(n) => if !url_parse_ok(n) {
                        (r matches Err(m) && spec_starts_with(m@, "Invalid callback URL: "@))
                    } else {
                        let pairs = url_query_pairs_of(n);
                        match spec_last_param(pairs, "code"@) {
                            None => (r matches Err(m) && m@ == "Callback does not contain code"@),
                            Some(code) => (match spec_last_param(pairs, "state"@) {
                                None => (r matches Err(m) && m@
                                    == "Callback does not contain state"@),
                                Some(tok) => (r matches Ok(v) && v.0@ == code && v.1@ == tok
                                    && v.2@ == n),
                            }),
                        }
                    },
                }
            }
        }),
{
    let t = trim_ws(input);
    if t.unicode_len() == 0 {
        return Err(String::from_str("Callback URL is empty"));
    }
    let normalized: String = if starts_with(t, "http://") || starts_with(t, "https://") {
        String::from_str(t)
    } else if starts_with(t, "/auth/callback") {
        let mut u = String::from_str("http://localhost:1455");
        u.append(t);
        u
    } else if contains_sub(t, "code=") && contains_sub(t, "state=") {
        let n: usize = t.unicode_len();
        let mut q: usize = 0;
        proof {
            assert(t@.skip(0) =~= t@);
        }
        while q < n && t.get_char(q) == '?'
            invariant
                n == t@.len(),
                0 <= q <= n,
                strip_leading_q(t@.skip(q as int)) == strip_leading_q(t@),
            decreases n - q,
        {
            proof {
                assert(t@.skip(q as int).drop_first() =~= t@.skip(q + 1));
            }
            q = q + 1;
        }
        let query = t.substring_char(q, n);
        proof {
            assert(query@ =~= t@.skip(q as int));
            assert(strip_leading_q(query@) == query@);
        }
        let mut u = String::from_str("http://localhost:1455/auth/callback?");
        u.append(query);
        u
    } else {
        return Err(
            String::from_str("Invalid callback format. Paste full callback URL or query with code/state"),
        );
    };
    let (_path, pairs) = match url_read(normalized.as_str()) {
        Ok(pq) => pq,
        Err(e) => {
            let mut m = String::from_str("Invalid callback URL: ");
            m.append(e.as_str());
            proof {
                assert(m@.subrange(0, "Invalid callback URL: "@.len() as int)
                    =~= "Invalid callback URL: "@);
            }
            return Err(m);
        },
    };
    proof {
        lemma_last_param_view(pairs@, url_query_pairs_of(normalized@), "code"@);
        lemma_last_param_view(pairs@, url_query_pairs_of(normalized@), "state"@);
    }
    let code = match find_query_param(&pairs, "code") {
        Some(c) => c,
        None => {
            return Err(String::from_str("Callback does not contain code"));
        },
    };
    let state_value = match find_query_param(&pairs, "state") {
        Some(s) => s,
        None => {
            return Err(String::from_str("Callback does not contain state"));
        },
    };
    Ok((code, state_value, normalized))
}

} // verus!
