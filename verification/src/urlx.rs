//! Trusted declarations for the url crate. The reader takes the URL text
//! and hands back the path and the decoded query pairs; parsing, the path
//! and the pairs are each pure functions of the text, so they carry names
//! the callers' contracts are exact over. The credential builder writes a
//! proxy's URL, again a pure function of its four fields.

use vstd::prelude::*;

verus! {

/// Whether url::Url::parse accepts the text as an absolute URL.
pub uninterp spec fn url_parse_ok(text: Seq<char>) -> bool;

/// The path of the parsed URL.
pub uninterp spec fn url_path_of(text: Seq<char>) -> Seq<char>;

/// The query of the parsed URL, decoded as
/// `application/x-www-form-urlencoded` pairs, in order.
pub uninterp spec fn url_query_pairs_of(text: Seq<char>) -> Seq<(Seq<char>, Seq<char>)>;

/// Whether `http://host:port` parses and accepts the credentials.
pub uninterp spec fn proxy_url_ok(
    login: Seq<char>,
    password: Seq<char>,
    host: Seq<char>,
    port: u16,
) -> bool;

/// The serialized proxy URL with the credentials set.
pub uninterp spec fn proxy_url_of(
    login: Seq<char>,
    password: Seq<char>,
    host: Seq<char>,
    port: u16,
) -> Seq<char>;

/// Whether a pair vector holds exactly the named pairs.
pub open spec fn pairs_view_is(v: Seq<(String, String)>, s: Seq<(Seq<char>, Seq<char>)>) -> bool {
    v.len() == s.len() && forall|i: int|
        0 <= i < v.len() ==> s[i].0 == #[trigger] v[i].0@ && s[i].1 == v[i].1@
}

/// Relies on url::Url::parse, Url::path and Url::query_pairs: each a pure
/// function of the URL text; `Err` carries the parser's message exactly
/// when the text is not an absolute URL.
#[verifier::external_body]
pub fn url_read(text: &str) -> (r: Result<(String, Vec<(String, String)>), String>)
    ensures
        (r is Ok) == url_parse_ok(text@),
        r matches Ok(pq) ==> pq.0@ == url_path_of(text@) && pairs_view_is(
            pq.1@,
            url_query_pairs_of(text@),
        ),
{
    match url::Url::parse(text) {
        Err(e) => Err(e.to_string()),
        Ok(u) => Ok((u.path().to_owned(), u.query_pairs().into_owned().collect())),
    }
}

/// Which step of building a proxy URL was refused.
pub enum ProxyUrlError {
    /// `http://host:port` did not parse; carries the parser's message.
    Base(String),
    /// The URL cannot carry this user name.
    Login,
    /// The URL cannot carry this password.
    Password,
}

/// Relies on url::Url::parse, set_username, set_password and as_str: the
/// serialized URL, with the credentials percent-encoded, is a pure
/// function of the four fields.
#[verifier::external_body]
pub fn proxy_url_build(login: &str, password: &str, host: &str, port: u16) -> (r: Result<
    String,
    ProxyUrlError,
>)
    ensures
        (r is Ok) == proxy_url_ok(login@, password@, host@, port),
        r matches Ok(u) ==> u@ == proxy_url_of(login@, password@, host@, port),
{
    let text = format!("http://{}:{}", host, port);
    let mut u = match url::Url::parse(&text) {
        Ok(u) => u,
        Err(e) => return Err(ProxyUrlError::Base(e.to_string())),
    };
    if u.set_username(login).is_err() {
        return Err(ProxyUrlError::Login);
    }
    if u.set_password(Some(password)).is_err() {
        return Err(ProxyUrlError::Password);
    }
    Ok(u.as_str().to_owned())
}

} // verus!
