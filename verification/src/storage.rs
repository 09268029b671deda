//! Where the persisted aggregate and the credential export live on disk,
//! and the export's content. Reading and writing the files stands outside
//! the library.

use vstd::prelude::*;
use vstd::string::*;
use crate::data::Tokens;
use crate::outside::{data_local_dir, home_dir};
use crate::strutil::spec_starts_with;

verus! {

/// Whether `s` ends with `pat`.
pub open spec fn spec_ends_with(s: Seq<char>, pat: Seq<char>) -> bool {
    s.len() >= pat.len() && s.subrange(s.len() - pat.len(), s.len() as int) == pat
}

/// The path of the persisted aggregate: the platform's local-data
/// directory, or the home directory, with the application folder and the
/// state file appended. Rejected when the platform reports neither.
pub fn app_storage_file() -> (r: Result<String, String>)
    ensures
        r matches Ok(p) ==> spec_ends_with(p@, "/CodexAccountManager/state.json"@),
        r matches Err(m) ==> m@ == "Cannot determine data directory"@,
{
    let base = match data_local_dir() {
        Some(d) => d,
        None => {
            match home_dir() {
                Some(d) => d,
                None => {
                    return Err(String::from_str("Cannot determine data directory"));
                },
            }
        },
    };
    let mut p = base;
    p.append("/CodexAccountManager/state.json");
    proof {
        assert(p@.subrange(p@.len() - "/CodexAccountManager/state.json"@.len(), p@.len() as int)
            =~= "/CodexAccountManager/state.json"@);
    }
    Ok(p)
}

/// The path of the credential export consumed by the external CLI tool:
/// the home directory with its configuration folder and file appended.
pub fn codex_auth_path() -> (r: Result<String, String>)
    ensures
        r matches Ok(p) ==> spec_ends_with(p@, "/.codex/auth.json"@),
        r matches Err(m) ==> m@ == "Cannot determine user home directory"@,
{
    let base = match home_dir() {
        Some(d) => d,
        None => {
            return Err(String::from_str("Cannot determine user home directory"));
        },
    };
    let mut p = base;
    p.append("/.codex/auth.json");
    proof {
        assert(p@.subrange(p@.len() - "/.codex/auth.json"@.len(), p@.len() as int)
            =~= "/.codex/auth.json"@);
    }
    Ok(p)
}

/// The credential export's content: the active account's tokens and
/// provider account id, and when they were written.
pub struct CodexAuthExport {
    pub id_token: String,
    pub access_token: String,
    pub refresh_token: String,
    pub account_id: Option<String>,
    pub last_refresh: String,
}

/// Assembles the export for an account's tokens.
pub fn codex_auth_export(
    tokens: &Tokens,
    account_id: Option<String>,
    last_refresh: String,
) -> (r: CodexAuthExport)
    ensures
        r.id_token == tokens.id_token,
        r.access_token == tokens.access_token,
        r.refresh_token == tokens.refresh_token,
        r.account_id == account_id,
        r.last_refresh == last_refresh,
{
    CodexAuthExport {
        id_token: tokens.id_token.clone(),
        access_token: tokens.access_token.clone(),
        refresh_token: tokens.refresh_token.clone(),
        account_id,
        last_refresh,
    }
}

} // verus!
