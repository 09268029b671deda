use codex_accounts::data::{upsert_account, AppData, Tokens};
use codex_accounts::exchange::{parse_token_response, token_request_form, tokens_from_fields};
use codex_accounts::httpserve::{
    exchange_result_page, html_message, http_response_text, parse_callback_input,
};
use codex_accounts::ide::{
    apply_account_switch, ide_cli_candidates, ide_process_names, ide_reload_script,
    ide_restart_script, normalize_ide_target, reload_ide_windows, restart_ide_processes,
    set_preferred_ide, switch_outcome, trigger_ide_reload_command, CommandOutcome,
};
use codex_accounts::pkce::{build_authorize_url, build_pkce};
use codex_accounts::storage::{app_storage_file, codex_auth_export, codex_auth_path};
use codex_accounts::strutil::{parse_u16, trim_ws, truncate_chars, u64_to_string};

#[test]
fn authorize_url_is_deterministic() {
    let url = build_authorize_url("STATE123", "CHAL456").expect("always builds");
    assert_eq!(
        url,
        "https://auth.openai.com/oauth/authorize?response_type=code&client_id=app_EMoamEEZ73f0CkXaXp7hrann&redirect_uri=http%3A%2F%2Flocalhost%3A1455%2Fauth%2Fcallback&scope=openid+profile+email+offline_access&state=STATE123&code_challenge=CHAL456&code_challenge_method=S256&originator=codex_cli_rs&id_token_add_organizations=true&codex_cli_simplified_flow=true"
    );
}

#[test]
fn pkce_challenge_is_derived_from_verifier() {
    let (verifier, challenge) = build_pkce();
    assert!(!verifier.is_empty());
    assert!(!challenge.is_empty());
    assert_ne!(verifier, challenge);
    assert_eq!(challenge.len(), 43, "a SHA-256 digest encodes to 43 characters");
    let (v2, _) = build_pkce();
    assert_ne!(verifier, v2);
}

#[test]
fn token_form_holds_the_five_pairs() {
    let form = token_request_form("CODE", "VERIFIER");
    assert_eq!(form.len(), 5);
    assert_eq!(form[0], ("grant_type".to_string(), "authorization_code".to_string()));
    assert_eq!(form[2], ("code".to_string(), "CODE".to_string()));
    assert_eq!(form[3], ("code_verifier".to_string(), "VERIFIER".to_string()));
    assert_eq!(
        form[4],
        ("redirect_uri".to_string(), "http://localhost:1455/auth/callback".to_string())
    );
}

#[test]
fn token_response_requires_access_token() {
    let e = parse_token_response(200, "{\"id_token\":\"x\"}").unwrap_err();
    assert_eq!(e, "OAuth payload missing access_token");
    let e2 = tokens_from_fields(None, None, None).unwrap_err();
    assert_eq!(e2, "OAuth payload missing access_token");
    let t = tokens_from_fields(Some("a".to_string()), None, Some("r".to_string())).expect("ok");
    assert_eq!(t.access_token, "a");
    assert_eq!(t.id_token, "");
    assert_eq!(t.refresh_token, "r");
    let e3 = parse_token_response(200, "garbage").unwrap_err();
    assert!(e3.starts_with("Invalid OAuth payload: "));
}

#[test]
fn html_and_http_shapes() {
    let page = html_message("Title Here", "Body here.");
    assert!(page.starts_with("<!doctype html>"));
    assert!(page.contains("<title>Title Here</title>"));
    assert!(page.contains("<h1>Title Here</h1><p>Body here.</p>"));
    let resp = http_response_text("200 OK", "abc");
    assert_eq!(
        resp,
        "HTTP/1.1 200 OK\r\nContent-Type: text/html; charset=utf-8\r\nContent-Length: 3\r\nConnection: close\r\n\r\nabc"
    );
    let (ok_status, ok_page) = exchange_result_page(None);
    assert_eq!(ok_status, "200 OK");
    assert!(ok_page.contains("Login Completed"));
    let err = "boom".to_string();
    let (bad_status, bad_page) = exchange_result_page(Some(&err));
    assert_eq!(bad_status, "400 Bad Request");
    assert!(bad_page.contains("Token exchange failed: boom"));
}

#[test]
fn manual_callback_inputs_normalize() {
    let (code, state, url) =
        parse_callback_input("http://localhost:1455/auth/callback?code=A&state=S").expect("full");
    assert_eq!((code.as_str(), state.as_str()), ("A", "S"));
    assert_eq!(url, "http://localhost:1455/auth/callback?code=A&state=S");
    let (c2, s2, u2) = parse_callback_input("/auth/callback?code=B&state=T").expect("path");
    assert_eq!((c2.as_str(), s2.as_str()), ("B", "T"));
    assert_eq!(u2, "http://localhost:1455/auth/callback?code=B&state=T");
    let (c3, s3, u3) = parse_callback_input("?code=C&state=U").expect("query");
    assert_eq!((c3.as_str(), s3.as_str()), ("C", "U"));
    assert_eq!(u3, "http://localhost:1455/auth/callback?code=C&state=U");
    assert_eq!(parse_callback_input("   ").unwrap_err(), "Callback URL is empty");
    assert_eq!(
        parse_callback_input("nonsense").unwrap_err(),
        "Invalid callback format. Paste full callback URL or query with code/state"
    );
    assert_eq!(
        parse_callback_input("/auth/callback?state=S").unwrap_err(),
        "Callback does not contain code"
    );
    assert_eq!(
        parse_callback_input("/auth/callback?code=A").unwrap_err(),
        "Callback does not contain state"
    );
}

#[test]
fn ide_targets_normalize_case_insensitively() {
    assert_eq!(normalize_ide_target(" VSCode ").as_deref(), Some("vscode"));
    assert_eq!(normalize_ide_target("code").as_deref(), Some("vscode"));
    assert_eq!(normalize_ide_target("CURSOR").as_deref(), Some("cursor"));
    assert_eq!(normalize_ide_target("Codium").as_deref(), Some("vscodium"));
    assert_eq!(normalize_ide_target("zed").as_deref(), Some("zed"));
    assert!(normalize_ide_target("emacs").is_none());
}

#[test]
fn ide_scripts_quote_candidates() {
    let c = ide_cli_candidates("vscode").expect("supported");
    assert_eq!(c, vec!["code".to_string(), "code-insiders".to_string()]);
    let script = ide_reload_script(&c);
    assert!(script.contains("$cmds=@('code','code-insiders');"));
    assert!(script.contains("workbench.action.reloadWindow"));
    let n = ide_process_names("vscode").expect("supported");
    let restart = ide_restart_script(&n);
    assert!(restart.contains("$names=@('Code','Code - Insiders');"));
    assert!(ide_cli_candidates("emacs").is_none());
}

#[test]
fn command_outcomes_read_by_exit_code() {
    let done = CommandOutcome::Exited { code: Some(0), stderr: String::new() };
    let none_found = CommandOutcome::Exited { code: Some(2), stderr: String::new() };
    let broke = CommandOutcome::Exited { code: Some(1), stderr: " bad \n".to_string() };
    let silent = CommandOutcome::Exited { code: None, stderr: "   ".to_string() };
    assert_eq!(trigger_ide_reload_command("vscode", &done), Ok(true));
    assert_eq!(trigger_ide_reload_command("vscode", &none_found), Ok(false));
    assert_eq!(
        trigger_ide_reload_command("vscode", &broke).unwrap_err(),
        "IDE reload command failed: bad"
    );
    assert_eq!(
        trigger_ide_reload_command("vscode", &silent).unwrap_err(),
        "IDE reload command failed"
    );
    assert_eq!(
        trigger_ide_reload_command("emacs", &done).unwrap_err(),
        "Unsupported IDE target"
    );
    assert_eq!(
        restart_ide_processes("zed", &silent).unwrap_err(),
        "IDE process restart command failed"
    );
    assert_eq!(reload_ide_windows("zed", &done, None), Ok(true));
    assert_eq!(reload_ide_windows("zed", &none_found, Some(&done)), Ok(true));
    assert_eq!(reload_ide_windows("zed", &none_found, Some(&none_found)), Ok(false));
    let combined = reload_ide_windows("zed", &broke, Some(&silent)).unwrap_err();
    assert_eq!(
        combined,
        "IDE reload failed (IDE reload command failed: bad) and restart fallback failed (IDE process restart command failed)"
    );
}

#[test]
fn switch_outcome_reports() {
    let (reloaded, warning) = switch_outcome(None);
    assert!(!reloaded);
    assert_eq!(
        warning.as_deref(),
        Some("Account switched. Choose an IDE target to enable auto reload.")
    );
    let (r2, w2) = switch_outcome(Some(("vscode".to_string(), Ok(true))));
    assert!(r2);
    assert!(w2.is_none());
    let (r3, w3) = switch_outcome(Some(("vscode".to_string(), Ok(false))));
    assert!(!r3);
    assert_eq!(
        w3.as_deref(),
        Some("Account switched. No running vscode process was found to reload.")
    );
    let (r4, w4) = switch_outcome(Some(("zed".to_string(), Err("x".to_string()))));
    assert!(!r4);
    assert_eq!(w4.as_deref(), Some("Account switched, but IDE reload failed: x"));
}

#[test]
fn account_switch_and_preferred_ide() {
    let mut data = AppData::default();
    let t = Tokens {
        id_token: String::new(),
        access_token: "a".to_string(),
        refresh_token: String::new(),
    };
    upsert_account(&mut data, t, None, None, "id-a".to_string(), 1);
    let e = apply_account_switch(&mut data, "nope".to_string(), None).unwrap_err();
    assert_eq!(e, "Account not found");
    apply_account_switch(&mut data, "id-a".to_string(), Some("zed".to_string())).expect("switch");
    assert_eq!(data.active_account_id.as_deref(), Some("id-a"));
    assert_eq!(data.preferred_ide.as_deref(), Some("zed"));
    let e2 = set_preferred_ide(&mut data, Some("emacs".to_string())).unwrap_err();
    assert_eq!(e2, "Invalid IDE target");
    set_preferred_ide(&mut data, Some("Cursor".to_string())).expect("valid target");
    assert_eq!(data.preferred_ide.as_deref(), Some("cursor"));
    set_preferred_ide(&mut data, None).expect("clearing succeeds");
    assert!(data.preferred_ide.is_none());
}

#[test]
fn storage_paths_and_export() {
    let p = app_storage_file().expect("a data directory exists here");
    assert!(p.ends_with("/CodexAccountManager/state.json"));
    let c = codex_auth_path().expect("a home directory exists here");
    assert!(c.ends_with("/.codex/auth.json"));
    let t = Tokens {
        id_token: "i".to_string(),
        access_token: "a".to_string(),
        refresh_token: "r".to_string(),
    };
    let export = codex_auth_export(&t, Some("acct".to_string()), "2024-01-01T00:00:00Z".to_string());
    assert_eq!(export.access_token, "a");
    assert_eq!(export.account_id.as_deref(), Some("acct"));
    assert_eq!(export.last_refresh, "2024-01-01T00:00:00Z");
}

#[test]
fn string_helpers_behave_like_std() {
    assert_eq!(u64_to_string(0), "0");
    assert_eq!(u64_to_string(65535), "65535");
    assert_eq!(u64_to_string(1002003), "1002003");
    assert_eq!(parse_u16("8080"), Some(8080));
    assert_eq!(parse_u16("+443"), Some(443));
    assert_eq!(parse_u16("65536"), None);
    assert_eq!(parse_u16(""), None);
    assert_eq!(parse_u16("12a"), None);
    assert_eq!(trim_ws("  x \t"), "x");
    assert_eq!(trim_ws("   "), "");
    assert_eq!(truncate_chars("hello", 3), "hel");
    assert_eq!(truncate_chars("hi", 10), "hi");
}
