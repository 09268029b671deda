use codex_accounts::data::{
    apply_proxy_test, apply_quota_result, apply_quota_results, remove_account,
    set_active_account_id, upsert_account, AppData, Tokens,
};
use codex_accounts::jwt::{extract_account_id, extract_email};
use codex_accounts::proxy::save_proxy;
use codex_accounts::quota::{parse_quota_response, quota_endpoint, quota_request};

fn jwt_with_payload(payload: &str) -> String {
    let engine = &base64::engine::general_purpose::URL_SAFE_NO_PAD;
    let header = base64::Engine::encode(engine, b"{\"alg\":\"none\"}");
    let body = base64::Engine::encode(engine, payload.as_bytes());
    format!("{header}.{body}.sig")
}

fn tokens(access: &str) -> Tokens {
    Tokens {
        id_token: String::new(),
        access_token: access.to_string(),
        refresh_token: String::new(),
    }
}

#[test]
fn quota_endpoint_depends_on_path_marker() {
    assert_eq!(
        quota_endpoint("https://chatgpt.com/backend-api"),
        "https://chatgpt.com/backend-api/wham/usage"
    );
    assert_eq!(
        quota_endpoint("https://chatgpt.com/backend-api///"),
        "https://chatgpt.com/backend-api/wham/usage"
    );
    assert_eq!(quota_endpoint("https://example.com/"), "https://example.com/api/codex/usage");
}

#[test]
fn quota_request_requires_access_token() {
    let e = quota_request("https://example.com", &tokens("   "), None).unwrap_err();
    assert_eq!(e, "Missing access_token");
    let q = quota_request("https://example.com", &tokens("abc"), Some("acct")).expect("ok");
    assert_eq!(q.bearer, "Bearer abc");
    assert_eq!(q.account_header.as_deref(), Some("acct"));
    let q2 = quota_request("https://example.com", &tokens("abc"), Some("  ")).expect("ok");
    assert!(q2.account_header.is_none());
}

#[test]
fn quota_parse_tolerates_missing_secondary_window() {
    let body = "{\"plan_type\":\"plus\",\"rate_limit\":{\"primary_window\":{\"used_percent\":37.5,\"limit_window_seconds\":3600,\"reset_at\":99}}}";
    let q = parse_quota_response(200, body, 123).expect("defensive parse must succeed");
    assert_eq!(q.plan_type.as_deref(), Some("plus"));
    assert_eq!(q.fetched_at, 123);
    assert_eq!(q.primary.used_percent.as_deref(), Some("37.5"));
    assert_eq!(q.primary.limit_window_seconds, Some(3600));
    assert_eq!(q.primary.reset_at, Some(99));
    assert_eq!(q.primary.fetched_at, Some(123));
    assert!(q.secondary.used_percent.is_none());
    assert!(q.secondary.limit_window_seconds.is_none());
    assert!(q.secondary.reset_at.is_none());
    assert!(q.secondary.fetched_at.is_none());
}

#[test]
fn quota_parse_tolerates_missing_rate_limit_entirely() {
    let q = parse_quota_response(200, "{}", 5).expect("must succeed");
    assert!(q.plan_type.is_none());
    assert!(q.primary.used_percent.is_none());
    assert!(q.secondary.reset_at.is_none());
}

#[test]
fn quota_parse_fails_on_status_and_garbage() {
    let e = parse_quota_response(500, "boom", 0).unwrap_err();
    assert_eq!(e, "Quota request failed (500): boom");
    let e2 = parse_quota_response(200, "not json", 0).unwrap_err();
    assert!(e2.starts_with("Invalid quota payload: "));
}

#[test]
fn quota_failure_message_is_truncated() {
    let long_body = "x".repeat(1000);
    let e = parse_quota_response(429, &long_body, 0).unwrap_err();
    assert_eq!(e.len(), "Quota request failed (429): ".len() + 240);
}

#[test]
fn identity_falls_back_to_subject_claim() {
    let with_provider = jwt_with_payload(
        "{\"https://api.openai.com/auth\":{\"chatgpt_account_id\":\"prov-1\"},\"sub\":\"sub-1\"}",
    );
    assert_eq!(extract_account_id(&with_provider).as_deref(), Some("prov-1"));
    let with_plain = jwt_with_payload(
        "{\"https://api.openai.com/auth\":{\"account_id\":\"plain-1\"},\"sub\":\"sub-1\"}",
    );
    assert_eq!(extract_account_id(&with_plain).as_deref(), Some("plain-1"));
    let sub_only = jwt_with_payload("{\"sub\":\"sub-1\"}");
    assert_eq!(extract_account_id(&sub_only).as_deref(), Some("sub-1"));
    let numeric_claim = jwt_with_payload(
        "{\"https://api.openai.com/auth\":{\"chatgpt_account_id\":42,\"account_id\":\"plain-1\"},\"sub\":\"sub-1\"}",
    );
    assert_eq!(
        extract_account_id(&numeric_claim).as_deref(),
        Some("sub-1"),
        "a present but non-string provider claim falls through to the subject"
    );
    let neither = jwt_with_payload("{\"aud\":\"x\"}");
    assert!(extract_account_id(&neither).is_none());
    assert!(extract_account_id("not-a-jwt").is_none());
    assert!(extract_email(&sub_only).is_none());
}

#[test]
fn removing_active_account_reassigns_or_clears() {
    let mut data = AppData::default();
    let a = upsert_account(&mut data, tokens("a"), None, None, "id-a".to_string(), 1);
    let b = upsert_account(&mut data, tokens("b"), None, None, "id-b".to_string(), 2);
    assert_eq!(data.active_account_id.as_deref(), Some("id-a"));
    remove_account(&mut data, &a.id).expect("known id");
    assert_eq!(data.accounts.len(), 1);
    assert_eq!(data.active_account_id.as_deref(), Some("id-b"));
    remove_account(&mut data, &b.id).expect("known id");
    assert!(data.accounts.is_empty());
    assert!(data.active_account_id.is_none());
}

#[test]
fn removing_inactive_account_keeps_active_pointer() {
    let mut data = AppData::default();
    upsert_account(&mut data, tokens("a"), None, None, "id-a".to_string(), 1);
    upsert_account(&mut data, tokens("b"), None, None, "id-b".to_string(), 2);
    remove_account(&mut data, "id-b").expect("known id");
    assert_eq!(data.active_account_id.as_deref(), Some("id-a"));
    assert_eq!(data.accounts.len(), 1);
}

#[test]
fn removing_unknown_account_is_rejected_untouched() {
    let mut data = AppData::default();
    upsert_account(&mut data, tokens("a"), None, None, "id-a".to_string(), 1);
    let e = remove_account(&mut data, "missing").unwrap_err();
    assert_eq!(e, "Account not found");
    assert_eq!(data.accounts.len(), 1);
    assert_eq!(data.active_account_id.as_deref(), Some("id-a"));
}

#[test]
fn set_active_account_validates_id() {
    let mut data = AppData::default();
    upsert_account(&mut data, tokens("a"), None, None, "id-a".to_string(), 1);
    let e = set_active_account_id(&mut data, "nope".to_string()).unwrap_err();
    assert_eq!(e, "Account not found");
    set_active_account_id(&mut data, "id-a".to_string()).expect("known id");
    assert_eq!(data.active_account_id.as_deref(), Some("id-a"));
}

#[test]
fn quota_outcome_is_applied_per_account() {
    let mut data = AppData::default();
    upsert_account(&mut data, tokens("a"), None, None, "id-a".to_string(), 1);
    let q = parse_quota_response(200, "{}", 7).expect("parse");
    let updated = apply_quota_result(&mut data, "id-a", Ok(q)).expect("apply");
    assert!(updated.quota.is_some());
    assert!(updated.last_error.is_none());
    let failed = apply_quota_result(&mut data, "id-a", Err("down".to_string())).expect("apply");
    assert_eq!(failed.last_error.as_deref(), Some("down"));
    assert!(failed.quota.is_some(), "a failed refresh keeps the old snapshot");
    let e = apply_quota_result(&mut data, "gone", Err("x".to_string())).unwrap_err();
    assert_eq!(e, "Account disappeared during update");
}

#[test]
fn bulk_quota_outcomes_skip_vanished_accounts() {
    let mut data = AppData::default();
    upsert_account(&mut data, tokens("a"), None, None, "id-a".to_string(), 1);
    upsert_account(&mut data, tokens("b"), None, None, "id-b".to_string(), 2);
    let updates = vec![
        ("id-a".to_string(), Err::<codex_accounts::data::QuotaInfo, String>("down".to_string())),
        ("vanished".to_string(), Err::<codex_accounts::data::QuotaInfo, String>("x".to_string())),
    ];
    apply_quota_results(&mut data, &updates);
    assert_eq!(data.accounts[0].last_error.as_deref(), Some("down"));
    assert!(data.accounts[1].last_error.is_none());
}

#[test]
fn proxy_probe_outcome_is_recorded() {
    let mut data = AppData::default();
    save_proxy(&mut data, None, "u:p@h:80").expect("insert");
    let id = data.proxies[0].id.clone();
    let ok = apply_proxy_test(&mut data, id.clone(), Ok(42), 1000).expect("apply");
    assert!(ok.reachable);
    assert_eq!(ok.latency_ms, Some(42));
    assert_eq!(data.proxies[0].last_status.as_deref(), Some("ok"));
    assert_eq!(data.proxies[0].last_checked_at, Some(1000));
    let bad = apply_proxy_test(&mut data, id, Err("refused".to_string()), 2000).expect("apply");
    assert!(!bad.reachable);
    assert_eq!(bad.error.as_deref(), Some("refused"));
    assert_eq!(data.proxies[0].last_status.as_deref(), Some("error"));
    assert!(data.proxies[0].last_latency_ms.is_none());
    let e = apply_proxy_test(&mut data, "gone".to_string(), Ok(1), 0).unwrap_err();
    assert_eq!(e, "Proxy disappeared during update");
}
