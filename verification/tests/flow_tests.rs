use std::collections::HashSet;

use codex_accounts::data::AppData;
use codex_accounts::exchange::{parse_token_response, record_exchange_success};
use codex_accounts::flow::{
    accept_manual_callback, complete_flow_success, fail_flow, flow_status_text,
    get_oauth_flow_status, start_oauth_flow, FlowRegistry, OauthFlowStatus,
};
use codex_accounts::httpserve::{handle_callback_request, CallbackDecision};
use codex_accounts::jwt::{extract_account_id, extract_email};
use codex_accounts::pkce::random_urlsafe;

fn jwt_with_payload(payload: &str) -> String {
    let engine = &base64::engine::general_purpose::URL_SAFE_NO_PAD;
    let header = base64::Engine::encode(engine, b"{\"alg\":\"none\"}");
    let body = base64::Engine::encode(engine, payload.as_bytes());
    format!("{header}.{body}.sig")
}

fn callback_request(code: &str, state: &str) -> String {
    format!("GET /auth/callback?code={code}&state={state} HTTP/1.1\r\nHost: localhost\r\n\r\n")
}

#[test]
fn state_tokens_do_not_collide() {
    let mut seen: HashSet<String> = HashSet::new();
    for _ in 0..10_000 {
        let token = random_urlsafe(32);
        assert!(seen.insert(token), "a state token repeated");
    }
}

#[test]
fn start_flow_registers_waiting_entry() {
    let mut reg = FlowRegistry::new();
    let resp = start_oauth_flow(&mut reg, 1_700_000_000).expect("start must succeed");
    assert_eq!(reg.flows.len(), 1);
    assert_eq!(reg.flows[0].id, resp.flow_id);
    assert!(matches!(reg.flows[0].status, OauthFlowStatus::WaitingCallback));
    assert_eq!(resp.redirect_uri, "http://localhost:1455/auth/callback");
    assert!(resp.authorization_url.starts_with(
        "https://auth.openai.com/oauth/authorize?response_type=code&client_id="
    ));
    assert!(resp.authorization_url.contains(&format!("&state={}", reg.flows[0].state)));
    assert!(resp.authorization_url.contains("&code_challenge_method=S256"));
    assert!(resp.authorization_url.ends_with("&codex_cli_simplified_flow=true"));
}

#[test]
fn unmatched_state_is_rejected_without_mutation() {
    let mut reg = FlowRegistry::new();
    start_oauth_flow(&mut reg, 0).expect("start");
    let before_status = flow_status_text(&reg.flows[0].status);
    let req = callback_request("ABC", "not-a-known-state");
    match handle_callback_request(&mut reg, &req) {
        CallbackDecision::Respond { status, html } => {
            assert_eq!(status, "400 Bad Request");
            assert!(html.contains("No active OAuth flow matched this state."));
        },
        CallbackDecision::Exchange { .. } => panic!("must not match"),
    }
    assert_eq!(flow_status_text(&reg.flows[0].status), before_status);
    assert!(reg.flows[0].callback_url.is_none());
}

#[test]
fn callback_matches_state_exactly_once() {
    let mut reg = FlowRegistry::new();
    let resp = start_oauth_flow(&mut reg, 0).expect("start");
    let state = reg.flows[0].state.clone();
    let req = callback_request("ABC123", &state);
    match handle_callback_request(&mut reg, &req) {
        CallbackDecision::Exchange { flow_id, code, .. } => {
            assert_eq!(flow_id, resp.flow_id);
            assert_eq!(code, "ABC123");
        },
        CallbackDecision::Respond { .. } => panic!("first callback must match"),
    }
    assert!(matches!(reg.flows[0].status, OauthFlowStatus::Exchanging));
    match handle_callback_request(&mut reg, &req) {
        CallbackDecision::Respond { status, .. } => assert_eq!(status, "400 Bad Request"),
        CallbackDecision::Exchange { .. } => panic!("second callback must not match"),
    }
    assert!(matches!(reg.flows[0].status, OauthFlowStatus::Exchanging));
}

#[test]
fn non_get_and_wrong_path_do_not_touch_flows() {
    let mut reg = FlowRegistry::new();
    start_oauth_flow(&mut reg, 0).expect("start");
    let state = reg.flows[0].state.clone();
    let post = format!("POST /auth/callback?code=A&state={state} HTTP/1.1\r\n\r\n");
    match handle_callback_request(&mut reg, &post) {
        CallbackDecision::Respond { status, .. } => assert_eq!(status, "405 Method Not Allowed"),
        _ => panic!("POST must be refused"),
    }
    let wrong = format!("GET /elsewhere?code=A&state={state} HTTP/1.1\r\n\r\n");
    match handle_callback_request(&mut reg, &wrong) {
        CallbackDecision::Respond { status, .. } => assert_eq!(status, "404 Not Found"),
        _ => panic!("wrong path must be refused"),
    }
    let no_code = format!("GET /auth/callback?state={state} HTTP/1.1\r\n\r\n");
    match handle_callback_request(&mut reg, &no_code) {
        CallbackDecision::Respond { status, html } => {
            assert_eq!(status, "400 Bad Request");
            assert!(html.contains("Query does not contain OAuth code."));
        },
        _ => panic!("missing code must be refused"),
    }
    assert!(matches!(reg.flows[0].status, OauthFlowStatus::WaitingCallback));
}

#[test]
fn successful_exchange_end_to_end() {
    let mut reg = FlowRegistry::new();
    let mut data = AppData::default();
    let resp = start_oauth_flow(&mut reg, 10).expect("start");
    let state = reg.flows[0].state.clone();

    let req = callback_request("ABC123", &state);
    let (flow_id, code) = match handle_callback_request(&mut reg, &req) {
        CallbackDecision::Exchange { flow_id, code, .. } => (flow_id, code),
        _ => panic!("callback must match"),
    };
    assert_eq!(code, "ABC123");

    let id_token = jwt_with_payload("{\"email\":\"u@x.com\",\"sub\":\"acct-1\"}");
    let body = format!("{{\"access_token\":\"tok\",\"id_token\":\"{id_token}\"}}");
    let tokens = parse_token_response(200, &body).expect("mocked exchange succeeds");
    assert_eq!(tokens.access_token, "tok");
    assert_eq!(tokens.refresh_token, "");

    let email = extract_email(&tokens.id_token);
    let account_id = extract_account_id(&tokens.id_token);
    assert_eq!(email.as_deref(), Some("u@x.com"));
    assert_eq!(account_id.as_deref(), Some("acct-1"));

    let account = record_exchange_success(
        &mut data,
        tokens,
        email,
        account_id,
        Err("quota not fetched".to_string()),
        11,
    );
    complete_flow_success(&mut reg, &flow_id, account.id.clone());

    assert_eq!(data.accounts.len(), 1);
    assert_eq!(data.accounts[0].email.as_deref(), Some("u@x.com"));
    assert_eq!(data.accounts[0].tokens.access_token, "tok");
    assert_eq!(data.active_account_id.as_deref(), Some(account.id.as_str()));
    assert!(matches!(reg.flows[0].status, OauthFlowStatus::Completed));
    assert_eq!(reg.flows[0].result_account_id.as_deref(), Some(account.id.as_str()));

    let snapshot = get_oauth_flow_status(&reg, &data, &resp.flow_id).expect("status");
    assert_eq!(snapshot.status, "completed");
    assert!(snapshot.account.is_some());
    assert_eq!(snapshot.account.unwrap().email.as_deref(), Some("u@x.com"));
}

#[test]
fn failed_exchange_marks_flow_error() {
    let mut reg = FlowRegistry::new();
    let data = AppData::default();
    start_oauth_flow(&mut reg, 0).expect("start");
    let state = reg.flows[0].state.clone();
    let req = callback_request("ABC123", &state);
    let flow_id = match handle_callback_request(&mut reg, &req) {
        CallbackDecision::Exchange { flow_id, .. } => flow_id,
        _ => panic!("callback must match"),
    };
    let err = parse_token_response(401, "denied").unwrap_err();
    assert!(err.contains("401"));
    assert_eq!(err, "OAuth exchange failed (401): denied");
    fail_flow(&mut reg, &flow_id, err.clone());
    match &reg.flows[0].status {
        OauthFlowStatus::Error(m) => assert!(m.contains("401")),
        _ => panic!("flow must be in error"),
    }
    assert_eq!(data.accounts.len(), 0);
}

#[test]
fn manual_callback_rejects_state_mismatch() {
    let mut reg = FlowRegistry::new();
    let resp = start_oauth_flow(&mut reg, 0).expect("start");
    let e = accept_manual_callback(
        &mut reg,
        &resp.flow_id,
        "another-state",
        "http://localhost:1455/auth/callback?code=A&state=another-state".to_string(),
    )
    .unwrap_err();
    assert_eq!(e, "State mismatch. Ensure callback belongs to the current login session.");
    match &reg.flows[0].status {
        OauthFlowStatus::Error(m) => {
            assert_eq!(m, "State mismatch. Callback belongs to another session.")
        },
        _ => panic!("mismatch must fail the flow"),
    }
}

#[test]
fn manual_callback_accepts_matching_state() {
    let mut reg = FlowRegistry::new();
    let resp = start_oauth_flow(&mut reg, 0).expect("start");
    let state = reg.flows[0].state.clone();
    let verifier = reg.flows[0].code_verifier.clone();
    let url = format!("http://localhost:1455/auth/callback?code=A&state={state}");
    let got = accept_manual_callback(&mut reg, &resp.flow_id, &state, url.clone())
        .expect("matching state is accepted");
    assert_eq!(got, verifier);
    assert!(matches!(reg.flows[0].status, OauthFlowStatus::Exchanging));
    assert_eq!(reg.flows[0].callback_url.as_deref(), Some(url.as_str()));
    let again = accept_manual_callback(&mut reg, &resp.flow_id, &state, url).unwrap_err();
    assert_eq!(again, "OAuth flow is not waiting for a callback");
    let missing = accept_manual_callback(&mut reg, "no-such-flow", &state, "x".to_string())
        .unwrap_err();
    assert_eq!(missing, "OAuth flow not found");
}
