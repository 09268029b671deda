//! The OAuth flow registry: one entry per authentication attempt, each
//! carrying an anti-forgery state token, a PKCE verifier and a status.
//! Callbacks are matched by exact state-token equality, and a flow leaves
//! `WaitingCallback` at most once.

use vstd::prelude::*;
use vstd::string::*;
use crate::data::{account_idx, dup_opt_string, Account, AppData};
use crate::outside::{b64url_nopad_of, new_uuid, sha256_of};
use crate::pkce::{authorize_url_of, build_authorize_url, build_pkce, oauth_redirect_uri, random_urlsafe};
use crate::seqx::{first_where, lemma_first_where_bounds, lemma_first_where_is};
use crate::strutil::eq_str;

verus! {

pub enum OauthFlowStatus {
    WaitingCallback,
    Exchanging,
    Completed,
    Error(String),
}

impl OauthFlowStatus {
    pub fn duplicate(&self) -> (r: OauthFlowStatus)
        ensures
            r == *self,
    {
        match self {
            OauthFlowStatus::WaitingCallback => OauthFlowStatus::WaitingCallback,
            OauthFlowStatus::Exchanging => OauthFlowStatus::Exchanging,
            OauthFlowStatus::Completed => OauthFlowStatus::Completed,
            OauthFlowStatus::Error(m) => OauthFlowStatus::Error(m.clone()),
        }
    }
}

pub struct OauthFlow {
    pub id: String,
    pub state: String,
    pub code_verifier: String,
    pub created_at: i64,
    pub authorization_url: String,
    pub callback_url: Option<String>,
    pub result_account_id: Option<String>,
    pub status: OauthFlowStatus,
}

impl OauthFlow {
    pub fn duplicate(&self) -> (r: OauthFlow)
        ensures
            r == *self,
    {
        OauthFlow {
            id: self.id.clone(),
            state: self.state.clone(),
            code_verifier: self.code_verifier.clone(),
            created_at: self.created_at,
            authorization_url: self.authorization_url.clone(),
            callback_url: dup_opt_string(&self.callback_url),
            result_account_id: dup_opt_string(&self.result_account_id),
            status: self.status.duplicate(),
        }
    }
}

/// The in-flight flows of this process, in order of creation.
pub struct FlowRegistry {
    pub flows: Vec<OauthFlow>,
}

/// The predicate "this flow carries `id`".
pub open spec fn flow_id_is(id: Seq<char>) -> spec_fn(OauthFlow) -> bool {
    |f: OauthFlow| f.id@ == id
}

/// The predicate "this flow carries the state token".
pub open spec fn flow_state_is(token: Seq<char>) -> spec_fn(OauthFlow) -> bool {
    |f: OauthFlow| f.state@ == token
}

pub open spec fn flow_idx(s: Seq<OauthFlow>, id: Seq<char>) -> int {
    first_where(s, flow_id_is(id))
}

pub open spec fn state_idx(s: Seq<OauthFlow>, token: Seq<char>) -> int {
    first_where(s, flow_state_is(token))
}

impl FlowRegistry {
    pub fn new() -> (r: FlowRegistry)
        ensures
            r.flows@.len() == 0,
    {
        FlowRegistry { flows: Vec::new() }
    }
}

/// Position of the first flow with the given id.
pub fn find_flow_index(flows: &Vec<OauthFlow>, id: &str) -> (r: Option<usize>)
    ensures
        match r {
            Some(i) => i == flow_idx(flows@, id@) && i < flows@.len(),
            None => flow_idx(flows@, id@) == -1,
        },
{
    let n: usize = flows.len();
    let mut i: usize = 0;
    while i < n
        invariant
            n == flows@.len(),
            0 <= i <= n,
            forall|j: int| 0 <= j < i ==> flows@[j].id@ != id@,
        decreases n - i,
    {
        if eq_str(flows[i].id.as_str(), id) {
            proof {
                lemma_first_where_is(flows@, flow_id_is(id@), i as int);
                assert(flow_id_is(id@)(flows@[i as int]));
            }
            return Some(i);
        }
        i = i + 1;
    }
    proof {
        lemma_first_where_bounds(flows@, flow_id_is(id@));
        if flow_idx(flows@, id@) >= 0 {
            assert(flow_id_is(id@)(flows@[flow_idx(flows@, id@)]));
        }
    }
    None
}

/// Position of the first flow with the given state token.
pub fn find_state_index(flows: &Vec<OauthFlow>, token: &str) -> (r: Option<usize>)
    ensures
        match r {
            Some(i) => i == state_idx(flows@, token@) && i < flows@.len(),
            None => state_idx(flows@, token@) == -1,
        },
{
    let n: usize = flows.len();
    let mut i: usize = 0;
    while i < n
        invariant
            n == flows@.len(),
            0 <= i <= n,
            forall|j: int| 0 <= j < i ==> flows@[j].state@ != token@,
        decreases n - i,
    {
        if eq_str(flows[i].state.as_str(), token) {
            proof {
                lemma_first_where_is(flows@, flow_state_is(token@), i as int);
                assert(flow_state_is(token@)(flows@[i as int]));
            }
            return Some(i);
        }
        i = i + 1;
    }
    proof {
        lemma_first_where_bounds(flows@, flow_state_is(token@));
        if state_idx(flows@, token@) >= 0 {
            assert(flow_state_is(token@)(flows@[state_idx(flows@, token@)]));
        }
    }
    None
}

pub struct OauthStartResponse {
    pub flow_id: String,
    pub authorization_url: String,
    pub redirect_uri: String,
}

/// Starts a flow: fresh PKCE pair, fresh 32-byte state token, the
/// authorization URL built from them, and a registry entry in
/// `WaitingCallback`.
pub fn start_oauth_flow(reg: &mut FlowRegistry, now: i64) -> (r: Result<OauthStartResponse, String>)
    ensures
        r is Ok,
        r matches Ok(resp) ==> ({
            let f = final(reg).flows@.last();
            &&& final(reg).flows@.len() == old(reg).flows@.len() + 1
            &&& final(reg).flows@.take(old(reg).flows@.len() as int) == old(reg).flows@
            &&& f.id == resp.flow_id
            &&& f.status is WaitingCallback
            &&& f.created_at == now
            &&& f.callback_url is None
            &&& f.result_account_id is None
            &&& f.authorization_url == resp.authorization_url
            &&& (exists|b: Seq<u8>| b.len() == 32 && f.state@ == b64url_nopad_of(b))
            &&& (exists|b: Seq<u8>| b.len() == 64 && f.code_verifier@ == b64url_nopad_of(b))
            &&& f.authorization_url@ == authorize_url_of(
                f.state@,
                b64url_nopad_of(sha256_of(vstd::utf8::encode_utf8(f.code_verifier@))),
            )
            &&& resp.redirect_uri@ == "http://localhost:1455/auth/callback"@
        }),
{
    let (code_verifier, code_challenge) = build_pkce();
    let flow_state = random_urlsafe(32);
    let auth_url = match build_authorize_url(flow_state.as_str(), code_challenge.as_str()) {
        Ok(u) => u,
        Err(e) => {
            return Err(e);
        },
    };
    let flow_id = new_uuid();
    let flow = OauthFlow {
        id: flow_id.clone(),
        state: flow_state,
        code_verifier,
        created_at: now,
        authorization_url: auth_url.clone(),
        callback_url: None,
        result_account_id: None,
        status: OauthFlowStatus::WaitingCallback,
    };
    reg.flows.push(flow);
    proof {
        assert(reg.flows@.take(old(reg).flows@.len() as int) =~= old(reg).flows@);
    }
    Ok(OauthStartResponse {
        flow_id,
        authorization_url: auth_url,
        redirect_uri: String::from_str(oauth_redirect_uri()),
    })
}

/// The flow after its callback arrived: observed URL recorded, exchanging.
pub open spec fn with_exchanging(f: OauthFlow, url: String) -> OauthFlow {
    OauthFlow {
        id: f.id,
        state: f.state,
        code_verifier: f.code_verifier,
        created_at: f.created_at,
        authorization_url: f.authorization_url,
        callback_url: Some(url),
        result_account_id: f.result_account_id,
        status: OauthFlowStatus::Exchanging,
    }
}

/// What a callback with this state token does to the registry: when its
/// token equals a waiting flow's token, that flow moves to `Exchanging`
/// with the observed URL recorded; otherwise nothing changes.
pub open spec fn after_callback(s: Seq<OauthFlow>, token: Seq<char>, url: String) -> Seq<
    OauthFlow,
> {
    let k = state_idx(s, token);
    if k >= 0 && s[k].status is WaitingCallback {
        s.update(k, with_exchanging(s[k], url))
    } else {
        s
    }
}

/// Matches a callback to a flow by exact state-token equality. Only a
/// flow still in `WaitingCallback` is driven forward; the match returns
/// its id and PKCE verifier for the exchange.
pub fn match_callback(reg: &mut FlowRegistry, state_token: &str, callback_url: String) -> (r:
    Option<(String, String)>)
    ensures
        final(reg).flows@ == after_callback(old(reg).flows@, state_token@, callback_url),
        ({
            let k = state_idx(old(reg).flows@, state_token@);
            &&& (k == -1 ==> r is None && *final(reg) == *old(reg))
            &&& (k >= 0 && !(old(reg).flows@[k].status is WaitingCallback) ==> r is None
                && *final(reg) == *old(reg))
            &&& (k >= 0 && old(reg).flows@[k].status is WaitingCallback ==> (r matches Some(m)
                && m.0 == old(reg).flows@[k].id && m.1 == old(reg).flows@[k].code_verifier))
        }),
{
    proof {
        lemma_first_where_bounds(reg.flows@, flow_state_is(state_token@));
        if state_idx(reg.flows@, state_token@) >= 0 {
            assert(flow_state_is(state_token@)(reg.flows@[state_idx(reg.flows@, state_token@)]));
        }
    }
    match find_state_index(&reg.flows, state_token) {
        None => None,
        Some(k) => {
            let waiting = match &reg.flows[k].status {
                OauthFlowStatus::WaitingCallback => true,
                _ => false,
            };
            if !waiting {
                return None;
            }
            let flow_id = reg.flows[k].id.clone();
            let verifier = reg.flows[k].code_verifier.clone();
            let mut updated = reg.flows[k].duplicate();
            updated.callback_url = Some(callback_url);
            updated.status = OauthFlowStatus::Exchanging;
            reg.flows[k] = updated;
            Some((flow_id, verifier))
        },
    }
}

/// A callback drives a flow out of `WaitingCallback` at most once: after
/// one callback has matched, a second with the same token changes nothing.
pub proof fn lemma_callback_matches_once(
    s: Seq<OauthFlow>,
    token: Seq<char>,
    u1: String,
    u2: String,
)
    ensures
        after_callback(after_callback(s, token, u1), token, u2) == after_callback(s, token, u1),
{
    let k = state_idx(s, token);
    lemma_first_where_bounds(s, flow_state_is(token));
    if k >= 0 && s[k].status is WaitingCallback {
        let s1 = after_callback(s, token, u1);
        assert(flow_state_is(token)(s[k]));
        assert(s1[k].state@ == token);
        assert(flow_state_is(token)(s1[k]));
        assert forall|j: int| 0 <= j < k implies !flow_state_is(token)(s1[j]) by {
            assert(s1[j] == s[j]);
        }
        lemma_first_where_is(s1, flow_state_is(token), k);
        assert(state_idx(s1, token) == k);
        assert(!(s1[k].status is WaitingCallback));
        assert(after_callback(s1, token, u2) == s1);
    }
}

/// The manual completion path: the flow is named by id, and the pasted
/// callback's state token must equal the flow's own. A mismatch marks the
/// flow failed; a flow that is not waiting is left untouched.
pub fn accept_manual_callback(
    reg: &mut FlowRegistry,
    flow_id: &str,
    callback_state: &str,
    normalized: String,
) -> (r: Result<String, String>)
    ensures
        ({
            let k = flow_idx(old(reg).flows@, flow_id@);
            &&& (k == -1 ==> (r matches Err(m) && m@ == "OAuth flow not found"@ && *final(reg)
                == *old(reg)))
            &&& (k >= 0 && !(old(reg).flows@[k].status is WaitingCallback) ==> (r matches Err(m)
                && m@ == "OAuth flow is not waiting for a callback"@ && *final(reg) == *old(reg)))
            &&& (k >= 0 && old(reg).flows@[k].status is WaitingCallback && old(
                reg,
            ).flows@[k].state@ != callback_state@ ==> (r matches Err(m) && m@
                == "State mismatch. Ensure callback belongs to the current login session."@ && ({
                let f = final(reg).flows@[k];
                &&& final(reg).flows@.len() == old(reg).flows@.len()
                &&& (forall|j: int| 0 <= j < old(reg).flows@.len() && j != k
                    ==> #[trigger] final(reg).flows@[j] == old(reg).flows@[j])
                &&& f.status matches OauthFlowStatus::Error(e) && e@
                    == "State mismatch. Callback belongs to another session."@
                &&& f.id == old(reg).flows@[k].id
                &&& f.state == old(reg).flows@[k].state
                &&& f.code_verifier == old(reg).flows@[k].code_verifier
                &&& f.callback_url == old(reg).flows@[k].callback_url
                &&& f.result_account_id == old(reg).flows@[k].result_account_id
            })))
            &&& (k >= 0 && old(reg).flows@[k].status is WaitingCallback && old(
                reg,
            ).flows@[k].state@ == callback_state@ ==> (r matches Ok(v) && v == old(
                reg,
            ).flows@[k].code_verifier && final(reg).flows@ == old(reg).flows@.update(
                k,
                with_exchanging(old(reg).flows@[k], normalized),
            )))
        }),
{
    proof {
        lemma_first_where_bounds(reg.flows@, flow_id_is(flow_id@));
        if flow_idx(reg.flows@, flow_id@) >= 0 {
            assert(flow_id_is(flow_id@)(reg.flows@[flow_idx(reg.flows@, flow_id@)]));
        }
        lemma_first_where_bounds(reg.flows@, flow_state_is(callback_state@));
        if state_idx(reg.flows@, callback_state@) >= 0 {
            assert(flow_state_is(callback_state@)(
                reg.flows@[state_idx(reg.flows@, callback_state@)],
            ));
        }
    }
    match find_flow_index(&reg.flows, flow_id) {
        None => Err(String::from_str("OAuth flow not found")),
        Some(k) => {
            let waiting = match &reg.flows[k].status {
                OauthFlowStatus::WaitingCallback => true,
                _ => false,
            };
            if !waiting {
                return Err(String::from_str("OAuth flow is not waiting for a callback"));
            }
            if !eq_str(reg.flows[k].state.as_str(), callback_state) {
                let mut updated = reg.flows[k].duplicate();
                updated.status = OauthFlowStatus::Error(
                    String::from_str("State mismatch. Callback belongs to another session."),
                );
                reg.flows[k] = updated;
                return Err(
                    String::from_str(
                        "State mismatch. Ensure callback belongs to the current login session.",
                    ),
                );
            }
            let verifier = reg.flows[k].code_verifier.clone();
            let mut updated = reg.flows[k].duplicate();
            updated.callback_url = Some(normalized);
            updated.status = OauthFlowStatus::Exchanging;
            reg.flows[k] = updated;
            Ok(verifier)
        },
    }
}

/// Marks the flow completed with the account it produced. The store holds
/// that account before this is called, so a `Completed` flow's reference
/// is never dangling. A flow that vanished is left alone.
pub fn complete_flow_success(reg: &mut FlowRegistry, flow_id: &str, account_id: String)
    ensures
        ({
            let k = flow_idx(old(reg).flows@, flow_id@);
            &&& (k == -1 ==> *final(reg) == *old(reg))
            &&& (k >= 0 ==> ({
                let f = final(reg).flows@[k];
                &&& final(reg).flows@.len() == old(reg).flows@.len()
                &&& (forall|j: int| 0 <= j < old(reg).flows@.len() && j != k
                    ==> #[trigger] final(reg).flows@[j] == old(reg).flows@[j])
                &&& f.status is Completed
                &&& f.result_account_id == Some(account_id)
                &&& f.id == old(reg).flows@[k].id
                &&& f.state == old(reg).flows@[k].state
                &&& f.code_verifier == old(reg).flows@[k].code_verifier
                &&& f.created_at == old(reg).flows@[k].created_at
                &&& f.authorization_url == old(reg).flows@[k].authorization_url
                &&& f.callback_url == old(reg).flows@[k].callback_url
            }))
        }),
{
    proof {
        lemma_first_where_bounds(reg.flows@, flow_id_is(flow_id@));
        if flow_idx(reg.flows@, flow_id@) >= 0 {
            assert(flow_id_is(flow_id@)(reg.flows@[flow_idx(reg.flows@, flow_id@)]));
        }
    }
    match find_flow_index(&reg.flows, flow_id) {
        None => {},
        Some(k) => {
            let mut updated = reg.flows[k].duplicate();
            updated.status = OauthFlowStatus::Completed;
            updated.result_account_id = Some(account_id);
            reg.flows[k] = updated;
        },
    }
}

/// Marks the flow failed with a message; terminal, never retried here.
/// A flow that vanished is left alone.
pub fn fail_flow(reg: &mut FlowRegistry, flow_id: &str, message: String)
    ensures
        ({
            let k = flow_idx(old(reg).flows@, flow_id@);
            &&& (k == -1 ==> *final(reg) == *old(reg))
            &&& (k >= 0 ==> ({
                let f = final(reg).flows@[k];
                &&& final(reg).flows@.len() == old(reg).flows@.len()
                &&& (forall|j: int| 0 <= j < old(reg).flows@.len() && j != k
                    ==> #[trigger] final(reg).flows@[j] == old(reg).flows@[j])
                &&& f.status == OauthFlowStatus::Error(message)
                &&& f.id == old(reg).flows@[k].id
                &&& f.state == old(reg).flows@[k].state
                &&& f.code_verifier == old(reg).flows@[k].code_verifier
                &&& f.created_at == old(reg).flows@[k].created_at
                &&& f.authorization_url == old(reg).flows@[k].authorization_url
                &&& f.callback_url == old(reg).flows@[k].callback_url
                &&& f.result_account_id == old(reg).flows@[k].result_account_id
            }))
        }),
{
    proof {
        lemma_first_where_bounds(reg.flows@, flow_id_is(flow_id@));
        if flow_idx(reg.flows@, flow_id@) >= 0 {
            assert(flow_id_is(flow_id@)(reg.flows@[flow_idx(reg.flows@, flow_id@)]));
        }
    }
    match find_flow_index(&reg.flows, flow_id) {
        None => {},
        Some(k) => {
            let mut updated = reg.flows[k].duplicate();
            updated.status = OauthFlowStatus::Error(message);
            reg.flows[k] = updated;
        },
    }
}

/// The status word shown to callers.
pub open spec fn spec_flow_status_text(s: OauthFlowStatus) -> Seq<char> {
    match s {
        OauthFlowStatus::WaitingCallback => "waiting_callback"@,
        OauthFlowStatus::Exchanging => "exchanging"@,
        OauthFlowStatus::Completed => "completed"@,
        OauthFlowStatus::Error(_) => "error"@,
    }
}

pub fn flow_status_text(status: &OauthFlowStatus) -> (r: String)
    ensures
        r@ == spec_flow_status_text(*status),
{
    match status {
        OauthFlowStatus::WaitingCallback => String::from_str("waiting_callback"),
        OauthFlowStatus::Exchanging => String::from_str("exchanging"),
        OauthFlowStatus::Completed => String::from_str("completed"),
        OauthFlowStatus::Error(_) => String::from_str("error"),
    }
}

pub struct OauthFlowResponse {
    pub flow_id: String,
    pub authorization_url: String,
    pub callback_url: Option<String>,
    pub created_at: i64,
    pub status: String,
    pub error: Option<String>,
    pub account: Option<Account>,
}

/// A flow's outward snapshot: its fields, the status word, the error
/// message when failed, and the account it produced when that account
/// still exists in the store.
pub fn flow_to_response(flow: &OauthFlow, data: &AppData) -> (r: OauthFlowResponse)
    ensures
        r.flow_id == flow.id,
        r.authorization_url == flow.authorization_url,
        r.callback_url == flow.callback_url,
        r.created_at == flow.created_at,
        r.status@ == spec_flow_status_text(flow.status),
        r.error == (match flow.status {
            OauthFlowStatus::Error(m) => Some(m),
            _ => None::<String>,
        }),
        (match flow.result_account_id {
            None => r.account is None,
            Some(aid) => {
                let k = account_idx(data.accounts@, aid@);
                &&& (k == -1 ==> r.account is None)
                &&& (k >= 0 ==> r.account == Some(data.accounts@[k]))
            },
        }),
{
    let error = match &flow.status {
        OauthFlowStatus::Error(m) => Some(m.clone()),
        _ => None,
    };
    let account = match &flow.result_account_id {
        None => None,
        Some(aid) => {
            proof {
                crate::data::lemma_account_idx(data.accounts@, aid@);
            }
            match crate::data::find_account_index(&data.accounts, aid.as_str()) {
                None => None,
                Some(i) => Some(data.accounts[i].duplicate()),
            }
        },
    };
    OauthFlowResponse {
        flow_id: flow.id.clone(),
        authorization_url: flow.authorization_url.clone(),
        callback_url: dup_opt_string(&flow.callback_url),
        created_at: flow.created_at,
        status: flow_status_text(&flow.status),
        error,
        account,
    }
}

/// Looks a flow up by id and reports its snapshot.
pub fn get_oauth_flow_status(reg: &FlowRegistry, data: &AppData, flow_id: &str) -> (r: Result<
    OauthFlowResponse,
    String,
>)
    ensures
        (r is Ok) == (flow_idx(reg.flows@, flow_id@) >= 0),
        r matches Err(m) ==> m@ == "OAuth flow not found"@,
        r matches Ok(resp) ==> ({
            let f = reg.flows@[flow_idx(reg.flows@, flow_id@)];
            &&& resp.flow_id == f.id
            &&& resp.authorization_url == f.authorization_url
            &&& resp.callback_url == f.callback_url
            &&& resp.created_at == f.created_at
            &&& resp.status@ == spec_flow_status_text(f.status)
            &&& resp.error == (match f.status {
                OauthFlowStatus::Error(m) => Some(m),
                _ => None::<String>,
            })
            &&& (match f.result_account_id {
                None => resp.account is None,
                Some(aid) => {
                    let k = account_idx(data.accounts@, aid@);
                    &&& (k == -1 ==> resp.account is None)
                    &&& (k >= 0 ==> resp.account == Some(data.accounts@[k]))
                },
            })
        }),
{
    match find_flow_index(&reg.flows, flow_id) {
        None => Err(String::from_str("OAuth flow not found")),
        Some(k) => {
            let flow = reg.flows[k].duplicate();
            Ok(flow_to_response(&flow, data))
        },
    }
}

} // verus!
