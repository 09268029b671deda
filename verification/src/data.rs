//! The persisted aggregate: accounts, proxies, the active ids, and the
//! store operations that mutate them. The well-formedness invariant is
//! the weak-reference discipline: an active id always names an entry
//! that exists.

use vstd::prelude::*;
use vstd::string::*;
use crate::seqx::{first_where, lemma_first_where_bounds, lemma_first_where_is};
use crate::strutil::eq_str;

verus! {

#[derive(Clone, Debug)]
pub struct Tokens {
    pub id_token: String,
    pub access_token: String,
    pub refresh_token: String,
}

#[derive(Clone, Debug)]
pub struct QuotaWindow {
    /// The decimal text of the reported percentage, kept verbatim.
    pub used_percent: Option<String>,
    pub limit_window_seconds: Option<i64>,
    pub reset_at: Option<i64>,
    pub fetched_at: Option<i64>,
}

#[derive(Clone, Debug)]
pub struct QuotaInfo {
    pub plan_type: Option<String>,
    pub primary: QuotaWindow,
    pub secondary: QuotaWindow,
    pub fetched_at: i64,
}

#[derive(Clone, Debug)]
pub struct Account {
    pub id: String,
    pub email: Option<String>,
    pub account_id: Option<String>,
    pub tokens: Tokens,
    pub quota: Option<QuotaInfo>,
    pub created_at: i64,
    pub last_login_at: i64,
    pub last_error: Option<String>,
}

#[derive(Clone, Debug)]
pub struct ProxyEntry {
    pub id: String,
    pub login: String,
    pub password: String,
    pub host: String,
    pub port: u16,
    pub raw: String,
    pub last_latency_ms: Option<u64>,
    pub last_status: Option<String>,
    pub last_checked_at: Option<i64>,
}

#[derive(Clone, Debug)]
pub struct AppData {
    pub accounts: Vec<Account>,
    pub active_account_id: Option<String>,
    pub proxies: Vec<ProxyEntry>,
    pub active_proxy_id: Option<String>,
    pub limits_base_url: String,
    pub preferred_ide: Option<String>,
}

#[derive(Clone, Debug)]
pub struct ProxyTestResult {
    pub proxy_id: String,
    pub reachable: bool,
    pub latency_ms: Option<u64>,
    pub checked_at: i64,
    pub error: Option<String>,
}

/// A copy of an optional string whose value is known to the verifier.
pub fn dup_opt_string(o: &Option<String>) -> (r: Option<String>)
    ensures
        r == *o,
{
    match o {
        Some(s) => Some(s.clone()),
        None => None,
    }
}

impl Tokens {
    pub fn duplicate(&self) -> (r: Tokens)
        ensures
            r == *self,
    {
        Tokens {
            id_token: self.id_token.clone(),
            access_token: self.access_token.clone(),
            refresh_token: self.refresh_token.clone(),
        }
    }
}

impl Default for Tokens {
    /// Three empty token strings.
    fn default() -> (r: Tokens)
        ensures
            r.id_token@.len() == 0,
            r.access_token@.len() == 0,
            r.refresh_token@.len() == 0,
    {
        Tokens { id_token: String::new(), access_token: String::new(), refresh_token: String::new() }
    }
}

impl QuotaWindow {
    pub open spec fn is_empty(self) -> bool {
        self.used_percent is None && self.limit_window_seconds is None && self.reset_at is None
            && self.fetched_at is None
    }

    pub fn duplicate(&self) -> (r: QuotaWindow)
        ensures
            r == *self,
    {
        QuotaWindow {
            used_percent: dup_opt_string(&self.used_percent),
            limit_window_seconds: self.limit_window_seconds,
            reset_at: self.reset_at,
            fetched_at: self.fetched_at,
        }
    }
}

impl Default for QuotaWindow {
    /// Every field absent.
    fn default() -> (r: QuotaWindow)
        ensures
            r.is_empty(),
    {
        QuotaWindow { used_percent: None, limit_window_seconds: None, reset_at: None, fetched_at: None }
    }
}

impl QuotaInfo {
    pub fn duplicate(&self) -> (r: QuotaInfo)
        ensures
            r == *self,
    {
        QuotaInfo {
            plan_type: dup_opt_string(&self.plan_type),
            primary: self.primary.duplicate(),
            secondary: self.secondary.duplicate(),
            fetched_at: self.fetched_at,
        }
    }
}

impl Account {
    pub fn duplicate(&self) -> (r: Account)
        ensures
            r == *self,
    {
        Account {
            id: self.id.clone(),
            email: dup_opt_string(&self.email),
            account_id: dup_opt_string(&self.account_id),
            tokens: self.tokens.duplicate(),
            quota: match &self.quota {
                Some(q) => Some(q.duplicate()),
                None => None,
            },
            created_at: self.created_at,
            last_login_at: self.last_login_at,
            last_error: dup_opt_string(&self.last_error),
        }
    }
}

impl ProxyEntry {
    pub fn duplicate(&self) -> (r: ProxyEntry)
        ensures
            r == *self,
    {
        ProxyEntry {
            id: self.id.clone(),
            login: self.login.clone(),
            password: self.password.clone(),
            host: self.host.clone(),
            port: self.port,
            raw: self.raw.clone(),
            last_latency_ms: self.last_latency_ms,
            last_status: dup_opt_string(&self.last_status),
            last_checked_at: self.last_checked_at,
        }
    }
}

pub open spec fn has_account(s: Seq<Account>, id: Seq<char>) -> bool {
    exists|i: int| 0 <= i < s.len() && s[i].id@ == id
}

/// The predicate "this account carries `id`".
pub open spec fn account_id_is(id: Seq<char>) -> spec_fn(Account) -> bool {
    |a: Account| a.id@ == id
}

/// The predicate "this account does not carry `id`".
pub open spec fn account_id_is_not(id: Seq<char>) -> spec_fn(Account) -> bool {
    |a: Account| a.id@ != id
}

pub open spec fn account_idx(s: Seq<Account>, id: Seq<char>) -> int {
    first_where(s, account_id_is(id))
}

pub open spec fn has_proxy(s: Seq<ProxyEntry>, id: Seq<char>) -> bool {
    exists|i: int| 0 <= i < s.len() && s[i].id@ == id
}

/// The predicate "this proxy carries `id`".
pub open spec fn proxy_id_is(id: Seq<char>) -> spec_fn(ProxyEntry) -> bool {
    |p: ProxyEntry| p.id@ == id
}

/// The predicate "this proxy does not carry `id`".
pub open spec fn proxy_id_is_not(id: Seq<char>) -> spec_fn(ProxyEntry) -> bool {
    |p: ProxyEntry| p.id@ != id
}

pub open spec fn proxy_idx(s: Seq<ProxyEntry>, id: Seq<char>) -> int {
    first_where(s, proxy_id_is(id))
}

pub proof fn lemma_account_idx(s: Seq<Account>, id: Seq<char>)
    ensures
        -1 <= account_idx(s, id) < s.len(),
        account_idx(s, id) >= 0 <==> has_account(s, id),
        account_idx(s, id) >= 0 ==> s[account_idx(s, id)].id@ == id && forall|j: int|
            0 <= j < account_idx(s, id) ==> s[j].id@ != id,
{
    lemma_first_where_bounds(s, account_id_is(id));
    if account_idx(s, id) >= 0 {
        assert(account_id_is(id)(s[account_idx(s, id)]));
        assert(has_account(s, id));
    } else if has_account(s, id) {
        let i = choose|i: int| 0 <= i < s.len() && s[i].id@ == id;
        assert(account_id_is(id)(s[i]));
    }
}

pub proof fn lemma_proxy_idx(s: Seq<ProxyEntry>, id: Seq<char>)
    ensures
        -1 <= proxy_idx(s, id) < s.len(),
        proxy_idx(s, id) >= 0 <==> has_proxy(s, id),
        proxy_idx(s, id) >= 0 ==> s[proxy_idx(s, id)].id@ == id && forall|j: int|
            0 <= j < proxy_idx(s, id) ==> s[j].id@ != id,
{
    lemma_first_where_bounds(s, proxy_id_is(id));
    if proxy_idx(s, id) >= 0 {
        assert(proxy_id_is(id)(s[proxy_idx(s, id)]));
        assert(has_proxy(s, id));
    } else if has_proxy(s, id) {
        let i = choose|i: int| 0 <= i < s.len() && s[i].id@ == id;
        assert(proxy_id_is(id)(s[i]));
    }
}

impl AppData {
    /// The weak-reference discipline: an active id, when present, names
    /// an entry of the matching collection.
    pub open spec fn wf(self) -> bool {
        &&& (match self.active_account_id {
            Some(id) => has_account(self.accounts@, id@),
            None => true,
        })
        &&& (match self.active_proxy_id {
            Some(id) => has_proxy(self.proxies@, id@),
            None => true,
        })
    }
}

impl Default for AppData {
    /// No accounts or proxies, no active ids, and the fixed default
    /// base URL for quota queries.
    fn default() -> (r: AppData)
        ensures
            r.accounts@.len() == 0,
            r.active_account_id is None,
            r.proxies@.len() == 0,
            r.active_proxy_id is None,
            r.limits_base_url@ == "https://chatgpt.com/backend-api"@,
            r.preferred_ide is None,
            r.wf(),
    {
        AppData {
            accounts: Vec::new(),
            active_account_id: None,
            proxies: Vec::new(),
            active_proxy_id: None,
            limits_base_url: String::from_str("https://chatgpt.com/backend-api"),
            preferred_ide: None,
        }
    }
}

/// Position of the first account with the given id.
pub fn find_account_index(accounts: &Vec<Account>, id: &str) -> (r: Option<usize>)
    ensures
        match r {
            Some(i) => i == account_idx(accounts@, id@) && i < accounts@.len(),
            None => account_idx(accounts@, id@) == -1,
        },
{
    let n: usize = accounts.len();
    let mut i: usize = 0;
    while i < n
        invariant
            n == accounts@.len(),
            0 <= i <= n,
            forall|j: int| 0 <= j < i ==> accounts@[j].id@ != id@,
        decreases n - i,
    {
        if eq_str(accounts[i].id.as_str(), id) {
            proof {
                lemma_first_where_is(accounts@, account_id_is(id@), i as int);
                assert(account_id_is(id@)(accounts@[i as int]));
            }
            return Some(i);
        }
        i = i + 1;
    }
    proof {
        lemma_account_idx(accounts@, id@);
    }
    None
}

/// Position of the first proxy with the given id.
pub fn find_proxy_index(proxies: &Vec<ProxyEntry>, id: &str) -> (r: Option<usize>)
    ensures
        match r {
            Some(i) => i == proxy_idx(proxies@, id@) && i < proxies@.len(),
            None => proxy_idx(proxies@, id@) == -1,
        },
{
    let n: usize = proxies.len();
    let mut i: usize = 0;
    while i < n
        invariant
            n == proxies@.len(),
            0 <= i <= n,
            forall|j: int| 0 <= j < i ==> proxies@[j].id@ != id@,
        decreases n - i,
    {
        if eq_str(proxies[i].id.as_str(), id) {
            proof {
                lemma_first_where_is(proxies@, proxy_id_is(id@), i as int);
                assert(proxy_id_is(id@)(proxies@[i as int]));
            }
            return Some(i);
        }
        i = i + 1;
    }
    proof {
        lemma_proxy_idx(proxies@, id@);
    }
    None
}

/// The entry the active proxy id names, if any: the first with that id.
pub fn active_proxy(data: &AppData) -> (r: Option<ProxyEntry>)
    ensures
        match r {
            Some(p) => (match data.active_proxy_id {
                Some(id) => proxy_idx(data.proxies@, id@) >= 0 && p == data.proxies@[proxy_idx(
                    data.proxies@,
                    id@,
                )],
                None => false,
            }),
            None => (match data.active_proxy_id {
                Some(id) => proxy_idx(data.proxies@, id@) == -1,
                None => true,
            }),
        },
{
    match &data.active_proxy_id {
        None => None,
        Some(id) => {
            match find_proxy_index(&data.proxies, id.as_str()) {
                Some(i) => Some(data.proxies[i].duplicate()),
                None => None,
            }
        },
    }
}

/// A fresh account from a successful exchange, appended to the store;
/// it becomes active when nothing was active before.
pub fn upsert_account(
    data: &mut AppData,
    tokens: Tokens,
    email: Option<String>,
    account_id: Option<String>,
    new_id: String,
    now: i64,
) -> (r: Account)
    ensures
        r.id == new_id,
        r.email == email,
        r.account_id == account_id,
        r.tokens == tokens,
        r.quota is None,
        r.created_at == now,
        r.last_login_at == now,
        r.last_error is None,
        final(data).accounts@ == old(data).accounts@.push(r),
        final(data).active_account_id == (if old(data).active_account_id is None {
            Some(r.id)
        } else {
            old(data).active_account_id
        }),
        final(data).proxies == old(data).proxies,
        final(data).active_proxy_id == old(data).active_proxy_id,
        final(data).limits_base_url == old(data).limits_base_url,
        final(data).preferred_ide == old(data).preferred_ide,
        old(data).wf() ==> final(data).wf(),
{
    let account = Account {
        id: new_id,
        email,
        account_id,
        tokens,
        quota: None,
        created_at: now,
        last_login_at: now,
        last_error: None,
    };
    let result = account.duplicate();
    data.accounts.push(account);
    let is_none = data.active_account_id.is_none();
    if is_none {
        data.active_account_id = Some(result.id.clone());
    }
    proof {
        let s = data.accounts@;
        assert(s[s.len() - 1].id@ == result.id@);
        if old(data).wf() {
            match old(data).active_account_id {
                Some(id) => {
                    let i = choose|i: int|
                        0 <= i < old(data).accounts@.len() && old(data).accounts@[i].id@ == id@;
                    assert(s[i].id@ == id@);
                },
                None => {},
            }
        }
    }
    result
}

/// Removes every account with the given id; an unknown id is rejected
/// untouched. When the active account is removed, the first remaining
/// account becomes active, or none is.
pub fn remove_account(data: &mut AppData, account_id: &str) -> (r: Result<(), String>)
    ensures
        (r is Ok) == has_account(old(data).accounts@, account_id@),
        r matches Err(m) ==> m@ == "Account not found"@ && *final(data) == *old(data),
        r is Ok ==> final(data).accounts@ == old(data).accounts@.filter(
            account_id_is_not(account_id@),
        ),
        r is Ok ==> (match old(data).active_account_id {
            Some(aid) => if aid@ == account_id@ {
                (final(data).accounts@.len() == 0 ==> final(data).active_account_id is None)
                    && (final(data).accounts@.len() > 0 ==> (final(data).active_account_id matches
                Some(x) && x@ == final(data).accounts@[0].id@))
            } else {
                final(data).active_account_id == old(data).active_account_id
            },
            None => final(data).active_account_id is None,
        }),
        final(data).proxies == old(data).proxies,
        final(data).active_proxy_id == old(data).active_proxy_id,
        final(data).limits_base_url == old(data).limits_base_url,
        final(data).preferred_ide == old(data).preferred_ide,
        old(data).wf() ==> final(data).wf(),
{
    proof {
        lemma_account_idx(data.accounts@, account_id@);
    }
    if find_account_index(&data.accounts, account_id).is_none() {
        return Err(String::from_str("Account not found"));
    }
    let ghost pred = account_id_is_not(account_id@);
    let n: usize = data.accounts.len();
    let mut kept: Vec<Account> = Vec::new();
    let mut i: usize = 0;
    while i < n
        invariant
            n == data.accounts@.len(),
            0 <= i <= n,
            pred == account_id_is_not(account_id@),
            kept@ == data.accounts@.take(i as int).filter(pred),
        decreases n - i,
    {
        let keep = !eq_str(data.accounts[i].id.as_str(), account_id);
        proof {
            reveal_with_fuel(Seq::filter, 2);
            let t = data.accounts@.take(i + 1);
            assert(t.drop_last() =~= data.accounts@.take(i as int));
            assert(t.last() == data.accounts@[i as int]);
            assert(pred(t.last()) == keep);
            assert(t.filter(pred) == if keep {
                t.drop_last().filter(pred).push(t.last())
            } else {
                t.drop_last().filter(pred)
            });
        }
        if keep {
            kept.push(data.accounts[i].duplicate());
        }
        i = i + 1;
    }
    proof {
        assert(data.accounts@.take(n as int) =~= data.accounts@);
    }
    data.accounts = kept;
    let was_active = match &data.active_account_id {
        Some(aid) => eq_str(aid.as_str(), account_id),
        None => false,
    };
    if was_active {
        if data.accounts.len() == 0 {
            data.active_account_id = None;
        } else {
            data.active_account_id = Some(data.accounts[0].id.clone());
        }
    }
    let result: Result<(), String> = Ok(());
    proof {
        let remaining = data.accounts@;
        if old(data).wf() {
            match old(data).active_account_id {
                Some(aid) => {
                    if aid@ != account_id@ {
                        let i = choose|i: int|
                            0 <= i < old(data).accounts@.len() && old(data).accounts@[i].id@
                                == aid@;
                        assert(pred(old(data).accounts@[i]));
                        old(data).accounts@.lemma_filter_contains(pred, i);
                        let j = choose|j: int|
                            0 <= j < remaining.len() && remaining[j] == old(data).accounts@[i];
                        assert(remaining[j].id@ == aid@);
                    } else {
                        if remaining.len() > 0 {
                            assert(has_account(remaining, remaining[0].id@));
                        }
                    }
                },
                None => {},
            }
        }
    }
    result
}

/// Marks an existing account active; rejects an unknown id untouched.
pub fn set_active_account_id(data: &mut AppData, account_id: String) -> (r: Result<(), String>)
    ensures
        r is Ok <==> has_account(old(data).accounts@, account_id@),
        r is Ok ==> final(data).active_account_id == Some(account_id),
        r is Ok ==> final(data).accounts == old(data).accounts,
        r is Ok ==> final(data).proxies == old(data).proxies,
        r is Ok ==> final(data).active_proxy_id == old(data).active_proxy_id,
        r is Ok ==> final(data).limits_base_url == old(data).limits_base_url,
        r is Ok ==> final(data).preferred_ide == old(data).preferred_ide,
        r matches Err(m) ==> m@ == "Account not found"@ && *final(data) == *old(data),
        old(data).wf() && r is Ok ==> final(data).wf(),
{
    proof {
        lemma_account_idx(data.accounts@, account_id@);
    }
    match find_account_index(&data.accounts, account_id.as_str()) {
        None => Err(String::from_str("Account not found")),
        Some(_) => {
            data.active_account_id = Some(account_id);
            Ok(())
        },
    }
}

/// How one account changes under a quota-refresh outcome: a success
/// replaces the snapshot and clears the error; a failure only records it.
pub open spec fn with_quota_result(a: Account, r: Result<QuotaInfo, String>) -> Account {
    match r {
        Ok(q) => Account {
            id: a.id,
            email: a.email,
            account_id: a.account_id,
            tokens: a.tokens,
            quota: Some(q),
            created_at: a.created_at,
            last_login_at: a.last_login_at,
            last_error: None,
        },
        Err(e) => Account {
            id: a.id,
            email: a.email,
            account_id: a.account_id,
            tokens: a.tokens,
            quota: a.quota,
            created_at: a.created_at,
            last_login_at: a.last_login_at,
            last_error: Some(e),
        },
    }
}

/// Applies one quota-refresh outcome to the account it targets; an account
/// that vanished in between is an error, and nothing changes.
pub fn apply_quota_result(
    data: &mut AppData,
    account_id: &str,
    result: Result<QuotaInfo, String>,
) -> (r: Result<Account, String>)
    ensures
        ({
            let k = account_idx(old(data).accounts@, account_id@);
            &&& (k == -1 ==> (r matches Err(m) && m@ == "Account disappeared during update"@
                && *final(data) == *old(data)))
            &&& (k >= 0 ==> {
                let updated = with_quota_result(old(data).accounts@[k], result);
                &&& r == Ok::<Account, String>(updated)
                &&& final(data).accounts@ == old(data).accounts@.update(k, updated)
                &&& final(data).active_account_id == old(data).active_account_id
                &&& final(data).proxies == old(data).proxies
                &&& final(data).active_proxy_id == old(data).active_proxy_id
                &&& final(data).limits_base_url == old(data).limits_base_url
                &&& final(data).preferred_ide == old(data).preferred_ide
            })
            &&& (old(data).wf() ==> final(data).wf())
        }),
{
    proof {
        lemma_account_idx(data.accounts@, account_id@);
    }
    match find_account_index(&data.accounts, account_id) {
        None => Err(String::from_str("Account disappeared during update")),
        Some(k) => {
            let mut updated = data.accounts[k].duplicate();
            match result {
                Ok(q) => {
                    updated.quota = Some(q);
                    updated.last_error = None;
                },
                Err(e) => {
                    updated.last_error = Some(e);
                },
            }
            let out = updated.duplicate();
            data.accounts[k] = updated;
            proof {
                if old(data).wf() {
                    match old(data).active_account_id {
                        Some(aid) => {
                            let i = choose|i: int|
                                0 <= i < old(data).accounts@.len() && old(data).accounts@[i].id@
                                    == aid@;
                            assert(data.accounts@[i].id@ == aid@);
                        },
                        None => {},
                    }
                }
            }
            Ok(out)
        },
    }
}

/// The predicate "this outcome names `id`".
pub open spec fn update_id_is(id: Seq<char>) -> spec_fn((String, Result<QuotaInfo, String>)) -> bool {
    |u: (String, Result<QuotaInfo, String>)| u.0@ == id
}

pub open spec fn update_idx(us: Seq<(String, Result<QuotaInfo, String>)>, id: Seq<char>) -> int {
    first_where(us, update_id_is(id))
}

/// What one account becomes under a batch of per-id outcomes: untouched
/// when no outcome names it, else updated by the first that does.
pub open spec fn applied_update(
    a: Account,
    us: Seq<(String, Result<QuotaInfo, String>)>,
) -> Account {
    let k = update_idx(us, a.id@);
    if k < 0 {
        a
    } else {
        with_quota_result(a, us[k].1)
    }
}

/// Position of the first outcome naming the given id.
fn find_update_index(us: &Vec<(String, Result<QuotaInfo, String>)>, id: &str) -> (r: Option<usize>)
    ensures
        match r {
            Some(i) => i == update_idx(us@, id@) && i < us@.len(),
            None => update_idx(us@, id@) == -1,
        },
{
    let n: usize = us.len();
    let mut i: usize = 0;
    while i < n
        invariant
            n == us@.len(),
            0 <= i <= n,
            forall|j: int| 0 <= j < i ==> us@[j].0@ != id@,
        decreases n - i,
    {
        if eq_str(us[i].0.as_str(), id) {
            proof {
                lemma_first_where_is(us@, update_id_is(id@), i as int);
                assert(update_id_is(id@)(us@[i as int]));
            }
            return Some(i);
        }
        i = i + 1;
    }
    proof {
        lemma_first_where_bounds(us@, update_id_is(id@));
        if update_idx(us@, id@) >= 0 {
            assert(update_id_is(id@)(us@[update_idx(us@, id@)]));
        }
    }
    None
}

/// Applies a batch of per-id quota outcomes. Accounts no outcome names are
/// untouched; outcomes naming a vanished account are silently skipped.
pub fn apply_quota_results(data: &mut AppData, updates: &Vec<(String, Result<QuotaInfo, String>)>)
    ensures
        final(data).accounts@.len() == old(data).accounts@.len(),
        forall|i: int| 0 <= i < old(data).accounts@.len() ==> #[trigger] final(data).accounts@[i]
            == applied_update(old(data).accounts@[i], updates@),
        final(data).active_account_id == old(data).active_account_id,
        final(data).proxies == old(data).proxies,
        final(data).active_proxy_id == old(data).active_proxy_id,
        final(data).limits_base_url == old(data).limits_base_url,
        final(data).preferred_ide == old(data).preferred_ide,
        old(data).wf() ==> final(data).wf(),
{
    let n: usize = data.accounts.len();
    let mut i: usize = 0;
    while i < n
        invariant
            n == data.accounts@.len(),
            n == old(data).accounts@.len(),
            0 <= i <= n,
            forall|j: int| i <= j < n ==> #[trigger] data.accounts@[j] == old(data).accounts@[j],
            forall|j: int| 0 <= j < i ==> #[trigger] data.accounts@[j] == applied_update(
                old(data).accounts@[j],
                updates@,
            ),
            data.active_account_id == old(data).active_account_id,
            data.proxies == old(data).proxies,
            data.active_proxy_id == old(data).active_proxy_id,
            data.limits_base_url == old(data).limits_base_url,
            data.preferred_ide == old(data).preferred_ide,
        decreases n - i,
    {
        let found = find_update_index(updates, data.accounts[i].id.as_str());
        match found {
            None => {},
            Some(k) => {
                let mut updated = data.accounts[i].duplicate();
                match &updates[k].1 {
                    Ok(q) => {
                        updated.quota = Some(q.duplicate());
                        updated.last_error = None;
                    },
                    Err(e) => {
                        updated.last_error = Some(e.clone());
                    },
                }
                data.accounts[i] = updated;
            },
        }
        i = i + 1;
    }
    proof {
        if old(data).wf() {
            match old(data).active_account_id {
                Some(aid) => {
                    let k = choose|k: int|
                        0 <= k < old(data).accounts@.len() && old(data).accounts@[k].id@ == aid@;
                    assert(data.accounts@[k] == applied_update(
                        old(data).accounts@[k],
                        updates@,
                    ));
                    assert(data.accounts@[k].id@ == aid@);
                },
                None => {},
            }
        }
    }
}

/// Applies one proxy-probe outcome to the proxy it targets; a proxy that
/// vanished in between is an error, and nothing changes.
pub fn apply_proxy_test(
    data: &mut AppData,
    proxy_id: String,
    ping: Result<u64, String>,
    checked_at: i64,
) -> (r: Result<ProxyTestResult, String>)
    ensures
        ({
            let k = proxy_idx(old(data).proxies@, proxy_id@);
            &&& (k == -1 ==> (r matches Err(m) && m@ == "Proxy disappeared during update"@
                && *final(data) == *old(data)))
            &&& (k >= 0 ==> {
                let p = old(data).proxies@[k];
                &&& final(data).accounts == old(data).accounts
                &&& final(data).active_account_id == old(data).active_account_id
                &&& final(data).active_proxy_id == old(data).active_proxy_id
                &&& final(data).limits_base_url == old(data).limits_base_url
                &&& final(data).preferred_ide == old(data).preferred_ide
                &&& (match ping {
                    Ok(lat) => {
                        &&& final(data).proxies@[k].id == p.id
                        &&& final(data).proxies@[k].last_latency_ms == Some(lat)
                        &&& final(data).proxies@[k].last_status matches Some(st) && st@ == "ok"@
                        &&& final(data).proxies@[k].last_checked_at == Some(checked_at)
                        &&& r matches Ok(t) && t.proxy_id == proxy_id && t.reachable
                            && t.latency_ms == Some(lat) && t.checked_at == checked_at
                            && t.error is None
                    },
                    Err(e) => {
                        &&& final(data).proxies@[k].id == p.id
                        &&& final(data).proxies@[k].last_latency_ms is None
                        &&& final(data).proxies@[k].last_status matches Some(st) && st@
                            == "error"@
                        &&& final(data).proxies@[k].last_checked_at == Some(checked_at)
                        &&& r matches Ok(t) && t.proxy_id == proxy_id && !t.reachable
                            && t.latency_ms is None && t.checked_at == checked_at && t.error
                            == Some(e)
                    },
                })
                &&& (forall|j: int| 0 <= j < old(data).proxies@.len() && j != k
                    ==> #[trigger] final(data).proxies@[j] == old(data).proxies@[j])
                &&& final(data).proxies@.len() == old(data).proxies@.len()
            })
            &&& (old(data).wf() ==> final(data).wf())
        }),
{
    proof {
        lemma_proxy_idx(data.proxies@, proxy_id@);
    }
    match find_proxy_index(&data.proxies, proxy_id.as_str()) {
        None => Err(String::from_str("Proxy disappeared during update")),
        Some(k) => {
            let mut updated = data.proxies[k].duplicate();
            let out = match ping {
                Ok(latency) => {
                    updated.last_latency_ms = Some(latency);
                    updated.last_status = Some(String::from_str("ok"));
                    updated.last_checked_at = Some(checked_at);
                    ProxyTestResult {
                        proxy_id,
                        reachable: true,
                        latency_ms: Some(latency),
                        checked_at,
                        error: None,
                    }
                },
                Err(err) => {
                    updated.last_latency_ms = None;
                    updated.last_status = Some(String::from_str("error"));
                    updated.last_checked_at = Some(checked_at);
                    ProxyTestResult {
                        proxy_id,
                        reachable: false,
                        latency_ms: None,
                        checked_at,
                        error: Some(err),
                    }
                },
            };
            data.proxies[k] = updated;
            proof {
                if old(data).wf() {
                    match old(data).active_proxy_id {
                        Some(pid) => {
                            let i = choose|i: int|
                                0 <= i < old(data).proxies@.len() && old(data).proxies@[i].id@
                                    == pid@;
                            assert(final(data).proxies@[i].id@ == pid@);
                        },
                        None => {},
                    }
                    match old(data).active_account_id {
                        Some(aid) => {
                            assert(has_account(data.accounts@, aid@));
                        },
                        None => {},
                    }
                }
            }
            Ok(out)
        },
    }
}

} // verus!
