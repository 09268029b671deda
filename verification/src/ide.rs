//! Editor reload: the supported targets, the scripts a platform shell is
//! handed, and the reading of what came back. Running a process stands
//! outside the library; the decisions are made here from its outcome.

use vstd::prelude::*;
use vstd::string::*;
use crate::data::{has_account, lemma_account_idx, AppData};
use crate::strutil::{eq_ignore_case, eq_str, ic_eq, trimmed, trim_ws};

verus! {

/// The canonical name each accepted target answer maps to, compared
/// without regard to ASCII case after trimming.
pub open spec fn spec_normalize_ide(input: Seq<char>) -> Option<Seq<char>> {
    let t = trimmed(input);
    if ic_eq(t, "vscode"@) || ic_eq(t, "code"@) {
        Some("vscode"@)
    } else if ic_eq(t, "cursor"@) {
        Some("cursor"@)
    } else if ic_eq(t, "windsurf"@) {
        Some("windsurf"@)
    } else if ic_eq(t, "trae"@) {
        Some("trae"@)
    } else if ic_eq(t, "vscodium"@) || ic_eq(t, "codium"@) {
        Some("vscodium"@)
    } else if ic_eq(t, "zed"@) {
        Some("zed"@)
    } else {
        None
    }
}

/// The canonical editor target named by the input, if any.
pub fn normalize_ide_target(input: &str) -> (r: Option<String>)
    ensures
        match r {
            Some(v) => spec_normalize_ide(input@) == Some(v@),
            None => spec_normalize_ide(input@) is None,
        },
{
    let t = trim_ws(input);
    if eq_ignore_case(t, "vscode") || eq_ignore_case(t, "code") {
        Some(String::from_str("vscode"))
    } else if eq_ignore_case(t, "cursor") {
        Some(String::from_str("cursor"))
    } else if eq_ignore_case(t, "windsurf") {
        Some(String::from_str("windsurf"))
    } else if eq_ignore_case(t, "trae") {
        Some(String::from_str("trae"))
    } else if eq_ignore_case(t, "vscodium") || eq_ignore_case(t, "codium") {
        Some(String::from_str("vscodium"))
    } else if eq_ignore_case(t, "zed") {
        Some(String::from_str("zed"))
    } else {
        None
    }
}

/// The six canonical target names are pairwise distinct.
pub proof fn lemma_ide_names_distinct()
    ensures
        "vscode"@ != "cursor"@,
        "vscode"@ != "windsurf"@,
        "vscode"@ != "trae"@,
        "vscode"@ != "vscodium"@,
        "vscode"@ != "zed"@,
        "cursor"@ != "windsurf"@,
        "cursor"@ != "trae"@,
        "cursor"@ != "vscodium"@,
        "cursor"@ != "zed"@,
        "windsurf"@ != "trae"@,
        "windsurf"@ != "vscodium"@,
        "windsurf"@ != "zed"@,
        "trae"@ != "vscodium"@,
        "trae"@ != "zed"@,
        "vscodium"@ != "zed"@,
{
    reveal_strlit("vscode");
    reveal_strlit("cursor");
    reveal_strlit("windsurf");
    reveal_strlit("trae");
    reveal_strlit("vscodium");
    reveal_strlit("zed");
    assert("vscode"@[0] != "cursor"@[0]);
    assert("vscode"@[0] != "windsurf"@[0]);
    assert("vscode"@[0] != "trae"@[0]);
    assert("vscode"@.len() != "vscodium"@.len());
    assert("vscode"@[0] != "zed"@[0]);
    assert("cursor"@[0] != "windsurf"@[0]);
    assert("cursor"@[0] != "trae"@[0]);
    assert("cursor"@[0] != "vscodium"@[0]);
    assert("cursor"@[0] != "zed"@[0]);
    assert("windsurf"@[0] != "trae"@[0]);
    assert("windsurf"@[0] != "vscodium"@[0]);
    assert("windsurf"@[0] != "zed"@[0]);
    assert("trae"@[0] != "vscodium"@[0]);
    assert("trae"@[0] != "zed"@[0]);
    assert("vscodium"@[0] != "zed"@[0]);
}

pub open spec fn ide_supported(ide: Seq<char>) -> bool {
    ide == "vscode"@ || ide == "cursor"@ || ide == "windsurf"@ || ide == "trae"@ || ide
        == "vscodium"@ || ide == "zed"@
}

/// The command names tried to reload a target's windows.
pub fn ide_cli_candidates(ide: &str) -> (r: Option<Vec<String>>)
    ensures
        (r is Some) == ide_supported(ide@),
        ide@ == "vscode"@ ==> (r matches Some(v) && v@.len() == 2 && v@[0]@ == "code"@ && v@[1]@
            == "code-insiders"@),
        ide@ == "cursor"@ ==> (r matches Some(v) && v@.len() == 1 && v@[0]@ == "cursor"@),
        ide@ == "windsurf"@ ==> (r matches Some(v) && v@.len() == 1 && v@[0]@ == "windsurf"@),
        ide@ == "trae"@ ==> (r matches Some(v) && v@.len() == 1 && v@[0]@ == "trae"@),
        ide@ == "vscodium"@ ==> (r matches Some(v) && v@.len() == 1 && v@[0]@ == "codium"@),
        ide@ == "zed"@ ==> (r matches Some(v) && v@.len() == 1 && v@[0]@ == "zed"@),
{
    proof {
        lemma_ide_names_distinct();
    }
    let mut v: Vec<String> = Vec::new();
    if eq_str(ide, "vscode") {
        v.push(String::from_str("code"));
        v.push(String::from_str("code-insiders"));
        Some(v)
    } else if eq_str(ide, "cursor") {
        v.push(String::from_str("cursor"));
        Some(v)
    } else if eq_str(ide, "windsurf") {
        v.push(String::from_str("windsurf"));
        Some(v)
    } else if eq_str(ide, "trae") {
        v.push(String::from_str("trae"));
        Some(v)
    } else if eq_str(ide, "vscodium") {
        v.push(String::from_str("codium"));
        Some(v)
    } else if eq_str(ide, "zed") {
        v.push(String::from_str("zed"));
        Some(v)
    } else {
        None
    }
}

/// The process names tried when restarting a target.
pub fn ide_process_names(ide: &str) -> (r: Option<Vec<String>>)
    ensures
        (r is Some) == ide_supported(ide@),
        ide@ == "vscode"@ ==> (r matches Some(v) && v@.len() == 2 && v@[0]@ == "Code"@ && v@[1]@
            == "Code - Insiders"@),
        ide@ == "cursor"@ ==> (r matches Some(v) && v@.len() == 1 && v@[0]@ == "Cursor"@),
        ide@ == "windsurf"@ ==> (r matches Some(v) && v@.len() == 1 && v@[0]@ == "Windsurf"@),
        ide@ == "trae"@ ==> (r matches Some(v) && v@.len() == 1 && v@[0]@ == "Trae"@),
        ide@ == "vscodium"@ ==> (r matches Some(v) && v@.len() == 1 && v@[0]@ == "VSCodium"@),
        ide@ == "zed"@ ==> (r matches Some(v) && v@.len() == 1 && v@[0]@ == "Zed"@),
{
    proof {
        lemma_ide_names_distinct();
    }
    let mut v: Vec<String> = Vec::new();
    if eq_str(ide, "vscode") {
        v.push(String::from_str("Code"));
        v.push(String::from_str("Code - Insiders"));
        Some(v)
    } else if eq_str(ide, "cursor") {
        v.push(String::from_str("Cursor"));
        Some(v)
    } else if eq_str(ide, "windsurf") {
        v.push(String::from_str("Windsurf"));
        Some(v)
    } else if eq_str(ide, "trae") {
        v.push(String::from_str("Trae"));
        Some(v)
    } else if eq_str(ide, "vscodium") {
        v.push(String::from_str("VSCodium"));
        Some(v)
    } else if eq_str(ide, "zed") {
        v.push(String::from_str("Zed"));
        Some(v)
    } else {
        None
    }
}

/// The names quoted and joined for a shell array: `'a','b'`.
pub open spec fn quoted_join(names: Seq<String>) -> Seq<char>
    decreases names.len(),
{
    if names.len() == 0 {
        Seq::empty()
    } else if names.len() == 1 {
        seq!['\''] + names.last()@ + seq!['\'']
    } else {
        quoted_join(names.drop_last()) + seq![','] + seq!['\''] + names.last()@ + seq!['\'']
    }
}

fn quote_names(names: &Vec<String>) -> (r: String)
    ensures
        r@ == quoted_join(names@),
{
    proof {
        reveal_strlit("'");
        reveal_strlit(",");
        assert("'"@ =~= seq!['\'']);
        assert(","@ =~= seq![',']);
        assert(names@.take(0) =~= Seq::<String>::empty());
    }
    let n: usize = names.len();
    let mut out = String::new();
    let mut i: usize = 0;
    while i < n
        invariant
            n == names@.len(),
            0 <= i <= n,
            out@ == quoted_join(names@.take(i as int)),
        decreases n - i,
    {
        let ghost pre = out@;
        proof {
            reveal_strlit("'");
            reveal_strlit(",");
            assert("'"@ =~= seq!['\'']);
            assert(","@ =~= seq![',']);
            let t = names@.take(i + 1);
            assert(t.drop_last() =~= names@.take(i as int));
            assert(t.last() == names@[i as int]);
        }
        if i > 0 {
            out.append(",");
        }
        out.append("'");
        out.append(names[i].as_str());
        out.append("'");
        proof {
            let t = names@.take(i + 1);
            if t.len() == 1 {
                assert(quoted_join(t) == seq!['\''] + t.last()@ + seq!['\'']);
                assert(out@ =~= pre + "'"@ + names@[i as int]@ + "'"@);
            } else {
                assert(quoted_join(t) == quoted_join(t.drop_last()) + seq![','] + seq!['\'']
                    + t.last()@ + seq!['\'']);
                assert(out@ =~= pre + ","@ + "'"@ + names@[i as int]@ + "'"@);
            }
            assert(out@ =~= quoted_join(t));
        }
        i = i + 1;
    }
    proof {
        assert(names@.take(n as int) =~= names@);
    }
    out
}

/// The shell script that asks each command in turn to reload its windows.
pub open spec fn reload_script_of(quoted: Seq<char>) -> Seq<char> {
    "$ErrorActionPreference='SilentlyContinue'; $cmds=@("@ + quoted
        + "); $ok=$false; foreach ($cmd in $cmds) { if (Get-Command $cmd -ErrorAction SilentlyContinue) { & $cmd --reuse-window --command workbench.action.reloadWindow | Out-Null; $ok=$true; } }; if ($ok) { exit 0 } else { exit 2 }"@
}

pub fn ide_reload_script(candidates: &Vec<String>) -> (r: String)
    ensures
        r@ == reload_script_of(quoted_join(candidates@)),
{
    let mut out = String::from_str("$ErrorActionPreference='SilentlyContinue'; $cmds=@(");
    out.append(quote_names(candidates).as_str());
    out.append(
        "); $ok=$false; foreach ($cmd in $cmds) { if (Get-Command $cmd -ErrorAction SilentlyContinue) { & $cmd --reuse-window --command workbench.action.reloadWindow | Out-Null; $ok=$true; } }; if ($ok) { exit 0 } else { exit 2 }",
    );
    out
}

/// The shell script that stops and relaunches each named process.
pub open spec fn restart_script_of(quoted: Seq<char>) -> Seq<char> {
    "$ErrorActionPreference='SilentlyContinue'; $names=@("@ + quoted
        + "); $found=$false; foreach ($name in $names) { $procs=Get-Process -Name $name -ErrorAction SilentlyContinue; foreach ($p in $procs) { $found=$true; $path=$p.Path; Stop-Process -Id $p.Id -Force -ErrorAction SilentlyContinue; if ($path) { Start-Process -WindowStyle Hidden -FilePath $path | Out-Null } } }; if ($found) { exit 0 } else { exit 2 }"@
}

pub fn ide_restart_script(names: &Vec<String>) -> (r: String)
    ensures
        r@ == restart_script_of(quoted_join(names@)),
{
    let mut out = String::from_str("$ErrorActionPreference='SilentlyContinue'; $names=@(");
    out.append(quote_names(names).as_str());
    out.append(
        "); $found=$false; foreach ($name in $names) { $procs=Get-Process -Name $name -ErrorAction SilentlyContinue; foreach ($p in $procs) { $found=$true; $path=$p.Path; Stop-Process -Id $p.Id -Force -ErrorAction SilentlyContinue; if ($path) { Start-Process -WindowStyle Hidden -FilePath $path | Out-Null } } }; if ($found) { exit 0 } else { exit 2 }",
    );
    out
}

/// What running a script came to: the launch itself failed with a
/// message, or the process exited with a code and captured error text.
pub enum CommandOutcome {
    LaunchFailed { message: String },
    Exited { code: Option<i32>, stderr: String },
}

/// The verdict a command outcome reads as.
pub enum CmdVerdict {
    Done(bool),
    Failed(Seq<char>),
}

/// Exit code 0 means work was done, 2 means no target was found; anything
/// else fails with the captured error text, or the plain message when the
/// text is blank.
pub open spec fn outcome_verdict(o: CommandOutcome, plain: Seq<char>, prefixed: Seq<char>) -> CmdVerdict {
    match o {
        CommandOutcome::LaunchFailed { message } => CmdVerdict::Failed(message@),
        CommandOutcome::Exited { code, stderr } => {
            if code == Some(0i32) {
                CmdVerdict::Done(true)
            } else if code == Some(2i32) {
                CmdVerdict::Done(false)
            } else {
                let t = trimmed(stderr@);
                if t.len() == 0 {
                    CmdVerdict::Failed(plain)
                } else {
                    CmdVerdict::Failed(prefixed + t)
                }
            }
        },
    }
}

fn read_outcome(outcome: &CommandOutcome, plain: &str, prefixed: &str) -> (r: Result<bool, String>)
    ensures
        (match outcome_verdict(*outcome, plain@, prefixed@) {
            CmdVerdict::Done(b) => r == Ok::<bool, String>(b),
            CmdVerdict::Failed(m) => (r matches Err(e) && e@ == m),
        }),
{
    match outcome {
        CommandOutcome::LaunchFailed { message } => Err(message.clone()),
        CommandOutcome::Exited { code, stderr } => {
            if *code == Some(0i32) {
                Ok(true)
            } else if *code == Some(2i32) {
                Ok(false)
            } else {
                let t = trim_ws(stderr.as_str());
                if t.unicode_len() == 0 {
                    Err(String::from_str(plain))
                } else {
                    let mut m = String::from_str(prefixed);
                    m.append(t);
                    Err(m)
                }
            }
        },
    }
}

/// Reads a reload attempt: an unsupported target is rejected; exit 0
/// reloaded a window, exit 2 found none, anything else fails with the
/// captured error text.
pub fn trigger_ide_reload_command(ide: &str, outcome: &CommandOutcome) -> (r: Result<bool, String>)
    ensures
        !ide_supported(ide@) ==> (r matches Err(m) && m@ == "Unsupported IDE target"@),
        ide_supported(ide@) ==> (match outcome_verdict(
            *outcome,
            "IDE reload command failed"@,
            "IDE reload command failed: "@,
        ) {
            CmdVerdict::Done(b) => r == Ok::<bool, String>(b),
            CmdVerdict::Failed(m) => (r matches Err(e) && e@ == m),
        }),
{
    match ide_cli_candidates(ide) {
        None => Err(String::from_str("Unsupported IDE target")),
        Some(_) => read_outcome(outcome, "IDE reload command failed", "IDE reload command failed: "),
    }
}

/// Reads a restart attempt the same way.
pub fn restart_ide_processes(ide: &str, outcome: &CommandOutcome) -> (r: Result<bool, String>)
    ensures
        !ide_supported(ide@) ==> (r matches Err(m) && m@ == "Unsupported IDE target"@),
        ide_supported(ide@) ==> (match outcome_verdict(
            *outcome,
            "IDE process restart command failed"@,
            "IDE process restart command failed: "@,
        ) {
            CmdVerdict::Done(b) => r == Ok::<bool, String>(b),
            CmdVerdict::Failed(m) => (r matches Err(e) && e@ == m),
        }),
{
    match ide_process_names(ide) {
        None => Err(String::from_str("Unsupported IDE target")),
        Some(_) => read_outcome(
            outcome,
            "IDE process restart command failed",
            "IDE process restart command failed: ",
        ),
    }
}

/// Whether a reload attempt already did its work: the script exited 0,
/// so no restart fallback is run.
pub fn reload_attempt_succeeded(outcome: &CommandOutcome) -> (r: bool)
    ensures
        r == (*outcome matches CommandOutcome::Exited { code, stderr } && code == Some(0i32)),
{
    match outcome {
        CommandOutcome::Exited { code, stderr: _ } => {
            match code {
                Some(c) => *c == 0,
                None => false,
            }
        },
        _ => false,
    }
}

/// The whole reload decision: the reload attempt first; when it found no
/// window or failed, the restart attempt; both failing combines the two
/// messages. A restart outcome that was needed but never ran is itself
/// an error.
pub fn reload_ide_windows(
    ide: &str,
    reload: &CommandOutcome,
    restart: Option<&CommandOutcome>,
) -> (r: Result<bool, String>)
    ensures
        !ide_supported(ide@) ==> (r matches Err(m) && m@ == "Unsupported IDE target"@),
        ide_supported(ide@) ==> ({
            let v1 = outcome_verdict(
                *reload,
                "IDE reload command failed"@,
                "IDE reload command failed: "@,
            );
            match v1 {
                CmdVerdict::Done(true) => r == Ok::<bool, String>(true),
                CmdVerdict::Done(false) => (match restart {
                    None => (r matches Err(m) && m@ == "IDE restart was not attempted"@),
                    Some(o) => (match outcome_verdict(
                        *o,
                        "IDE process restart command failed"@,
                        "IDE process restart command failed: "@,
                    ) {
                        CmdVerdict::Done(b) => r == Ok::<bool, String>(b),
                        CmdVerdict::Failed(m2) => (r matches Err(e) && e@ == m2),
                    }),
                }),
                CmdVerdict::Failed(m1) => (match restart {
                    None => (r matches Err(m) && m@ == "IDE restart was not attempted"@),
                    Some(o) => (match outcome_verdict(
                        *o,
                        "IDE process restart command failed"@,
                        "IDE process restart command failed: "@,
                    ) {
                        CmdVerdict::Done(b) => r == Ok::<bool, String>(b),
                        CmdVerdict::Failed(m2) => (r matches Err(e) && e@ == "IDE reload failed ("@
                            + m1 + ") and restart fallback failed ("@ + m2 + ")"@),
                    }),
                }),
            }
        }),
{
    if ide_cli_candidates(ide).is_none() {
        return Err(String::from_str("Unsupported IDE target"));
    }
    match trigger_ide_reload_command(ide, reload) {
        Ok(true) => Ok(true),
        Ok(false) => {
            match restart {
                None => Err(String::from_str("IDE restart was not attempted")),
                Some(o) => restart_ide_processes(ide, o),
            }
        },
        Err(reload_err) => {
            match restart {
                None => Err(String::from_str("IDE restart was not attempted")),
                Some(o) => {
                    match restart_ide_processes(ide, o) {
                        Ok(b) => Ok(b),
                        Err(restart_err) => {
                            let mut m = String::from_str("IDE reload failed (");
                            m.append(reload_err.as_str());
                            m.append(") and restart fallback failed (");
                            m.append(restart_err.as_str());
                            m.append(")");
                            proof {
                                assert(m@ =~= "IDE reload failed ("@ + reload_err@
                                    + ") and restart fallback failed ("@ + restart_err@ + ")"@);
                            }
                            Err(m)
                        },
                    }
                },
            }
        },
    }
}

/// Stores the validated preferred editor target, or clears it.
pub fn set_preferred_ide(data: &mut AppData, ide: Option<String>) -> (r: Result<(), String>)
    ensures
        (match ide {
            Some(v) => {
                &&& (spec_normalize_ide(v@) is None ==> (r matches Err(m) && m@
                    == "Invalid IDE target"@ && *final(data) == *old(data)))
                &&& (spec_normalize_ide(v@) matches Some(norm) ==> r is Ok
                    && (final(data).preferred_ide matches Some(p) && p@ == norm))
            },
            None => r is Ok && final(data).preferred_ide is None,
        }),
        r is Ok ==> final(data).accounts == old(data).accounts,
        r is Ok ==> final(data).active_account_id == old(data).active_account_id,
        r is Ok ==> final(data).proxies == old(data).proxies,
        r is Ok ==> final(data).active_proxy_id == old(data).active_proxy_id,
        r is Ok ==> final(data).limits_base_url == old(data).limits_base_url,
        old(data).wf() && r is Ok ==> final(data).wf(),
{
    let normalized = match ide {
        Some(value) => {
            match normalize_ide_target(value.as_str()) {
                Some(n) => Some(n),
                None => {
                    return Err(String::from_str("Invalid IDE target"));
                },
            }
        },
        None => None,
    };
    data.preferred_ide = normalized;
    Ok(())
}

/// The account-switch mutation: the named account becomes active, and a
/// requested editor target is remembered. An unknown account changes
/// nothing.
pub fn apply_account_switch(
    data: &mut AppData,
    account_id: String,
    requested_ide: Option<String>,
) -> (r: Result<(), String>)
    ensures
        r is Ok <==> has_account(old(data).accounts@, account_id@),
        r matches Err(m) ==> m@ == "Account not found"@ && *final(data) == *old(data),
        r is Ok ==> final(data).active_account_id == Some(account_id),
        r is Ok ==> final(data).preferred_ide == (if requested_ide is Some {
            requested_ide
        } else {
            old(data).preferred_ide
        }),
        r is Ok ==> final(data).accounts == old(data).accounts,
        r is Ok ==> final(data).proxies == old(data).proxies,
        r is Ok ==> final(data).active_proxy_id == old(data).active_proxy_id,
        r is Ok ==> final(data).limits_base_url == old(data).limits_base_url,
        old(data).wf() && r is Ok ==> final(data).wf(),
{
    proof {
        lemma_account_idx(data.accounts@, account_id@);
    }
    match crate::data::find_account_index(&data.accounts, account_id.as_str()) {
        None => Err(String::from_str("Account not found")),
        Some(_) => {
            data.active_account_id = Some(account_id);
            match requested_ide {
                Some(name) => {
                    data.preferred_ide = Some(name);
                },
                None => {},
            }
            Ok(())
        },
    }
}

/// The switch report: whether a reload happened and the warning shown.
/// With no editor selected the caller is told to choose one; otherwise
/// the reload result decides.
pub fn switch_outcome(outcome: Option<(String, Result<bool, String>)>) -> (r: (bool, Option<
    String,
>))
    ensures
        outcome is None ==> !r.0 && (r.1 matches Some(w) && w@
            == "Account switched. Choose an IDE target to enable auto reload."@),
        outcome matches Some(p) ==> (match p.1 {
            Ok(true) => r.0 && r.1 is None,
            Ok(false) => !r.0 && (r.1 matches Some(w) && w@ == "Account switched. No running "@
                + p.0@ + " process was found to reload."@),
            Err(e) => !r.0 && (r.1 matches Some(w) && w@
                == "Account switched, but IDE reload failed: "@ + e@),
        }),
{
    match outcome {
        None => (
            false,
            Some(String::from_str("Account switched. Choose an IDE target to enable auto reload.")),
        ),
        Some((name, result)) => {
            match result {
                Ok(true) => (true, None),
                Ok(false) => {
                    let mut w = String::from_str("Account switched. No running ");
                    w.append(name.as_str());
                    w.append(" process was found to reload.");
                    proof {
                        assert(w@ =~= "Account switched. No running "@ + name@
                            + " process was found to reload."@);
                    }
                    (false, Some(w))
                },
                Err(e) => {
                    let mut w = String::from_str("Account switched, but IDE reload failed: ");
                    w.append(e.as_str());
                    (false, Some(w))
                },
            }
        },
    }
}

} // verus!
