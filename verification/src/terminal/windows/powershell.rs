//! Windows PowerShell: one window per pane, loading the user's PowerShell
//! profile (when the project loads it) before changing to the pane's
//! directory and running its command.
use vstd::prelude::*;
use crate::config::{Pane, Project};
use crate::plan::{
    attempt_view, call_spec, calls, framed, process_call, push_call, Attempt, AttemptSpec,
    CallSpec, FailureSpec, LaunchEnv, ProcessCall, RunMode,
};
use crate::terminal::utils::{env_path, extras_calls, launch_extras, resolve_with_home};
use crate::text::{concat5, push_arg, replace_char, replace_char_splits, replace_char_with, strs};

verus! {

/// A directory as it is written inside a single-quoted PowerShell string:
/// backslashes doubled, then single quotes doubled.
pub open spec fn ps_quoted(dir: Seq<char>) -> Seq<char> {
    replace_char(replace_char(dir, '\\', "\\\\"@), '\'', "''"@)
}

pub open spec fn ps_profile_prelude() -> Seq<char> {
    "& { $profile_path = if (Test-Path $PROFILE.CurrentUserCurrentHost) { $PROFILE.CurrentUserCurrentHost } else { $PROFILE.AllUsersCurrentHost }; if (Test-Path $profile_path) { . $profile_path }; Set-Location '"@
}

/// The script a pane's window runs: load the profile (when it is loaded),
/// change directory, run the command.
pub open spec fn ps_script(dir: Seq<char>, command: Seq<char>, load_profile: bool) -> Seq<char> {
    (if load_profile {
        ps_profile_prelude()
    } else {
        "& { Set-Location '"@
    }) + ps_quoted(dir) + "'; "@ + command + " }"@
}

pub open spec fn ps_call(env: LaunchEnv, pane: Pane, load_profile: bool) -> CallSpec {
    call_spec(
        "powershell.exe"@,
        seq![
            "-NoExit"@,
            "-Command"@,
            ps_script(env_path(env, pane.path@), pane.command@, load_profile),
        ],
        RunMode::Detached,
        FailureSpec::Framed("PowerShell: "@, ""@),
    )
}

/// One PowerShell window per pane, in order.
pub open spec fn powershell_body(project: Project, env: LaunchEnv) -> Seq<CallSpec> {
    Seq::new(project.panes@.len(), |i: int| ps_call(env, project.panes@[i], project.load_profile))
}

/// One PowerShell window per pane, then the project's helper programs.
pub open spec fn powershell_attempt(project: Project, env: LaunchEnv) -> AttemptSpec {
    Ok(powershell_body(project, env) + extras_calls(strs(project.extras@), env.platform))
}

fn ps_call_exec(env: &LaunchEnv, pane: &Pane, load_profile: bool) -> (r: ProcessCall)
    ensures
        r@ == ps_call(*env, *pane, load_profile),
{
    let dir = resolve_with_home(pane.path.as_str(), &env.home);
    let step = replace_char_with(dir.as_str(), '\\', "\\\\");
    let quoted = replace_char_with(step.as_str(), '\'', "''");
    let prelude = if load_profile {
        "& { $profile_path = if (Test-Path $PROFILE.CurrentUserCurrentHost) { $PROFILE.CurrentUserCurrentHost } else { $PROFILE.AllUsersCurrentHost }; if (Test-Path $profile_path) { . $profile_path }; Set-Location '"
    } else {
        "& { Set-Location '"
    };
    let script = concat5(
        prelude,
        quoted.as_str(),
        "'; ",
        pane.command.as_str(),
        " }",
    );
    let mut args: Vec<String> = Vec::new();
    push_arg(&mut args, "-NoExit");
    push_arg(&mut args, "-Command");
    push_arg(&mut args, script.as_str());
    assert(strs(args@) =~= seq!["-NoExit"@, "-Command"@, script@]);
    process_call(
        String::from_str("powershell.exe"),
        args,
        RunMode::Detached,
        framed("PowerShell: ", ""),
    )
}

/// The calls that open each pane in its own Windows PowerShell window.
pub(crate) fn powershell_body_exec(project: &Project, env: &LaunchEnv) -> (r: Vec<ProcessCall>)
    ensures
        calls(r@) == powershell_body(*project, *env),
{
    let ghost each = Seq::new(project.panes@.len(), |i: int| ps_call(*env, project.panes@[i], project.load_profile));
    let n = project.panes.len();
    let mut plan: Vec<ProcessCall> = Vec::new();
    let mut i: usize = 0;
    while i < n
        invariant
            n == project.panes@.len(),
            i <= n,
            each == Seq::new(project.panes@.len(), |i: int| ps_call(*env, project.panes@[i], project.load_profile)),
            calls(plan@) =~= each.take(i as int),
        decreases n - i,
    {
        push_call(&mut plan, ps_call_exec(env, &project.panes[i], project.load_profile));
        assert(each.take(i + 1) =~= each.take(i as int).push(each[i as int]));
        i = i + 1;
    }
    assert(each.take(n as int) =~= each);
    plan
}

/// The plan that opens each pane in its own Windows PowerShell window.
pub fn launch_powershell(project: &Project, env: &LaunchEnv) -> (r: Attempt)
    ensures
        attempt_view(r) == powershell_attempt(*project, *env),
{
    let mut plan = powershell_body_exec(project, env);
    launch_extras(&mut plan, &project.extras, env.platform);
    Ok(plan)
}


/// Quoting a directory for a single-quoted PowerShell string works character
/// by character: each backslash is written twice, each single quote is
/// written twice, and every other character is written as it is.
pub proof fn ps_quoting_doubles_backslashes_and_quotes(a: Seq<char>, b: Seq<char>, c: char)
    ensures
        ps_quoted(a + b) == ps_quoted(a) + ps_quoted(b),
        ps_quoted(Seq::empty()) == Seq::<char>::empty(),
        ps_quoted(seq!['\\']) == seq!['\\', '\\'],
        ps_quoted(seq!['\'']) == seq!['\'', '\''],
        c != '\\' && c != '\'' ==> ps_quoted(seq![c]) == seq![c],
{
    replace_char_splits(a, b, '\\', "\\\\"@);
    replace_char_splits(replace_char(a, '\\', "\\\\"@), replace_char(b, '\\', "\\\\"@), '\'', "''"@);
    reveal_strlit("\\\\");
    reveal_strlit("''");
    let e = Seq::<char>::empty();
    assert(replace_char(e, '\\', "\\\\"@) =~= e);
    assert(replace_char(e, '\'', "''"@) =~= e);
    assert(seq!['\\'].drop_last() =~= e);
    assert(seq!['\''].drop_last() =~= e);
    assert(seq![c].drop_last() =~= e);
    assert(replace_char(seq!['\\'], '\\', "\\\\"@) =~= seq!['\\', '\\']);
    assert(seq!['\\', '\\'].drop_last() =~= seq!['\\']);
    assert(replace_char(seq!['\\'], '\'', "''"@) =~= seq!['\\']);
    assert(replace_char(seq!['\\', '\\'], '\'', "''"@) =~= seq!['\\', '\\']);
    assert(replace_char(seq!['\''], '\\', "\\\\"@) =~= seq!['\'']);
    assert(replace_char(seq!['\''], '\'', "''"@) =~= seq!['\'', '\'']);
    assert(replace_char(seq![c], '\\', "\\\\"@) =~= (if c == '\\' { seq!['\\', '\\'] } else { seq![c] }));
    assert(replace_char(seq![c], '\'', "''"@) =~= (if c == '\'' { seq!['\'', '\''] } else { seq![c] }));
}

/// Windows PowerShell opens one window per pane, in the panes' order, and
/// then starts the helper programs: window `i` runs `powershell.exe -NoExit
/// -Command` with a script that, when the project loads the profile, first
/// dot-sources the current user's profile for this host (or else the
/// all-users one) if it exists, then sets the location to pane `i`'s
/// resolved directory, quoted, and runs the pane's command.
pub proof fn powershell_opens_each_pane(project: Project, env: LaunchEnv)
    ensures
        powershell_attempt(project, env) matches Ok(v) && v.len() == project.panes@.len()
            + extras_calls(strs(project.extras@), env.platform).len() && v.skip(
            project.panes@.len() as int,
        ) == extras_calls(strs(project.extras@), env.platform) && forall|i: int|
            0 <= i < project.panes@.len() ==> #[trigger] v[i] == (CallSpec {
                program: "powershell.exe"@,
                args: seq![
                    "-NoExit"@,
                    "-Command"@,
                    (if project.load_profile {
                        "& { $profile_path = if (Test-Path $PROFILE.CurrentUserCurrentHost) { $PROFILE.CurrentUserCurrentHost } else { $PROFILE.AllUsersCurrentHost }; if (Test-Path $profile_path) { . $profile_path }; Set-Location '"@
                    } else {
                        "& { Set-Location '"@
                    }) + ps_quoted(env_path(env, project.panes@[i].path@)) + "'; "@
                        + project.panes@[i].command@ + " }"@,
                ],
                mode: RunMode::Detached,
                failure: FailureSpec::Framed("PowerShell: "@, ""@),
                hidden_console: false,
            }),
{
    let v = powershell_body(project, env) + extras_calls(strs(project.extras@), env.platform);
    assert(v.skip(project.panes@.len() as int) =~= extras_calls(strs(project.extras@), env.platform));
}

} // verus!
