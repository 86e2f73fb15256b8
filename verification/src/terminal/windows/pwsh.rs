//! PowerShell 7: one window per pane; PowerShell 7 loads the user's profile
//! itself, so the script only changes directory and runs the command.
use vstd::prelude::*;
use crate::config::{Pane, Project};
use crate::plan::{
    attempt_view, call_spec, calls, framed, process_call, push_call, Attempt, AttemptSpec,
    CallSpec, FailureSpec, LaunchEnv, ProcessCall, RunMode,
};
use crate::terminal::utils::{env_path, extras_calls, launch_extras, resolve_with_home};
use crate::text::{concat3, push_arg, strs};

verus! {

pub open spec fn pwsh_call(env: LaunchEnv, pane: Pane) -> CallSpec {
    call_spec(
        "pwsh.exe"@,
        seq![
            "-NoExit"@,
            "-Command"@,
            "Set-Location '"@ + env_path(env, pane.path@) + "'; "@ + pane.command@,
        ],
        RunMode::Detached,
        FailureSpec::Framed("PowerShell 7: "@, ""@),
    )
}

/// One PowerShell 7 window per pane, in order.
pub open spec fn pwsh_body(project: Project, env: LaunchEnv) -> Seq<CallSpec> {
    Seq::new(project.panes@.len(), |i: int| pwsh_call(env, project.panes@[i]))
}

/// One PowerShell 7 window per pane, then the helper programs.
pub open spec fn pwsh_attempt(project: Project, env: LaunchEnv) -> AttemptSpec {
    Ok(pwsh_body(project, env) + extras_calls(strs(project.extras@), env.platform))
}

fn pwsh_call_exec(env: &LaunchEnv, pane: &Pane) -> (r: ProcessCall)
    ensures
        r@ == pwsh_call(*env, *pane),
{
    let dir = resolve_with_home(pane.path.as_str(), &env.home);
    let mut script = concat3("Set-Location '", dir.as_str(), "'; ");
    script.append(pane.command.as_str());
    let mut args: Vec<String> = Vec::new();
    push_arg(&mut args, "-NoExit");
    push_arg(&mut args, "-Command");
    push_arg(&mut args, script.as_str());
    assert(strs(args@) =~= seq!["-NoExit"@, "-Command"@, script@]);
    process_call(String::from_str("pwsh.exe"), args, RunMode::Detached, framed("PowerShell 7: ", ""))
}

/// The plan that opens each pane in its own PowerShell 7 window.
pub fn launch_pwsh(project: &Project, env: &LaunchEnv) -> (r: Attempt)
    ensures
        attempt_view(r) == pwsh_attempt(*project, *env),
{
    let ghost each = pwsh_body(*project, *env);
    let n = project.panes.len();
    let mut plan: Vec<ProcessCall> = Vec::new();
    let mut i: usize = 0;
    while i < n
        invariant
            n == project.panes@.len(),
            i <= n,
            each == pwsh_body(*project, *env),
            calls(plan@) =~= each.take(i as int),
        decreases n - i,
    {
        push_call(&mut plan, pwsh_call_exec(env, &project.panes[i]));
        assert(each.take(i + 1) =~= each.take(i as int).push(each[i as int]));
        i = i + 1;
    }
    assert(each.take(n as int) =~= each);
    launch_extras(&mut plan, &project.extras, env.platform);
    Ok(plan)
}


/// PowerShell 7 opens one window per pane, in the panes' order, and then
/// starts the helper programs: window `i` runs `pwsh.exe -NoExit -Command`
/// with a script that sets the location to pane `i`'s resolved directory and
/// then runs the pane's command.
pub proof fn pwsh_opens_each_pane(project: Project, env: LaunchEnv)
    ensures
        pwsh_attempt(project, env) matches Ok(v) && v.len() == project.panes@.len() + extras_calls(
            strs(project.extras@),
            env.platform,
        ).len() && v.skip(project.panes@.len() as int) == extras_calls(strs(project.extras@), env.platform)
            && forall|i: int|
            0 <= i < project.panes@.len() ==> #[trigger] v[i] == (CallSpec {
                program: "pwsh.exe"@,
                args: seq![
                    "-NoExit"@,
                    "-Command"@,
                    "Set-Location '"@ + env_path(env, project.panes@[i].path@) + "'; "@
                        + project.panes@[i].command@,
                ],
                mode: RunMode::Detached,
                failure: FailureSpec::Framed("PowerShell 7: "@, ""@),
                hidden_console: false,
            }),
{
    let v = pwsh_body(project, env) + extras_calls(strs(project.extras@), env.platform);
    assert(v.skip(project.panes@.len() as int) =~= extras_calls(strs(project.extras@), env.platform));
}

} // verus!
