//! CMD: one window per pane that changes drive and directory, runs
//! %AUTORUN% when it is defined, then the pane's command.
use vstd::prelude::*;
use crate::config::{Pane, Project};
use crate::plan::{
    attempt_view, call_spec, calls, framed, process_call, push_call, Attempt, AttemptSpec,
    CallSpec, FailureSpec, LaunchEnv, ProcessCall, RunMode,
};
use crate::terminal::utils::{env_path, extras_calls, launch_extras, resolve_with_home};
use crate::text::{concat3, push_arg, strs};

verus! {

pub open spec fn cmd_call(env: LaunchEnv, pane: Pane) -> CallSpec {
    call_spec(
        "cmd.exe"@,
        seq![
            "/K"@,
            "cd /d \""@ + env_path(env, pane.path@) + "\" && if defined AUTORUN (%%AUTORUN%%) && "@
                + pane.command@,
        ],
        RunMode::Detached,
        FailureSpec::Framed("CMD: "@, ""@),
    )
}

/// One CMD window per pane, in order.
pub open spec fn cmd_body(project: Project, env: LaunchEnv) -> Seq<CallSpec> {
    Seq::new(project.panes@.len(), |i: int| cmd_call(env, project.panes@[i]))
}

/// One CMD window per pane, then the helper programs.
pub open spec fn cmd_attempt(project: Project, env: LaunchEnv) -> AttemptSpec {
    Ok(cmd_body(project, env) + extras_calls(strs(project.extras@), env.platform))
}

fn cmd_call_exec(env: &LaunchEnv, pane: &Pane) -> (r: ProcessCall)
    ensures
        r@ == cmd_call(*env, *pane),
{
    let dir = resolve_with_home(pane.path.as_str(), &env.home);
    let mut script = concat3("cd /d \"", dir.as_str(), "\" && if defined AUTORUN (%%AUTORUN%%) && ");
    script.append(pane.command.as_str());
    let mut args: Vec<String> = Vec::new();
    push_arg(&mut args, "/K");
    push_arg(&mut args, script.as_str());
    assert(strs(args@) =~= seq!["/K"@, script@]);
    process_call(String::from_str("cmd.exe"), args, RunMode::Detached, framed("CMD: ", ""))
}

/// The plan that opens each pane in its own CMD window.
pub fn launch_cmd(project: &Project, env: &LaunchEnv) -> (r: Attempt)
    ensures
        attempt_view(r) == cmd_attempt(*project, *env),
{
    let ghost each = cmd_body(*project, *env);
    let n = project.panes.len();
    let mut plan: Vec<ProcessCall> = Vec::new();
    let mut i: usize = 0;
    while i < n
        invariant
            n == project.panes@.len(),
            i <= n,
            each == cmd_body(*project, *env),
            calls(plan@) =~= each.take(i as int),
        decreases n - i,
    {
        push_call(&mut plan, cmd_call_exec(env, &project.panes[i]));
        assert(each.take(i + 1) =~= each.take(i as int).push(each[i as int]));
        i = i + 1;
    }
    assert(each.take(n as int) =~= each);
    launch_extras(&mut plan, &project.extras, env.platform);
    Ok(plan)
}


/// CMD opens one window per pane, in the panes' order, and then starts the
/// helper programs: window `i` runs `cmd.exe /K` with a line that changes to
/// pane `i`'s resolved directory (drive included), runs the user's AUTORUN
/// when it is defined, then runs the pane's command.
pub proof fn cmd_opens_each_pane(project: Project, env: LaunchEnv)
    ensures
        cmd_attempt(project, env) matches Ok(v) && v.len() == project.panes@.len() + extras_calls(
            strs(project.extras@),
            env.platform,
        ).len() && v.skip(project.panes@.len() as int) == extras_calls(strs(project.extras@), env.platform)
            && forall|i: int|
            0 <= i < project.panes@.len() ==> #[trigger] v[i] == (CallSpec {
                program: "cmd.exe"@,
                args: seq![
                    "/K"@,
                    "cd /d \""@ + env_path(env, project.panes@[i].path@)
                        + "\" && if defined AUTORUN (%%AUTORUN%%) && "@ + project.panes@[i].command@,
                ],
                mode: RunMode::Detached,
                failure: FailureSpec::Framed("CMD: "@, ""@),
                hidden_console: false,
            }),
{
    let v = cmd_body(project, env) + extras_calls(strs(project.extras@), env.platform);
    assert(v.skip(project.panes@.len() as int) =~= extras_calls(strs(project.extras@), env.platform));
}

} // verus!
