//! Terminal.app: one AppleScript per pane that runs `cd` and the pane's
//! command in a new Terminal window.
use vstd::prelude::*;
use crate::config::{Pane, Project};
use crate::plan::{
    attempt_view, call_spec, calls, framed, process_call, push_call, Attempt, AttemptSpec,
    CallSpec, FailureSpec, LaunchEnv, ProcessCall, RunMode,
};
use crate::terminal::utils::{env_path, extras_calls, launch_extras, resolve_with_home};
use crate::text::{concat3, concat4, push_arg, strs};

verus! {

pub open spec fn terminal_app_script(dir: Seq<char>, command: Seq<char>) -> Seq<char> {
    "tell application \"Terminal\"\n  do script \""@ + ("cd '"@ + dir + "' && "@ + command)
        + "\"\n  activate\nend tell"@
}

pub open spec fn terminal_app_call(env: LaunchEnv, pane: Pane) -> CallSpec {
    call_spec(
        "osascript"@,
        seq!["-e"@, terminal_app_script(env_path(env, pane.path@), pane.command@)],
        RunMode::Detached,
        FailureSpec::Framed("Terminal.app: "@, ""@),
    )
}

/// One Terminal.app window per pane, then the helper programs.
pub open spec fn terminal_app_attempt(project: Project, env: LaunchEnv) -> AttemptSpec {
    Ok(
        Seq::new(project.panes@.len(), |i: int| terminal_app_call(env, project.panes@[i]))
            + extras_calls(strs(project.extras@), env.platform),
    )
}

fn terminal_app_call_exec(env: &LaunchEnv, pane: &Pane) -> (r: ProcessCall)
    ensures
        r@ == terminal_app_call(*env, *pane),
{
    let dir = resolve_with_home(pane.path.as_str(), &env.home);
    let line = concat4("cd '", dir.as_str(), "' && ", pane.command.as_str());
    let script = concat3(
        "tell application \"Terminal\"\n  do script \"",
        line.as_str(),
        "\"\n  activate\nend tell",
    );
    let mut args: Vec<String> = Vec::new();
    push_arg(&mut args, "-e");
    push_arg(&mut args, script.as_str());
    assert(strs(args@) =~= seq!["-e"@, script@]);
    process_call(
        String::from_str("osascript"),
        args,
        RunMode::Detached,
        framed("Terminal.app: ", ""),
    )
}

/// The plan that opens each pane in its own Terminal.app window.
pub fn launch_terminal_app(project: &Project, env: &LaunchEnv) -> (r: Attempt)
    ensures
        attempt_view(r) == terminal_app_attempt(*project, *env),
{
    let ghost each = Seq::new(
        project.panes@.len(),
        |i: int| terminal_app_call(*env, project.panes@[i]),
    );
    let n = project.panes.len();
    let mut plan: Vec<ProcessCall> = Vec::new();
    let mut i: usize = 0;
    while i < n
        invariant
            n == project.panes@.len(),
            i <= n,
            each == Seq::new(project.panes@.len(), |i: int| terminal_app_call(*env, project.panes@[i])),
            calls(plan@) =~= each.take(i as int),
        decreases n - i,
    {
        push_call(&mut plan, terminal_app_call_exec(env, &project.panes[i]));
        assert(each.take(i + 1) =~= each.take(i as int).push(each[i as int]));
        i = i + 1;
    }
    assert(each.take(n as int) =~= each);
    launch_extras(&mut plan, &project.extras, env.platform);
    Ok(plan)
}


/// Terminal.app opens one window per pane, in the panes' order, and then
/// starts the helper programs: window `i` is an `osascript` that tells
/// Terminal to run, in a new window, a change to pane `i`'s resolved
/// directory followed by the pane's command, and to come to the front.
pub proof fn terminal_app_opens_each_pane(project: Project, env: LaunchEnv)
    ensures
        terminal_app_attempt(project, env) matches Ok(v) && v.len() == project.panes@.len()
            + extras_calls(strs(project.extras@), env.platform).len() && v.skip(
            project.panes@.len() as int,
        ) == extras_calls(strs(project.extras@), env.platform) && forall|i: int|
            0 <= i < project.panes@.len() ==> #[trigger] v[i] == (CallSpec {
                program: "osascript"@,
                args: seq![
                    "-e"@,
                    "tell application \"Terminal\"\n  do script \""@ + "cd '"@ + env_path(
                        env,
                        project.panes@[i].path@,
                    ) + "' && "@ + project.panes@[i].command@ + "\"\n  activate\nend tell"@,
                ],
                mode: RunMode::Detached,
                failure: FailureSpec::Framed("Terminal.app: "@, ""@),
                hidden_console: false,
            }),
{
    let v = Seq::new(project.panes@.len(), |i: int| terminal_app_call(env, project.panes@[i]))
        + extras_calls(strs(project.extras@), env.platform);
    assert(v.skip(project.panes@.len() as int) =~= extras_calls(strs(project.extras@), env.platform));
    assert forall|i: int| 0 <= i < project.panes@.len() implies #[trigger] v[i] == (CallSpec {
                program: "osascript"@,
                args: seq![
                    "-e"@,
                    "tell application \"Terminal\"\n  do script \""@ + "cd '"@ + env_path(
                        env,
                        project.panes@[i].path@,
                    ) + "' && "@ + project.panes@[i].command@ + "\"\n  activate\nend tell"@,
                ],
                mode: RunMode::Detached,
                failure: FailureSpec::Framed("Terminal.app: "@, ""@),
                hidden_console: false,
            }) by {
        let d = env_path(env, project.panes@[i].path@);
        let c = project.panes@[i].command@;
        assert("tell application \"Terminal\"\n  do script \""@ + ("cd '"@ + d + "' && "@ + c)
            + "\"\n  activate\nend tell"@ =~= "tell application \"Terminal\"\n  do script \""@ + "cd '"@ + d + "' && "@ + c
            + "\"\n  activate\nend tell"@);
        assert(v[i] == terminal_app_call(env, project.panes@[i]));
        assert(v[i].args =~= seq!["-e"@, "tell application \"Terminal\"\n  do script \""@ + "cd '"@ + d + "' && "@ + c
            + "\"\n  activate\nend tell"@]);
    }
}

} // verus!
