//! Terminator and Tilix: one window per pane, opened in the pane's directory
//! and running the project's shell (bash when it names none), interactive
//! when the project loads the dotfiles.
use vstd::prelude::*;
use crate::config::{Pane, Project};
use crate::plan::{
    attempt_view, call_spec, calls, process_call, push_call, Attempt, AttemptSpec, CallSpec,
    Failure, FailureSpec, LaunchEnv, ProcessCall, RunMode,
};
use crate::terminal::linux::gnome::{
    shell_session_line, shell_session_line_exec, tab_shell, tab_shell_exec,
};
use crate::terminal::utils::{env_path, extras_calls, launch_extras, resolve_with_home};
use crate::text::{concat2, push_arg, strs};

verus! {

/// A window of the terminal `app` in the pane's directory; a failure reads
/// "<app>: <error>".
pub open spec fn tab_call(env: LaunchEnv, app: Seq<char>, shell: Seq<char>, load_profile: bool, pane: Pane) -> CallSpec {
    call_spec(
        app,
        seq![
            "--working-directory"@,
            env_path(env, pane.path@),
            "-e"@,
            shell_session_line(shell, load_profile, env_path(env, pane.path@), pane.command@),
        ],
        RunMode::Detached,
        FailureSpec::Framed(app + ": "@, ""@),
    )
}

/// One window of `app` per pane, in order.
pub open spec fn tabs_body(project: Project, env: LaunchEnv, app: Seq<char>) -> Seq<CallSpec> {
    Seq::new(
        project.panes@.len(),
        |i: int| tab_call(env, app, tab_shell(project), project.load_profile, project.panes@[i]),
    )
}

/// One window of `app` per pane, then the helper programs.
pub open spec fn tabs_attempt(project: Project, env: LaunchEnv, app: Seq<char>) -> AttemptSpec {
    Ok(tabs_body(project, env, app) + extras_calls(strs(project.extras@), env.platform))
}

fn tab_call_exec(env: &LaunchEnv, app: &str, shell: &str, load_profile: bool, pane: &Pane) -> (r: ProcessCall)
    ensures
        r@ == tab_call(*env, app@, shell@, load_profile, *pane),
{
    let dir = resolve_with_home(pane.path.as_str(), &env.home);
    let line = shell_session_line_exec(shell, load_profile, dir.as_str(), pane.command.as_str());
    let mut args: Vec<String> = Vec::new();
    push_arg(&mut args, "--working-directory");
    push_arg(&mut args, dir.as_str());
    push_arg(&mut args, "-e");
    push_arg(&mut args, line.as_str());
    assert(strs(args@) =~= seq!["--working-directory"@, dir@, "-e"@, line@]);
    let before = concat2(app, ": ");
    process_call(
        String::from_str(app),
        args,
        RunMode::Detached,
        Failure::Framed { before, after: String::from_str("") },
    )
}

/// The plan that opens each pane in a new window of the terminal `app`.
pub fn launch_tabs(project: &Project, env: &LaunchEnv, app: &str) -> (r: Attempt)
    ensures
        attempt_view(r) == tabs_attempt(*project, *env, app@),
{
    let shell = tab_shell_exec(project);
    let ghost each = tabs_body(*project, *env, app@);
    let n = project.panes.len();
    let mut plan: Vec<ProcessCall> = Vec::new();
    let mut i: usize = 0;
    while i < n
        invariant
            n == project.panes@.len(),
            i <= n,
            shell@ == tab_shell(*project),
            each == tabs_body(*project, *env, app@),
            calls(plan@) =~= each.take(i as int),
        decreases n - i,
    {
        push_call(
            &mut plan,
            tab_call_exec(env, app, shell.as_str(), project.load_profile, &project.panes[i]),
        );
        assert(each.take(i + 1) =~= each.take(i as int).push(each[i as int]));
        i = i + 1;
    }
    assert(each.take(n as int) =~= each);
    launch_extras(&mut plan, &project.extras, env.platform);
    Ok(plan)
}


/// Terminator and Tilix open one window of the program per pane, in the
/// panes' order, and then start the helper programs: window `i` starts in
/// pane `i`'s resolved directory and runs the project's shell (bash when it
/// names none), interactive so that the dotfiles load (`-ic`) when the
/// project loads them and `-c` when it does not, changing to that directory,
/// running the pane's command, then staying in the shell. A failure reads
/// "<program>: <error>".
pub proof fn tabs_open_each_pane(project: Project, env: LaunchEnv, app: Seq<char>)
    ensures
        ({
            let shell = match project.shell {
                Some(s) => s@,
                None => "bash"@,
            };
            tabs_attempt(project, env, app) matches Ok(v) && v.len() == project.panes@.len()
                + extras_calls(strs(project.extras@), env.platform).len() && v.skip(
                project.panes@.len() as int,
            ) == extras_calls(strs(project.extras@), env.platform) && forall|i: int|
                0 <= i < project.panes@.len() ==> {
                    let dir = env_path(env, project.panes@[i].path@);
                    #[trigger] v[i] == (CallSpec {
                        program: app,
                        args: seq![
                            "--working-directory"@,
                            dir,
                            "-e"@,
                            shell + (if project.load_profile { " -ic 'cd \""@ } else { " -c 'cd \""@ })
                                + dir + "\" && "@ + project.panes@[i].command@ + "; exec "@ + shell + "'"@,
                        ],
                        mode: RunMode::Detached,
                        failure: FailureSpec::Framed(app + ": "@, ""@),
                        hidden_console: false,
                    })
                }
        }),
{
    let v = tabs_body(project, env, app) + extras_calls(strs(project.extras@), env.platform);
    assert(v.skip(project.panes@.len() as int) =~= extras_calls(strs(project.extras@), env.platform));
}

} // verus!
