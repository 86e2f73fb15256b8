//! GNOME Terminal: one window with a tab per pane, each running the
//! project's shell (bash when it names none), interactive when the project
//! loads the dotfiles, that changes directory, runs the command and stays open.
use vstd::prelude::*;
use crate::config::{Pane, Project};
use crate::plan::{
    attempt_view, call_spec, calls, framed, process_call, push_call, Attempt, AttemptSpec,
    CallSpec, FailureSpec, LaunchEnv, ProcessCall, RunMode,
};
use crate::terminal::utils::{env_path, extras_calls, launch_extras, resolve_with_home};
use crate::text::{concat, concat5, concat_offset, extend_args, push_arg, strs};

verus! {

/// The shell a tab runs: the one the project names, or bash.
pub open spec fn tab_shell(project: Project) -> Seq<char> {
    match project.shell {
        Some(s) => s@,
        None => "bash"@,
    }
}

pub(crate) fn tab_shell_exec(project: &Project) -> (r: String)
    ensures
        r@ == tab_shell(*project),
{
    match &project.shell {
        Some(s) => s.clone(),
        None => String::from_str("bash"),
    }
}

/// The command line that keeps a pane in `shell`:
/// `<shell> -ic 'cd "<dir>" && <command>; exec <shell>'`, with `-c` in place of
/// `-ic` (not interactive, so no dotfiles) when the project does not load them.
pub open spec fn shell_session_line(
    shell: Seq<char>,
    load_profile: bool,
    dir: Seq<char>,
    command: Seq<char>,
) -> Seq<char> {
    shell + (if load_profile {
        " -ic 'cd \""@
    } else {
        " -c 'cd \""@
    }) + dir + "\" && "@ + command + "; exec "@ + shell + "'"@
}

pub(crate) fn shell_session_line_exec(
    shell: &str,
    load_profile: bool,
    dir: &str,
    command: &str,
) -> (r: String)
    ensures
        r@ == shell_session_line(shell@, load_profile, dir@, command@),
{
    let opening = if load_profile {
        " -ic 'cd \""
    } else {
        " -c 'cd \""
    };
    let mut r = concat5(shell, opening, dir, "\" && ", command);
    r.append("; exec ");
    r.append(shell);
    r.append("'");
    r
}

/// The arguments that add one pane's tab.
pub open spec fn gnome_tab_args(env: LaunchEnv, shell: Seq<char>, load_profile: bool, pane: Pane) -> Seq<Seq<char>> {
    seq![
        "--tab"@,
        "--"@,
        shell,
        "-c"@,
        shell_session_line(shell, load_profile, env_path(env, pane.path@), pane.command@),
    ]
}

pub open spec fn gnome_call(project: Project, env: LaunchEnv) -> CallSpec {
    call_spec(
        "gnome-terminal"@,
        concat(
            Seq::new(
                project.panes@.len(),
                |i: int|
                    gnome_tab_args(env, tab_shell(project), project.load_profile, project.panes@[i]),
            ),
        ),
        RunMode::Detached,
        FailureSpec::Framed("GNOME Terminal: "@, ""@),
    )
}

/// One GNOME Terminal window with a tab per pane, then the helper programs.
pub open spec fn gnome_attempt(project: Project, env: LaunchEnv) -> AttemptSpec {
    Ok(seq![gnome_call(project, env)] + extras_calls(strs(project.extras@), env.platform))
}

/// `args` holds a tab that runs `line` in `shell`: "--tab", "--", `shell`,
/// "-c", `line` in a row.
pub open spec fn has_tab(args: Seq<Seq<char>>, shell: Seq<char>, line: Seq<char>) -> bool {
    exists|j: int|
        0 <= j && j + 4 < args.len() && #[trigger] args[j] == "--tab"@ && args[j + 1] == "--"@
            && args[j + 2] == shell && args[j + 3] == "-c"@ && args[j + 4] == line
}

/// Every pane gets a tab that runs the project's shell, changes to the
/// pane's resolved directory and runs its command.
pub proof fn gnome_opens_every_pane(project: Project, env: LaunchEnv)
    ensures
        forall|i: int|
            0 <= i < project.panes@.len() ==> #[trigger] has_tab(
                gnome_call(project, env).args,
                tab_shell(project),
                shell_session_line(
                    tab_shell(project),
                    project.load_profile,
                    env_path(env, project.panes@[i].path@),
                    project.panes@[i].command@,
                ),
            ),
{
    let chunks = Seq::new(
        project.panes@.len(),
        |i: int| gnome_tab_args(env, tab_shell(project), project.load_profile, project.panes@[i]),
    );
    let a = gnome_call(project, env).args;
    assert(a == concat(chunks));
    assert forall|i: int| 0 <= i < project.panes@.len() implies #[trigger] has_tab(
        a,
        tab_shell(project),
        shell_session_line(
            tab_shell(project),
            project.load_profile,
            env_path(env, project.panes@[i].path@),
            project.panes@[i].command@,
        ),
    ) by {
        let off = concat_offset(chunks, i);
        assert(a[off + 0] == chunks[i][0]);
        assert(a[off + 1] == chunks[i][1]);
        assert(a[off + 2] == chunks[i][2]);
        assert(a[off + 3] == chunks[i][3]);
        assert(a[off + 4] == chunks[i][4]);
        assert(a[off] == "--tab"@);
    }
}

/// The plan that opens the project in GNOME Terminal.
pub fn launch_gnome(project: &Project, env: &LaunchEnv) -> (r: Attempt)
    ensures
        attempt_view(r) == gnome_attempt(*project, *env),
{
    let shell = tab_shell_exec(project);
    let ghost chunks = Seq::new(
        project.panes@.len(),
        |i: int| gnome_tab_args(*env, tab_shell(*project), project.load_profile, project.panes@[i]),
    );
    let n = project.panes.len();
    let mut args: Vec<String> = Vec::new();
    let mut i: usize = 0;
    assert(chunks.take(0) =~= Seq::<Seq<Seq<char>>>::empty());
    while i < n
        invariant
            n == project.panes@.len(),
            i <= n,
            shell@ == tab_shell(*project),
            chunks == Seq::new(
                project.panes@.len(),
                |i: int| gnome_tab_args(*env, tab_shell(*project), project.load_profile, project.panes@[i]),
            ),
            strs(args@) == concat(chunks.take(i as int)),
        decreases n - i,
    {
        let pane = &project.panes[i];
        let dir = resolve_with_home(pane.path.as_str(), &env.home);
        let line = shell_session_line_exec(
            shell.as_str(),
            project.load_profile,
            dir.as_str(),
            pane.command.as_str(),
        );
        let mut tab: Vec<String> = Vec::new();
        push_arg(&mut tab, "--tab");
        push_arg(&mut tab, "--");
        push_arg(&mut tab, shell.as_str());
        push_arg(&mut tab, "-c");
        push_arg(&mut tab, line.as_str());
        assert(strs(tab@) =~= chunks[i as int]);
        extend_args(&mut args, tab);
        assert(chunks.take(i + 1).drop_last() =~= chunks.take(i as int));
        i = i + 1;
    }
    assert(chunks.take(n as int) =~= chunks);
    let mut plan: Vec<ProcessCall> = Vec::new();
    push_call(
        &mut plan,
        process_call(
            String::from_str("gnome-terminal"),
            args,
            RunMode::Detached,
            framed("GNOME Terminal: ", ""),
        ),
    );
    assert(calls(plan@) =~= seq![gnome_call(*project, *env)]);
    launch_extras(&mut plan, &project.extras, env.platform);
    Ok(plan)
}


/// GNOME Terminal opens one window with a tab per pane, then starts the
/// helper programs. The tab of pane `i` runs the project's shell (bash when
/// it names none) with `-c` and a line that starts that shell again,
/// interactive so that the dotfiles load (`-ic`) when the project loads them
/// and `-c` when it does not, changes to pane `i`'s resolved directory, runs
/// the pane's command and then stays in the shell.
pub proof fn gnome_tabs_run_each_pane(project: Project, env: LaunchEnv)
    ensures
        ({
            let shell = match project.shell {
                Some(s) => s@,
                None => "bash"@,
            };
            let opening = if project.load_profile { " -ic 'cd \""@ } else { " -c 'cd \""@ };
            gnome_attempt(project, env) matches Ok(v) && v.len() == 1 + extras_calls(
                strs(project.extras@),
                env.platform,
            ).len() && v.skip(1) == extras_calls(strs(project.extras@), env.platform)
                && v[0].program == "gnome-terminal"@ && v[0].mode == RunMode::Detached
                && v[0].failure == FailureSpec::Framed("GNOME Terminal: "@, ""@) && forall|i: int|
                0 <= i < project.panes@.len() ==> {
                    #[trigger] has_tab(
                        v[0].args,
                        shell,
                        shell + opening + env_path(env, project.panes@[i].path@) + "\" && "@ + project.panes@[i].command@ + "; exec "@ + shell + "'"@,
                    )
                }
        }),
{
    let v = seq![gnome_call(project, env)] + extras_calls(strs(project.extras@), env.platform);
    assert(v.skip(1) =~= extras_calls(strs(project.extras@), env.platform));
    assert(v[0] == gnome_call(project, env));
    gnome_opens_every_pane(project, env);
    assert forall|i: int| 0 <= i < project.panes@.len() implies shell_session_line(
        tab_shell(project),
        project.load_profile,
        env_path(env, project.panes@[i].path@),
        project.panes@[i].command@,
    ) == tab_shell(project) + (if project.load_profile { " -ic 'cd \""@ } else { " -c 'cd \""@ })
        + env_path(env, project.panes@[i].path@) + "\" && "@ + project.panes@[i].command@ + "; exec "@
        + tab_shell(project) + "'"@ && has_tab(
        v[0].args,
        tab_shell(project),
        shell_session_line(
            tab_shell(project),
            project.load_profile,
            env_path(env, project.panes@[i].path@),
            project.panes@[i].command@,
        ),
    ) by {}
}

} // verus!
