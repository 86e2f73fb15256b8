//! iTerm2: an AppleScript that opens a window and splits it into the
//! project's panes, typing into each a `cd`, the user's dotfiles (when the
//! project loads them) and the pane's command.
use vstd::prelude::*;
use crate::config::{Pane, Project};
use crate::plan::{
    attempt_view, call_spec, calls, framed, process_call, push_call, Attempt, AttemptSpec,
    CallSpec, FailureSpec, LaunchEnv, ProcessCall, RunMode,
};
use crate::terminal::utils::{env_path, extras_calls, launch_extras, resolve_with_home};
use crate::text::{
    concat, concat3, concat_piece_at, contains, ends_with, occurs_at, push_arg, starts_with, str_eq, strs,
};

verus! {

/// What is typed into a pane: change directory, source the dotfiles when
/// they are loaded, run the command.
pub open spec fn iterm_shell_line(dir: Seq<char>, command: Seq<char>, load_profile: bool) -> Seq<char> {
    if load_profile {
        "cd '"@ + dir + "' && source ~/.zshrc 2>/dev/null || source ~/.bashrc 2>/dev/null && "@
            + command
    } else {
        "cd '"@ + dir + "' && "@ + command
    }
}

/// The script line that types `line` into the current session.
pub open spec fn iterm_write(line: Seq<char>) -> Seq<char> {
    "    write text \""@ + line + "\"\n"@
}

pub open spec fn iterm_header() -> Seq<char> {
    "tell application \"iTerm2\"\n  activate\n  set w to (create window with default profile)\n  tell current session of w\n"@
}

pub open spec fn iterm_footer() -> Seq<char> {
    "  end tell\nend tell\n"@
}

/// How panes after the first split: vertically for the "vertical",
/// "cols-2" and "grid-2x2" layouts, horizontally otherwise.
pub open spec fn iterm_split(layout: Seq<char>) -> Seq<char> {
    if layout == "vertical"@ || layout == "cols-2"@ || layout == "grid-2x2"@ {
        "split vertically"@
    } else {
        "split horizontally"@
    }
}

pub open spec fn iterm_split_block(split: Seq<char>) -> Seq<char> {
    "  end tell\n  tell w\n    set p to ("@ + split + " with default profile)\n  end tell\n  tell p\n"@
}

pub open spec fn iterm_pane_line(env: LaunchEnv, pane: Pane, load_profile: bool) -> Seq<char> {
    iterm_write(iterm_shell_line(env_path(env, pane.path@), pane.command@, load_profile))
}

/// The whole AppleScript for a project with at least one pane.
pub open spec fn iterm_script(project: Project, env: LaunchEnv) -> Seq<char> {
    let panes = project.panes@;
    iterm_header() + iterm_pane_line(env, panes[0], project.load_profile) + concat(
        Seq::new(
            (panes.len() - 1) as nat,
            |k: int| iterm_split_block(iterm_split(project.layout@)) + iterm_pane_line(env, panes[k + 1], project.load_profile),
        ),
    ) + iterm_footer()
}

/// How an iTerm2 launch places the panes after the first: side by side
/// ("split vertically") for the "vertical", "cols-2" and "grid-2x2" layouts,
/// stacked ("split horizontally") for every other layout. The plan's first
/// call runs `osascript` on a script in which each such pane is added by a
/// split block in that direction followed by the line typed into it.
pub proof fn iterm_splits_follow_layout(project: Project, env: LaunchEnv)
    requires
        project.panes@.len() >= 2,
    ensures
        ({
            let layout = project.layout@;
            let dir = if layout == "vertical"@ || layout == "cols-2"@ || layout == "grid-2x2"@ {
                "split vertically"@
            } else {
                "split horizontally"@
            };
            iterm2_attempt(project, env) matches Ok(v) && v.len() >= 1 && v[0].program
                == "osascript"@ && v[0].args.len() == 2 && forall|k: int|
                1 <= k < project.panes@.len() ==> #[trigger] contains(
                    v[0].args[1],
                    iterm_split_block(dir) + iterm_pane_line(env, project.panes@[k], project.load_profile),
                )
        }),
{
    let layout = project.layout@;
    let panes = project.panes@;
    let dir = if layout == "vertical"@ || layout == "cols-2"@ || layout == "grid-2x2"@ {
        "split vertically"@
    } else {
        "split horizontally"@
    };
    assert(iterm_split(layout) == dir);
    let s = iterm_script(project, env);
    let chunks = Seq::new(
        (panes.len() - 1) as nat,
        |k: int| iterm_split_block(iterm_split(layout)) + iterm_pane_line(env, panes[k + 1], project.load_profile),
    );
    let pre = iterm_header() + iterm_pane_line(env, panes[0], project.load_profile);
    assert(s == pre + concat(chunks) + iterm_footer());
    assert forall|k: int| 1 <= k < panes.len() implies #[trigger] contains(
        s,
        iterm_split_block(dir) + iterm_pane_line(env, panes[k], project.load_profile),
    ) by {
        let at = concat_piece_at(pre, chunks, iterm_footer(), k - 1);
        assert(chunks[k - 1] == iterm_split_block(dir) + iterm_pane_line(env, panes[k], project.load_profile));
        assert(occurs_at(s, chunks[k - 1], at));
    }
    let v = seq![iterm2_call(project, env)] + extras_calls(strs(project.extras@), env.platform);
    assert(v[0] == iterm2_call(project, env));
}

/// The iTerm2 launch: refused with "Sin panes." for a project without panes;
/// otherwise `osascript -e <script>` (a failure reads "iTerm2 AppleScript:
/// <error>"), then the helper programs. The script activates iTerm2, creates
/// a window, types into its first session a line that changes to the first
/// pane's resolved directory, sources the zsh or bash dotfiles when the
/// project loads them, and runs the pane's command; it ends by closing its
/// `tell` blocks. Each later pane gets such a line in its own split.
pub proof fn iterm_script_shape(project: Project, env: LaunchEnv, pane: Pane)
    ensures
        project.panes@.len() == 0 ==> iterm2_attempt(project, env) == Err::<Seq<CallSpec>, Seq<char>>("Sin panes."@),
        iterm_pane_line(env, pane, project.load_profile) == "    write text \""@ + "cd '"@ + env_path(env, pane.path@)
            + (if project.load_profile {
            "' && source ~/.zshrc 2>/dev/null || source ~/.bashrc 2>/dev/null && "@
        } else {
            "' && "@
        }) + pane.command@ + "\"\n"@,
        project.panes@.len() > 0 ==> (iterm2_attempt(project, env) matches Ok(v) && v.len() == 1
            + extras_calls(strs(project.extras@), env.platform).len() && v.skip(1) == extras_calls(
            strs(project.extras@),
            env.platform,
        ) && v[0].program == "osascript"@ && v[0].mode == RunMode::Detached && v[0].failure
            == FailureSpec::Framed("iTerm2 AppleScript: "@, ""@) && v[0].args.len() == 2 && v[0].args[0]
            == "-e"@ && starts_with(
            v[0].args[1],
            "tell application \"iTerm2\"\n  activate\n  set w to (create window with default profile)\n  tell current session of w\n"@
                + iterm_pane_line(env, project.panes@[0], project.load_profile),
        ) && ends_with(v[0].args[1], "  end tell\nend tell\n"@)),
{
    let lp = project.load_profile;
    let d = env_path(env, pane.path@);
    let c = pane.command@;
    if lp {
        assert(iterm_pane_line(env, pane, lp) =~= "    write text \""@ + "cd '"@ + d
            + "' && source ~/.zshrc 2>/dev/null || source ~/.bashrc 2>/dev/null && "@ + c + "\"\n"@);
    } else {
        assert(iterm_pane_line(env, pane, lp) =~= "    write text \""@ + "cd '"@ + d + "' && "@ + c + "\"\n"@);
    }
    if project.panes@.len() > 0 {
        let v = seq![iterm2_call(project, env)] + extras_calls(strs(project.extras@), env.platform);
        assert(v.skip(1) =~= extras_calls(strs(project.extras@), env.platform));
        assert(v[0] == iterm2_call(project, env));
        let panes = project.panes@;
        let pre = iterm_header() + iterm_pane_line(env, panes[0], lp);
        let chunks = Seq::new(
            (panes.len() - 1) as nat,
            |k: int| iterm_split_block(iterm_split(project.layout@)) + iterm_pane_line(env, panes[k + 1], lp),
        );
        let sc = iterm_script(project, env);
        assert(sc == pre + concat(chunks) + iterm_footer());
        assert(sc.subrange(0, pre.len() as int) =~= pre);
        assert(sc.subrange(sc.len() - iterm_footer().len(), sc.len() as int) =~= iterm_footer());
    }
}

/// Running the script with `osascript`.
pub open spec fn iterm2_call(project: Project, env: LaunchEnv) -> CallSpec {
    call_spec(
        "osascript"@,
        seq!["-e"@, iterm_script(project, env)],
        RunMode::Detached,
        FailureSpec::Framed("iTerm2 AppleScript: "@, ""@),
    )
}

/// Refused without panes; otherwise the script is run with `osascript`,
/// then the helper programs are started.
pub open spec fn iterm2_attempt(project: Project, env: LaunchEnv) -> AttemptSpec {
    if project.panes@.len() == 0 {
        Err("Sin panes."@)
    } else {
        Ok(seq![iterm2_call(project, env)] + extras_calls(strs(project.extras@), env.platform))
    }
}

fn iterm_pane_line_exec(env: &LaunchEnv, pane: &Pane, load_profile: bool) -> (r: String)
    ensures
        r@ == iterm_pane_line(*env, *pane, load_profile),
{
    let dir = resolve_with_home(pane.path.as_str(), &env.home);
    let mut line = if load_profile {
        concat3(
            "cd '",
            dir.as_str(),
            "' && source ~/.zshrc 2>/dev/null || source ~/.bashrc 2>/dev/null && ",
        )
    } else {
        concat3("cd '", dir.as_str(), "' && ")
    };
    line.append(pane.command.as_str());
    concat3("    write text \"", line.as_str(), "\"\n")
}

fn iterm_script_exec(project: &Project, env: &LaunchEnv) -> (r: String)
    requires
        project.panes@.len() > 0,
    ensures
        r@ == iterm_script(*project, *env),
{
    let layout = project.layout.as_str();
    let split = if str_eq(layout, "vertical") || str_eq(layout, "cols-2") {
        "split vertically"
    } else if str_eq(layout, "grid-2x2") {
        "split vertically"
    } else {
        "split horizontally"
    };
    assert(split@ == iterm_split(project.layout@));
    let mut script = String::from_str(
        "tell application \"iTerm2\"\n  activate\n  set w to (create window with default profile)\n  tell current session of w\n",
    );
    let first = iterm_pane_line_exec(env, &project.panes[0], project.load_profile);
    script.append(first.as_str());
    let ghost head = script@;
    let ghost chunks = Seq::new(
        (project.panes@.len() - 1) as nat,
        |k: int| iterm_split_block(iterm_split(project.layout@)) + iterm_pane_line(*env, project.panes@[k + 1], project.load_profile),
    );
    let n = project.panes.len();
    let mut i: usize = 1;
    assert(chunks.take(0) =~= Seq::<Seq<char>>::empty());
    while i < n
        invariant
            n == project.panes@.len(),
            1 <= i <= n,
            split@ == iterm_split(project.layout@),
            chunks == Seq::new(
                (project.panes@.len() - 1) as nat,
                |k: int| iterm_split_block(iterm_split(project.layout@)) + iterm_pane_line(*env, project.panes@[k + 1], project.load_profile),
            ),
            script@ == head + concat(chunks.take(i - 1)),
        decreases n - i,
    {
        let block = concat3(
            "  end tell\n  tell w\n    set p to (",
            split,
            " with default profile)\n  end tell\n  tell p\n",
        );
        let line = iterm_pane_line_exec(env, &project.panes[i], project.load_profile);
        script.append(block.as_str());
        script.append(line.as_str());
        assert(chunks.take(i as int).drop_last() =~= chunks.take(i - 1));
        assert(script@ =~= head + concat(chunks.take(i - 1)) + chunks[i - 1]);
        i = i + 1;
    }
    assert(chunks.take(n - 1) =~= chunks);
    script.append("  end tell\nend tell\n");
    script
}

/// The call that runs the iTerm2 script of a project with at least one pane.
pub(crate) fn iterm2_call_exec(project: &Project, env: &LaunchEnv) -> (r: ProcessCall)
    requires
        project.panes@.len() > 0,
    ensures
        r@ == iterm2_call(*project, *env),
{
    let script = iterm_script_exec(project, env);
    let mut args: Vec<String> = Vec::new();
    push_arg(&mut args, "-e");
    push_arg(&mut args, script.as_str());
    assert(strs(args@) =~= seq!["-e"@, script@]);
    process_call(
        String::from_str("osascript"),
        args,
        RunMode::Detached,
        framed("iTerm2 AppleScript: ", ""),
    )
}

/// The plan that opens the project in iTerm2.
pub fn launch_iterm2(project: &Project, env: &LaunchEnv) -> (r: Attempt)
    ensures
        attempt_view(r) == iterm2_attempt(*project, *env),
{
    if project.panes.len() == 0 {
        return Err(String::from_str("Sin panes."));
    }
    let mut plan: Vec<ProcessCall> = Vec::new();
    push_call(&mut plan, iterm2_call_exec(project, env));
    assert(calls(plan@) =~= seq![iterm2_call(*project, *env)]);
    launch_extras(&mut plan, &project.extras, env.platform);
    Ok(plan)
}

} // verus!
