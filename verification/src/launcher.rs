//! A launcher set whose Windows Terminal grid splits panes by explicit
//! target (`split-pane -t 0`, `-t 1`) instead of focusing them first; for
//! PowerShell, PowerShell 7, CMD, tmux, iTerm2, Terminator and Tilix it
//! plans as the shared launchers do. It has no "auto", GNOME Terminal or
//! Terminal.app.
use vstd::prelude::*;
use crate::config::{Pane, Project};
use crate::plan::{
    attempt_view, call_spec, calls, framed, process_call, push_call, Attempt, AttemptSpec,
    CallSpec, FailureSpec, LaunchEnv, LaunchPlan, ProcessCall, RunMode,
};
use crate::terminal::linux::tabs::{launch_tabs, tabs_attempt};
use crate::terminal::linux::tmux::{launch_tmux, tmux_attempt};
use crate::terminal::mac::iterm2::{iterm2_attempt, launch_iterm2};
use crate::terminal::utils::{env_path, extras_calls, launch_extras};
use crate::terminal::windows::cmd::{cmd_attempt, launch_cmd};
use crate::terminal::windows::powershell::{launch_powershell, powershell_attempt};
use crate::terminal::windows::pwsh::{launch_pwsh, pwsh_attempt};
use crate::terminal::windows::wt::{
    holds_in_a_row, lemma_pane_args_title, lemma_piece_in_a_row, lemma_split_args_lead,
    no_panes_message, shows_pane, split_args, wt_pane_args, wt_pane_args_exec,
};
use crate::terminal::{single, unsupported_message};
use crate::text::{
    concat, concat2, concat3, concat_offset, concat_starts_with_first, contains, occurs_at, extend_args, opt_chars,
    str_contains, str_eq, strs,
};

verus! {

// ─────────────────────────── Windows Terminal ──────────────────────────────

/// The arguments for the pane at index `i`. "grid-2x2": the first pane opens
/// the tab, the second splits it vertically, the third splits pane 0 and the
/// fourth splits pane 1 horizontally, any further pane splits vertically.
/// Any other layout: every pane after the first splits the focused pane,
/// vertically for "cols-2" and "cols-3" and horizontally otherwise.
pub open spec fn classic_wt_chunk(
    env: LaunchEnv,
    layout: Seq<char>,
    profile: Option<Seq<char>>,
    i: int,
    pane: Pane,
) -> Seq<Seq<char>> {
    if layout == "grid-2x2"@ {
        if i == 0 {
            wt_pane_args(env, pane, false, ""@, None, profile)
        } else if i == 1 {
            wt_pane_args(env, pane, true, "-V"@, None, profile)
        } else if i == 2 {
            wt_pane_args(env, pane, true, "-H"@, Some("0"@), profile)
        } else if i == 3 {
            wt_pane_args(env, pane, true, "-H"@, Some("1"@), profile)
        } else {
            wt_pane_args(env, pane, true, "-V"@, None, profile)
        }
    } else {
        wt_pane_args(
            env,
            pane,
            i > 0,
            if layout == "cols-2"@ || layout == "cols-3"@ {
                "-V"@
            } else {
                "-H"@
            },
            None,
            profile,
        )
    }
}

pub open spec fn classic_wt_args(project: Project, env: LaunchEnv) -> Seq<Seq<char>> {
    concat(
        Seq::new(
            project.panes@.len(),
            |i: int|
                classic_wt_chunk(
                    env,
                    project.layout@,
                    opt_chars(project.terminal_profile),
                    i,
                    project.panes@[i],
                ),
        ),
    )
}

/// Every pane is opened: for each pane the `wt.exe` command line holds its
/// title and resolved starting directory.
pub proof fn classic_wt_opens_every_pane(project: Project, env: LaunchEnv)
    ensures
        forall|i: int|
            0 <= i < project.panes@.len() ==> #[trigger] shows_pane(
                classic_wt_args(project, env),
                project.panes@[i].name@,
                env_path(env, project.panes@[i].path@),
            ),
{
    let panes = project.panes@;
    let profile = opt_chars(project.terminal_profile);
    let chunks = Seq::new(
        panes.len(),
        |i: int| classic_wt_chunk(env, project.layout@, profile, i, panes[i]),
    );
    let a = classic_wt_args(project, env);
    assert(a == concat(chunks));
    assert forall|i: int| 0 <= i < panes.len() implies #[trigger] shows_pane(
        a,
        panes[i].name@,
        env_path(env, panes[i].path@),
    ) by {
        let layout = project.layout@;
        let t: int = if layout == "grid-2x2"@ {
            if i == 0 {
                lemma_pane_args_title(env, panes[i], false, ""@, None, profile);
                1
            } else if i == 1 {
                lemma_pane_args_title(env, panes[i], true, "-V"@, None, profile);
                3
            } else if i == 2 {
                lemma_pane_args_title(env, panes[i], true, "-H"@, Some("0"@), profile);
                5
            } else if i == 3 {
                lemma_pane_args_title(env, panes[i], true, "-H"@, Some("1"@), profile);
                5
            } else {
                lemma_pane_args_title(env, panes[i], true, "-V"@, None, profile);
                3
            }
        } else {
            let dir = if layout == "cols-2"@ || layout == "cols-3"@ {
                "-V"@
            } else {
                "-H"@
            };
            lemma_pane_args_title(env, panes[i], i > 0, dir, None, profile);
            if i > 0 {
                3
            } else {
                1
            }
        };
        let off = concat_offset(chunks, i);
        assert(a[off + t] == chunks[i][t]);
        assert(a[off + t + 1] == chunks[i][t + 1]);
        assert(a[off + t + 2] == chunks[i][t + 2]);
        assert(a[off + t + 3] == chunks[i][t + 3]);
        assert(a[off + t] == "--title"@);
    }
}

/// How this Windows Terminal launch places the panes after the first: with
/// the "grid-2x2" layout pane 1 splits the tab vertically, pane 2 splits
/// pane 0 and pane 3 splits pane 1 horizontally, and any further pane splits
/// vertically; with "cols-2" or "cols-3" every pane after the first splits
/// vertically (side by side), with any other layout horizontally (stacked).
/// The first pane opens a new tab.
pub proof fn classic_wt_splits_follow_layout(project: Project, env: LaunchEnv)
    ensures
        ({
            let a = classic_wt_args(project, env);
            let layout = project.layout@;
            let panes = project.panes@;
            let cols = layout == "cols-2"@ || layout == "cols-3"@;
            &&& panes.len() > 0 ==> a.len() > 2 && a[0] == "new-tab"@ && a[1] == "--title"@ && a[2] == panes[0].name@
            &&& forall|i: int| 1 <= i < panes.len() ==> {
                let name = #[trigger] panes[i].name@;
                let dir = env_path(env, panes[i].path@);
                &&& cols ==> holds_in_a_row(a, split_args("-V"@, None, name, dir))
                &&& (!cols && layout != "grid-2x2"@) ==> holds_in_a_row(a, split_args("-H"@, None, name, dir))
                &&& (layout == "grid-2x2"@ && (i == 1 || i >= 4)) ==> holds_in_a_row(a, split_args("-V"@, None, name, dir))
                &&& (layout == "grid-2x2"@ && i == 2) ==> holds_in_a_row(a, split_args("-H"@, Some("0"@), name, dir))
                &&& (layout == "grid-2x2"@ && i == 3) ==> holds_in_a_row(a, split_args("-H"@, Some("1"@), name, dir))
            }
        }),
{
    let panes = project.panes@;
    let layout = project.layout@;
    let profile = opt_chars(project.terminal_profile);
    let chunks = Seq::new(panes.len(), |i: int| classic_wt_chunk(env, layout, profile, i, panes[i]));
    let a = classic_wt_args(project, env);
    assert(a == concat(chunks));
    reveal_strlit("cols-2");
    reveal_strlit("cols-3");
    reveal_strlit("grid-2x2");
    assert("cols-2"@.len() == 6 && "cols-3"@.len() == 6 && "grid-2x2"@.len() == 8);
    if panes.len() > 0 {
        lemma_pane_args_title(env, panes[0], false, ""@, None, profile);
        concat_starts_with_first(chunks);
    }
    let cols = layout == "cols-2"@ || layout == "cols-3"@;
    assert forall|i: int| 1 <= i < panes.len() implies {
        let name = #[trigger] panes[i].name@;
        let dir = env_path(env, panes[i].path@);
        &&& cols ==> holds_in_a_row(a, split_args("-V"@, None, name, dir))
        &&& (!cols && layout != "grid-2x2"@) ==> holds_in_a_row(a, split_args("-H"@, None, name, dir))
        &&& (layout == "grid-2x2"@ && (i == 1 || i >= 4)) ==> holds_in_a_row(a, split_args("-V"@, None, name, dir))
        &&& (layout == "grid-2x2"@ && i == 2) ==> holds_in_a_row(a, split_args("-H"@, Some("0"@), name, dir))
        &&& (layout == "grid-2x2"@ && i == 3) ==> holds_in_a_row(a, split_args("-H"@, Some("1"@), name, dir))
    } by {
        let name = panes[i].name@;
        let dir = env_path(env, panes[i].path@);
        let (split, target) = if layout == "grid-2x2"@ {
            if i == 2 {
                ("-H"@, Some("0"@))
            } else if i == 3 {
                ("-H"@, Some("1"@))
            } else {
                ("-V"@, None)
            }
        } else if cols {
            ("-V"@, None)
        } else {
            ("-H"@, None)
        };
        assert(chunks[i] == wt_pane_args(env, panes[i], true, split, target, profile));
        lemma_split_args_lead(env, panes[i], split, target, profile);
        lemma_piece_in_a_row(chunks, i, 0, split_args(split, target, name, dir));
    }
}

/// Refused without panes; otherwise the helper programs, then `wt.exe`.
pub open spec fn classic_wt_attempt(project: Project, env: LaunchEnv) -> AttemptSpec {
    if project.panes@.len() == 0 {
        Err(no_panes_message(project.name@))
    } else {
        Ok(
            extras_calls(strs(project.extras@), env.platform) + seq![
                call_spec(
                    "wt.exe"@,
                    classic_wt_args(project, env),
                    RunMode::Detached,
                    FailureSpec::Framed(
                        "No se pudo abrir Windows Terminal: "@,
                        ". ¿Está instalado?"@,
                    ),
                ),
            ],
        )
    }
}

fn classic_wt_chunk_exec(env: &LaunchEnv, project: &Project, i: usize) -> (r: Vec<String>)
    requires
        i < project.panes@.len(),
    ensures
        strs(r@) == classic_wt_chunk(
            *env,
            project.layout@,
            opt_chars(project.terminal_profile),
            i as int,
            project.panes@[i as int],
        ),
{
    let pane = &project.panes[i];
    let profile = &project.terminal_profile;
    let layout = project.layout.as_str();
    if str_eq(layout, "grid-2x2") {
        if i == 0 {
            wt_pane_args_exec(env, pane, false, "", None, profile)
        } else if i == 1 {
            wt_pane_args_exec(env, pane, true, "-V", None, profile)
        } else if i == 2 {
            wt_pane_args_exec(env, pane, true, "-H", Some("0"), profile)
        } else if i == 3 {
            wt_pane_args_exec(env, pane, true, "-H", Some("1"), profile)
        } else {
            wt_pane_args_exec(env, pane, true, "-V", None, profile)
        }
    } else {
        let dir = if str_eq(layout, "cols-2") || str_eq(layout, "cols-3") {
            "-V"
        } else {
            "-H"
        };
        wt_pane_args_exec(env, pane, i > 0, dir, None, profile)
    }
}

/// The plan that opens the project in Windows Terminal.
fn launch_wt(project: &Project, env: &LaunchEnv) -> (r: Attempt)
    ensures
        attempt_view(r) == classic_wt_attempt(*project, *env),
{
    if project.panes.len() == 0 {
        return Err(concat3("El proyecto '", project.name.as_str(), "' no tiene panes configurados."));
    }
    let ghost chunks = Seq::new(
        project.panes@.len(),
        |i: int|
            classic_wt_chunk(
                *env,
                project.layout@,
                opt_chars(project.terminal_profile),
                i,
                project.panes@[i],
            ),
    );
    let n = project.panes.len();
    let mut args: Vec<String> = Vec::new();
    let mut i: usize = 0;
    assert(chunks.take(0) =~= Seq::<Seq<Seq<char>>>::empty());
    while i < n
        invariant
            n == project.panes@.len(),
            i <= n,
            chunks == Seq::new(
                project.panes@.len(),
                |i: int|
                    classic_wt_chunk(
                        *env,
                        project.layout@,
                        opt_chars(project.terminal_profile),
                        i,
                        project.panes@[i],
                    ),
            ),
            strs(args@) == concat(chunks.take(i as int)),
        decreases n - i,
    {
        let more = classic_wt_chunk_exec(env, project, i);
        extend_args(&mut args, more);
        assert(chunks.take(i + 1).drop_last() =~= chunks.take(i as int));
        i = i + 1;
    }
    assert(chunks.take(n as int) =~= chunks);
    let mut plan: Vec<ProcessCall> = Vec::new();
    assert(calls(plan@) =~= Seq::<CallSpec>::empty());
    launch_extras(&mut plan, &project.extras, env.platform);
    let ghost before = calls(plan@);
    let call = process_call(
        String::from_str("wt.exe"),
        args,
        RunMode::Detached,
        framed("No se pudo abrir Windows Terminal: ", ". ¿Está instalado?"),
    );
    let ghost c = call@;
    push_call(&mut plan, call);
    assert(calls(plan@) =~= before + seq![c]);
    Ok(plan)
}

// ───────────────────────────────── choice ──────────────────────────────────

/// The attempt for the terminal a project names.
pub open spec fn classic_attempt(project: Project, env: LaunchEnv) -> AttemptSpec {
    let t = project.terminal@;
    if t == "windows-terminal"@ || t == "wt"@ {
        classic_wt_attempt(project, env)
    } else if t == "powershell"@ {
        powershell_attempt(project, env)
    } else if t == "pwsh"@ {
        pwsh_attempt(project, env)
    } else if t == "cmd"@ {
        cmd_attempt(project, env)
    } else if t == "tmux"@ {
        tmux_attempt(project, env)
    } else if t == "iterm2"@ {
        iterm2_attempt(project, env)
    } else if t == "terminator"@ || t == "tilix"@ {
        tabs_attempt(project, env, t)
    } else {
        Err(unsupported_message(t))
    }
}

/// This launcher opens each terminal it knows with that terminal's launch,
/// never with a second attempt: "windows-terminal" and "wt" with the Windows
/// Terminal launch above, "powershell", "pwsh", "cmd", "tmux" and "iterm2"
/// with theirs, "terminator" and "tilix" with the tab launcher for that
/// program. Any other name, "auto" among them, is refused with
/// "Terminal '<name>' no soportada.".
pub proof fn classic_terminals_open_with_their_launcher(project: Project, env: LaunchEnv)
    ensures
        ({
            let t = project.terminal@;
            let a = classic_attempt(project, env);
            &&& (t == "windows-terminal"@ || t == "wt"@) ==> a == classic_wt_attempt(project, env)
            &&& t == "powershell"@ ==> a == powershell_attempt(project, env)
            &&& t == "pwsh"@ ==> a == pwsh_attempt(project, env)
            &&& t == "cmd"@ ==> a == cmd_attempt(project, env)
            &&& t == "tmux"@ ==> a == tmux_attempt(project, env)
            &&& t == "iterm2"@ ==> a == iterm2_attempt(project, env)
            &&& (t == "terminator"@ || t == "tilix"@) ==> a == tabs_attempt(project, env, t)
            &&& !(t == "windows-terminal"@ || t == "wt"@ || t == "powershell"@ || t == "pwsh"@ || t
                == "cmd"@ || t == "tmux"@ || t == "iterm2"@ || t == "terminator"@ || t == "tilix"@)
                ==> a == Err::<Seq<CallSpec>, Seq<char>>("Terminal '"@ + t + "' no soportada."@)
        }),
{
    reveal_strlit("windows-terminal");
    reveal_strlit("wt");
    reveal_strlit("powershell");
    reveal_strlit("pwsh");
    reveal_strlit("cmd");
    reveal_strlit("tmux");
    reveal_strlit("iterm2");
    reveal_strlit("terminator");
    reveal_strlit("tilix");
    assert("windows-terminal"@.len() == 16 && "wt"@.len() == 2 && "cmd"@.len() == 3);
    assert("pwsh"@.len() == 4 && "tmux"@.len() == 4 && "pwsh"@[0] == 'p' && "tmux"@[0] == 't');
    assert("powershell"@.len() == 10 && "terminator"@.len() == 10);
    assert("powershell"@[0] == 'p' && "terminator"@[0] == 't');
    assert("iterm2"@.len() == 6 && "tilix"@.len() == 5);
}

/// This Windows Terminal launch: refused with "El proyecto '<name>' no
/// tiene panes configurados." for a project without panes; otherwise the
/// helper programs start first and then `wt.exe` runs with the pane
/// arguments; a failure reads "No se pudo abrir Windows Terminal: <error>.
/// ¿Está instalado?".
pub proof fn classic_wt_launch_order(project: Project, env: LaunchEnv)
    ensures
        project.panes@.len() == 0 ==> classic_wt_attempt(project, env) == Err::<Seq<CallSpec>, Seq<char>>(
            "El proyecto '"@ + project.name@ + "' no tiene panes configurados."@,
        ),
        project.panes@.len() > 0 ==> classic_wt_attempt(project, env) == Ok::<Seq<CallSpec>, Seq<char>>(
            extras_calls(strs(project.extras@), env.platform) + seq![
                CallSpec {
                    program: "wt.exe"@,
                    args: classic_wt_args(project, env),
                    mode: RunMode::Detached,
                    failure: FailureSpec::Framed("No se pudo abrir Windows Terminal: "@, ". ¿Está instalado?"@),
                    hidden_console: false,
                },
            ],
        ),
{
}

/// The plan that opens a project in the terminal it names (no fallback);
/// an unknown terminal gives a plan that fails with "Terminal '<name>' no soportada.".
pub fn launch(project: &Project, env: &LaunchEnv) -> (r: LaunchPlan)
    ensures
        r@ == single(classic_attempt(*project, *env)),
{
    let t = project.terminal.as_str();
    let attempt = if str_eq(t, "windows-terminal") || str_eq(t, "wt") {
        launch_wt(project, env)
    } else if str_eq(t, "powershell") {
        launch_powershell(project, env)
    } else if str_eq(t, "pwsh") {
        launch_pwsh(project, env)
    } else if str_eq(t, "cmd") {
        launch_cmd(project, env)
    } else if str_eq(t, "tmux") {
        launch_tmux(project, env)
    } else if str_eq(t, "iterm2") {
        launch_iterm2(project, env)
    } else if str_eq(t, "terminator") || str_eq(t, "tilix") {
        launch_tabs(project, env, t)
    } else {
        Err(concat3("Terminal '", t, "' no soportada."))
    };
    LaunchPlan { attempt, fallback: None }
}

// ─────────────────────────────── helpers ───────────────────────────────────

/// The command line that runs `command` in the shell a profile names:
/// PowerShell 7 for a profile mentioning "pwsh", Windows PowerShell for
/// "powershell", an interactive bash or zsh that stays open for "bash" or
/// "zsh"; the command as it is otherwise.
pub open spec fn shell_command(command: Seq<char>, profile: Seq<char>) -> Seq<char> {
    if contains(profile, "pwsh"@) {
        "pwsh.exe -NoExit -Command "@ + command
    } else if contains(profile, "powershell"@) {
        "powershell.exe -NoExit -Command "@ + command
    } else if contains(profile, "bash"@) {
        "bash -ic '"@ + command + " ; exec bash'"@
    } else if contains(profile, "zsh"@) {
        "zsh -ic '"@ + command + " ; exec zsh'"@
    } else {
        command
    }
}

pub fn get_shell_command(command: &str, profile: &str) -> (r: String)
    ensures
        r@ == shell_command(command@, profile@),
{
    if str_contains(profile, "pwsh") {
        concat2("pwsh.exe -NoExit -Command ", command)
    } else if str_contains(profile, "powershell") {
        concat2("powershell.exe -NoExit -Command ", command)
    } else if str_contains(profile, "bash") {
        concat3("bash -ic '", command, " ; exec bash'")
    } else if str_contains(profile, "zsh") {
        concat3("zsh -ic '", command, " ; exec zsh'")
    } else {
        String::from_str(command)
    }
}

/// The command line a profile runs: "pwsh.exe -NoExit -Command <command>"
/// when the profile mentions "pwsh"; otherwise "powershell.exe -NoExit
/// -Command <command>" when it mentions "powershell"; otherwise
/// "bash -ic '<command> ; exec bash'" for "bash" and
/// "zsh -ic '<command> ; exec zsh'" for "zsh"; the command alone for any
/// other profile. The command is always part of the line.
pub proof fn shell_command_by_profile(command: Seq<char>, profile: Seq<char>)
    ensures
        contains(profile, "pwsh"@) ==> shell_command(command, profile) == "pwsh.exe -NoExit -Command "@ + command,
        !contains(profile, "pwsh"@) && contains(profile, "powershell"@) ==> shell_command(command, profile)
            == "powershell.exe -NoExit -Command "@ + command,
        !contains(profile, "pwsh"@) && !contains(profile, "powershell"@) && contains(profile, "bash"@)
            ==> shell_command(command, profile) == "bash -ic '"@ + command + " ; exec bash'"@,
        !contains(profile, "pwsh"@) && !contains(profile, "powershell"@) && !contains(profile, "bash"@)
            && contains(profile, "zsh"@) ==> shell_command(command, profile) == "zsh -ic '"@ + command
            + " ; exec zsh'"@,
        !contains(profile, "pwsh"@) && !contains(profile, "powershell"@) && !contains(profile, "bash"@)
            && !contains(profile, "zsh"@) ==> shell_command(command, profile) == command,
        contains(shell_command(command, profile), command),
{
    let r = shell_command(command, profile);
    let (pre, post) = if contains(profile, "pwsh"@) {
        ("pwsh.exe -NoExit -Command "@, Seq::<char>::empty())
    } else if contains(profile, "powershell"@) {
        ("powershell.exe -NoExit -Command "@, Seq::<char>::empty())
    } else if contains(profile, "bash"@) {
        ("bash -ic '"@, " ; exec bash'"@)
    } else if contains(profile, "zsh"@) {
        ("zsh -ic '"@, " ; exec zsh'"@)
    } else {
        (Seq::<char>::empty(), Seq::<char>::empty())
    };
    assert(r =~= pre + command + post);
    assert(r.subrange(pre.len() as int, pre.len() + command.len() as int) =~= command);
    assert(occurs_at(r, command, pre.len() as int));
}

/// Whether a layout tree holds a pane anywhere.
pub open spec fn has_pane(node: LayoutNode) -> bool
    decreases node,
{
    match node {
        LayoutNode::Pane { .. } => true,
        LayoutNode::Split { left, right } => has_pane(*left) || has_pane(*right),
        LayoutNode::Other => false,
    }
}

/// A layout tree has a first pane exactly when it holds a pane; a pane is
/// its own first pane (pane 0 when its index cannot be read); a split's
/// first pane is that of its left side when the left side holds a pane,
/// and that of its right side otherwise.
pub proof fn first_pane_is_leftmost(node: LayoutNode)
    ensures
        first_pane(node) is Some <==> has_pane(node),
        node matches LayoutNode::Pane { index } ==> first_pane(node) == Some(
            match index {
                Some(i) => i as usize,
                None => 0usize,
            },
        ),
        node matches LayoutNode::Split { left, right } ==> first_pane(node) == (if has_pane(*left) {
            first_pane(*left)
        } else {
            first_pane(*right)
        }),
    decreases node,
{
    match node {
        LayoutNode::Split { left, right } => {
            first_pane_is_leftmost(*left);
            first_pane_is_leftmost(*right);
        },
        _ => {},
    }
}

/// A node of a saved pane layout tree, holding what the layout code reads of
/// the JSON node: its "type" ("pane", "split" or anything else), a pane's
/// "index" when it is an unsigned integer, and a split's two children.
#[derive(Debug, PartialEq, Eq)]
pub enum LayoutNode {
    Pane { index: Option<u64> },
    Split { left: Box<LayoutNode>, right: Box<LayoutNode> },
    Other,
}

/// The index of the first pane of a layout tree, left before right; a pane
/// without a readable index counts as pane 0.
pub open spec fn first_pane(node: LayoutNode) -> Option<usize>
    decreases node,
{
    match node {
        LayoutNode::Pane { index } => Some(
            match index {
                Some(i) => i as usize,
                None => 0usize,
            },
        ),
        LayoutNode::Split { left, right } => match first_pane(*left) {
            Some(i) => Some(i),
            None => first_pane(*right),
        },
        LayoutNode::Other => None,
    }
}

pub fn find_first_pane_index(node: &LayoutNode) -> (r: Option<usize>)
    ensures
        r == first_pane(*node),
    decreases node,
{
    match node {
        LayoutNode::Pane { index } => Some(
            match index {
                Some(i) => *i as usize,
                None => 0,
            },
        ),
        LayoutNode::Split { left, right } => match find_first_pane_index(left) {
            Some(i) => Some(i),
            None => find_first_pane_index(right),
        },
        LayoutNode::Other => None,
    }
}

} // verus!
