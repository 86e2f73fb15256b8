//! Windows Terminal: one `wt.exe` command line that opens a tab and splits
//! it into the project's panes.
use vstd::prelude::*;
use crate::config::{Pane, Platform, Project};
use crate::plan::{
    attempt_view, calls, push_call, Attempt, AttemptSpec, CallSpec, Failure, FailureSpec,
    LaunchEnv, ProcessCall, RunMode,
};
use crate::terminal::utils::{env_path, extras_calls, launch_extras, resolve_with_home};
use crate::text::{
    concat, concat2, concat3, concat_offset, concat_piece_at, concat_starts_with_first, contains, extend_args, lowered, opt_chars, push_arg, str_contains,
    str_eq, strs, to_lowercase, trim, trimmed,
};

verus! {

/// The program that runs a pane's (trimmed) command: PowerShell 7 when the
/// command mentions "pwsh", bash when it mentions "bash" (the pane then stays
/// in bash), Windows PowerShell otherwise; the test ignores case.
pub open spec fn wt_shell_args(cmd: Seq<char>) -> Seq<Seq<char>> {
    let lower = lowered(cmd);
    if contains(lower, "pwsh"@) {
        seq!["pwsh.exe"@, "-NoExit"@, "-Command"@, cmd]
    } else if contains(lower, "bash"@) {
        seq!["bash.exe"@, "-c"@, cmd + "; exec bash"@]
    } else {
        seq!["powershell.exe"@, "-NoExit"@, "-Command"@, cmd]
    }
}

/// The `wt.exe` arguments for one pane: a new tab, or a split of the pane
/// `target` (the focused one when `None`) in direction `split_dir`; then the
/// title, starting directory, profile and command line.
pub open spec fn wt_pane_args(
    env: LaunchEnv,
    pane: Pane,
    is_split: bool,
    split_dir: Seq<char>,
    target: Option<Seq<char>>,
    profile: Option<Seq<char>>,
) -> Seq<Seq<char>> {
    (if is_split {
        seq![";"@, "split-pane"@] + (match target {
            Some(t) => seq!["-t"@, t],
            None => Seq::empty(),
        }) + seq![split_dir]
    } else {
        seq!["new-tab"@]
    }) + seq!["--title"@, pane.name@, "--startingDirectory"@, env_path(env, pane.path@)] + (
    match profile {
        Some(p) => seq!["--profile"@, p],
        None => Seq::empty(),
    }) + seq!["--"@] + wt_shell_args(trimmed(pane.command@))
}

pub(crate) fn wt_pane_args_exec(
    env: &LaunchEnv,
    pane: &Pane,
    is_split: bool,
    split_dir: &str,
    target: Option<&str>,
    profile: &Option<String>,
) -> (r: Vec<String>)
    ensures
        strs(r@) == wt_pane_args(
            *env,
            *pane,
            is_split,
            split_dir@,
            match target {
                Some(t) => Some(t@),
                None => None,
            },
            opt_chars(*profile),
        ),
{
    let dir = resolve_with_home(pane.path.as_str(), &env.home);
    let cmd = trim(pane.command.as_str());
    let mut v: Vec<String> = Vec::new();
    if is_split {
        push_arg(&mut v, ";");
        push_arg(&mut v, "split-pane");
        match target {
            Some(t) => {
                push_arg(&mut v, "-t");
                push_arg(&mut v, t);
            },
            None => {},
        }
        push_arg(&mut v, split_dir);
    } else {
        push_arg(&mut v, "new-tab");
    }
    let ghost head = strs(v@);
    push_arg(&mut v, "--title");
    push_arg(&mut v, pane.name.as_str());
    push_arg(&mut v, "--startingDirectory");
    push_arg(&mut v, dir.as_str());
    let ghost mid = strs(v@);
    match profile {
        Some(p) => {
            push_arg(&mut v, "--profile");
            push_arg(&mut v, p.as_str());
        },
        None => {},
    }
    let ghost with_profile = strs(v@);
    push_arg(&mut v, "--");
    let lower = to_lowercase(cmd.as_str());
    if str_contains(lower.as_str(), "pwsh") {
        push_arg(&mut v, "pwsh.exe");
        push_arg(&mut v, "-NoExit");
        push_arg(&mut v, "-Command");
        push_arg(&mut v, cmd.as_str());
    } else if str_contains(lower.as_str(), "bash") {
        push_arg(&mut v, "bash.exe");
        push_arg(&mut v, "-c");
        let line = concat2(cmd.as_str(), "; exec bash");
        push_arg(&mut v, line.as_str());
    } else {
        push_arg(&mut v, "powershell.exe");
        push_arg(&mut v, "-NoExit");
        push_arg(&mut v, "-Command");
        push_arg(&mut v, cmd.as_str());
    }
    assert(strs(v@) =~= with_profile + seq!["--"@] + wt_shell_args(trimmed(pane.command@)));
    assert(mid =~= head + seq!["--title"@, pane.name@, "--startingDirectory"@, dir@]);
    assert(strs(v@) =~= wt_pane_args(
        *env,
        *pane,
        is_split,
        split_dir@,
        match target {
            Some(t) => Some(t@),
            None => None,
        },
        opt_chars(*profile),
    ));
    v
}

/// The arguments for the pane at index `i` of a project with this layout.
/// "grid-2x2": the first pane opens the tab, the second splits it
/// vertically, the third and fourth split the first and second horizontally
/// (focusing them first), any further pane splits vertically. Any other
/// layout: every pane after the first splits the focused pane, vertically
/// for "cols-2" and horizontally otherwise.
pub open spec fn wt_chunk(
    env: LaunchEnv,
    layout: Seq<char>,
    profile: Option<Seq<char>>,
    i: int,
    pane: Pane,
) -> Seq<Seq<char>> {
    if layout == "grid-2x2"@ {
        if i == 0 {
            wt_pane_args(env, pane, false, ""@, None, profile)
        } else if i == 1 {
            wt_pane_args(env, pane, true, "-V"@, None, profile)
        } else if i == 2 {
            seq![";"@, "focus-pane"@, "-t"@, "0"@] + wt_pane_args(env, pane, true, "-H"@, None, profile)
        } else if i == 3 {
            seq![";"@, "focus-pane"@, "-t"@, "1"@] + wt_pane_args(env, pane, true, "-H"@, None, profile)
        } else {
            wt_pane_args(env, pane, true, "-V"@, None, profile)
        }
    } else {
        wt_pane_args(
            env,
            pane,
            i > 0,
            if layout == "cols-2"@ {
                "-V"@
            } else {
                "-H"@
            },
            None,
            profile,
        )
    }
}

/// The whole `wt.exe` command line of a project.
pub open spec fn wt_args(project: Project, env: LaunchEnv) -> Seq<Seq<char>> {
    let panes = project.panes@;
    concat(
        Seq::new(
            panes.len(),
            |i: int| wt_chunk(
                    env,
                    project.layout@,
                    opt_chars(project.terminal_profile),
                    i,
                    panes[i],
                ),
        ),
    )
}

pub(crate) proof fn lemma_pane_args_title(
    env: LaunchEnv,
    pane: Pane,
    is_split: bool,
    split_dir: Seq<char>,
    target: Option<Seq<char>>,
    profile: Option<Seq<char>>,
)
    ensures
        ({
            let a = wt_pane_args(env, pane, is_split, split_dir, target, profile);
            let t: int = if is_split {
                3 + (if target is Some { 2int } else { 0int })
            } else {
                1
            };
            &&& t + 3 < a.len()
            &&& a[t] == "--title"@
            &&& a[t + 1] == pane.name@
            &&& a[t + 2] == "--startingDirectory"@
            &&& a[t + 3] == env_path(env, pane.path@)
        }),
{
}

/// Where the title of the pane at index `i` starts in its chunk.
proof fn lemma_chunk_title(
    env: LaunchEnv,
    layout: Seq<char>,
    profile: Option<Seq<char>>,
    i: int,
    pane: Pane,
) -> (t: int)
    requires
        0 <= i,
    ensures
        ({
            let c = wt_chunk(env, layout, profile, i, pane);
            &&& 0 <= t
            &&& t + 3 < c.len()
            &&& c[t] == "--title"@
            &&& c[t + 1] == pane.name@
            &&& c[t + 2] == "--startingDirectory"@
            &&& c[t + 3] == env_path(env, pane.path@)
        }),
{
    if layout == "grid-2x2"@ {
        if i == 0 {
            lemma_pane_args_title(env, pane, false, ""@, None, profile);
            1
        } else if i == 1 {
            lemma_pane_args_title(env, pane, true, "-V"@, None, profile);
            3
        } else if i == 2 || i == 3 {
            lemma_pane_args_title(env, pane, true, "-H"@, None, profile);
            7
        } else {
            lemma_pane_args_title(env, pane, true, "-V"@, None, profile);
            3
        }
    } else {
        let dir = if layout == "cols-2"@ {
            "-V"@
        } else {
            "-H"@
        };
        lemma_pane_args_title(env, pane, i > 0, dir, None, profile);
        if i > 0 {
            3
        } else {
            1
        }
    }
}

/// `args` holds "--title", `name`, "--startingDirectory", `dir` in a row.
pub open spec fn shows_pane(args: Seq<Seq<char>>, name: Seq<char>, dir: Seq<char>) -> bool {
    exists|j: int|
        0 <= j && j + 3 < args.len() && #[trigger] args[j] == "--title"@ && args[j + 1] == name
            && args[j + 2] == "--startingDirectory"@ && args[j + 3] == dir
}

/// Every pane is opened: for each pane the `wt.exe` command line holds
/// "--title", the pane's name, "--startingDirectory" and the pane's resolved
/// directory, in a row.
pub proof fn wt_opens_every_pane(project: Project, env: LaunchEnv)
    ensures
        forall|i: int|
            0 <= i < project.panes@.len() ==> #[trigger] shows_pane(
                wt_args(project, env),
                project.panes@[i].name@,
                env_path(env, project.panes@[i].path@),
            ),
{
    let panes = project.panes@;
    let profile = opt_chars(project.terminal_profile);
    let chunks = Seq::new(
        panes.len(),
        |i: int| wt_chunk(env, project.layout@, profile, i, panes[i]),
    );
    assert(wt_args(project, env) == concat(chunks));
    assert forall|i: int| 0 <= i < panes.len() implies #[trigger] shows_pane(
        wt_args(project, env),
        panes[i].name@,
        env_path(env, panes[i].path@),
    ) by {
        let t = lemma_chunk_title(env, project.layout@, profile, i, panes[i]);
        let off = concat_offset(chunks, i);
        let a = wt_args(project, env);
        assert(a[off + t] == chunks[i][t]);
        assert(a[off + t + 1] == chunks[i][t + 1]);
        assert(a[off + t + 2] == chunks[i][t + 2]);
        assert(a[off + t + 3] == chunks[i][t + 3]);
        assert(a[off + t] == "--title"@);
    }
}

/// The arguments that open pane `name` in directory `dir` by splitting in
/// direction `split` (the pane `target` when given, else the focused one).
pub open spec fn split_args(
    split: Seq<char>,
    target: Option<Seq<char>>,
    name: Seq<char>,
    dir: Seq<char>,
) -> Seq<Seq<char>> {
    seq![";"@, "split-pane"@] + (match target {
        Some(t) => seq!["-t"@, t],
        None => Seq::empty(),
    }) + seq![split, "--title"@, name, "--startingDirectory"@, dir]
}

/// `args` holds `part` in a row.
pub open spec fn holds_in_a_row(args: Seq<Seq<char>>, part: Seq<Seq<char>>) -> bool {
    exists|j: int| 0 <= j && j + part.len() <= args.len() && #[trigger] args.subrange(j, j + part.len()) == part
}

/// A split pane's arguments start with its split, title and directory.
pub(crate) proof fn lemma_split_args_lead(
    env: LaunchEnv,
    pane: Pane,
    split: Seq<char>,
    target: Option<Seq<char>>,
    profile: Option<Seq<char>>,
)
    ensures
        ({
            let a = wt_pane_args(env, pane, true, split, target, profile);
            let part = split_args(split, target, pane.name@, env_path(env, pane.path@));
            part.len() <= a.len() && a.subrange(0, part.len() as int) == part
        }),
{
    let a = wt_pane_args(env, pane, true, split, target, profile);
    let part = split_args(split, target, pane.name@, env_path(env, pane.path@));
    assert(a.subrange(0, part.len() as int) =~= part);
}

/// What stands in a row inside one piece of `concat(chunks)` stands in a row
/// in the whole.
pub(crate) proof fn lemma_piece_in_a_row(chunks: Seq<Seq<Seq<char>>>, i: int, o: int, part: Seq<Seq<char>>)
    requires
        0 <= i < chunks.len(),
        0 <= o,
        o + part.len() <= chunks[i].len(),
        chunks[i].subrange(o, o + part.len()) == part,
    ensures
        holds_in_a_row(concat(chunks), part),
{
    let e = Seq::<Seq<char>>::empty();
    let at = concat_piece_at(e, chunks, e, i);
    let a = concat(chunks);
    assert(e + a + e =~= a);
    assert(a.subrange(at + o, at + o + part.len()) =~= part) by {
        assert forall|j: int| 0 <= j < part.len() implies a.subrange(at + o, at + o + part.len())[j]
            == part[j] by {
            assert(a.subrange(at, at + chunks[i].len())[o + j] == chunks[i][o + j]);
            assert(chunks[i].subrange(o, o + part.len())[j] == chunks[i][o + j]);
        }
    }
    assert(holds_in_a_row(a, part)) by {
        assert(0 <= at + o);
    }
}

/// The arguments for one pane: a new tab, or a split (of the pane `target`
/// when given) in direction `split`; then the pane's title and resolved
/// starting directory, the profile when one is set, "--", and the program:
/// the trimmed command runs in PowerShell 7 (`pwsh.exe -NoExit -Command`)
/// when, ignoring case, it mentions "pwsh", else in bash (`bash.exe -c`,
/// staying in bash afterwards) when it mentions "bash", else in Windows
/// PowerShell (`powershell.exe -NoExit -Command`).
pub proof fn wt_pane_runs_command(
    env: LaunchEnv,
    pane: Pane,
    is_split: bool,
    split: Seq<char>,
    target: Option<Seq<char>>,
    profile: Option<Seq<char>>,
)
    ensures
        ({
            let cmd = trimmed(pane.command@);
            let dir = env_path(env, pane.path@);
            let program = if contains(lowered(cmd), "pwsh"@) {
                seq!["pwsh.exe"@, "-NoExit"@, "-Command"@, cmd]
            } else if contains(lowered(cmd), "bash"@) {
                seq!["bash.exe"@, "-c"@, cmd + "; exec bash"@]
            } else {
                seq!["powershell.exe"@, "-NoExit"@, "-Command"@, cmd]
            };
            wt_pane_args(env, pane, is_split, split, target, profile) == (if is_split {
                split_args(split, target, pane.name@, dir)
            } else {
                seq!["new-tab"@, "--title"@, pane.name@, "--startingDirectory"@, dir]
            }) + (match profile {
                Some(p) => seq!["--profile"@, p],
                None => Seq::empty(),
            }) + seq!["--"@] + program
        }),
{
    let cmd = trimmed(pane.command@);
    let dir = env_path(env, pane.path@);
    let program = if contains(lowered(cmd), "pwsh"@) {
        seq!["pwsh.exe"@, "-NoExit"@, "-Command"@, cmd]
    } else if contains(lowered(cmd), "bash"@) {
        seq!["bash.exe"@, "-c"@, cmd + "; exec bash"@]
    } else {
        seq!["powershell.exe"@, "-NoExit"@, "-Command"@, cmd]
    };
    assert(wt_shell_args(cmd) == program);
    assert(wt_pane_args(env, pane, is_split, split, target, profile) =~= (if is_split {
        split_args(split, target, pane.name@, dir)
    } else {
        seq!["new-tab"@, "--title"@, pane.name@, "--startingDirectory"@, dir]
    }) + (match profile {
        Some(p) => seq!["--profile"@, p],
        None => Seq::empty(),
    }) + seq!["--"@] + program);
}

/// The Windows Terminal launch: refused with "El proyecto '<name>' no tiene
/// panes configurados." for a project without panes; otherwise the helper
/// programs start first and then `wt.exe` runs with the pane arguments,
/// without a console window on Windows; a failure reads "No se pudo abrir
/// Windows Terminal: <error>. ¿Está instalado?".
pub proof fn wt_launch_order(project: Project, env: LaunchEnv)
    ensures
        project.panes@.len() == 0 ==> wt_attempt(project, env) == Err::<Seq<CallSpec>, Seq<char>>(
            "El proyecto '"@ + project.name@ + "' no tiene panes configurados."@,
        ),
        project.panes@.len() > 0 ==> wt_attempt(project, env) == Ok::<Seq<CallSpec>, Seq<char>>(
            extras_calls(strs(project.extras@), env.platform) + seq![
                CallSpec {
                    program: "wt.exe"@,
                    args: wt_args(project, env),
                    mode: RunMode::Detached,
                    failure: FailureSpec::Framed("No se pudo abrir Windows Terminal: "@, ". ¿Está instalado?"@),
                    hidden_console: env.platform == Platform::Windows,
                },
            ],
        ),
{
}

/// How Windows Terminal places the panes after the first: with the
/// "grid-2x2" layout pane 1 splits the tab vertically, pane 2 focuses pane 0
/// and splits it horizontally, pane 3 focuses pane 1 and splits it
/// horizontally, and any further pane splits vertically; with "cols-2" every
/// pane after the first splits vertically (side by side), with any other
/// layout horizontally (stacked). The first pane opens a new tab.
pub proof fn wt_splits_follow_layout(project: Project, env: LaunchEnv)
    ensures
        ({
            let a = wt_args(project, env);
            let layout = project.layout@;
            let panes = project.panes@;
            &&& panes.len() > 0 ==> a.len() > 2 && a[0] == "new-tab"@ && a[1] == "--title"@ && a[2] == panes[0].name@
            &&& forall|i: int| 1 <= i < panes.len() ==> {
                let name = #[trigger] panes[i].name@;
                let dir = env_path(env, panes[i].path@);
                &&& (layout == "cols-2"@) ==> holds_in_a_row(a, split_args("-V"@, None, name, dir))
                &&& (layout != "cols-2"@ && layout != "grid-2x2"@) ==> holds_in_a_row(a, split_args("-H"@, None, name, dir))
                &&& (layout == "grid-2x2"@ && (i == 1 || i >= 4)) ==> holds_in_a_row(a, split_args("-V"@, None, name, dir))
                &&& (layout == "grid-2x2"@ && i == 2) ==> holds_in_a_row(
                    a,
                    seq![";"@, "focus-pane"@, "-t"@, "0"@] + split_args("-H"@, None, name, dir),
                )
                &&& (layout == "grid-2x2"@ && i == 3) ==> holds_in_a_row(
                    a,
                    seq![";"@, "focus-pane"@, "-t"@, "1"@] + split_args("-H"@, None, name, dir),
                )
            }
        }),
{
    let panes = project.panes@;
    let layout = project.layout@;
    let profile = opt_chars(project.terminal_profile);
    let chunks = Seq::new(panes.len(), |i: int| wt_chunk(env, layout, profile, i, panes[i]));
    let a = wt_args(project, env);
    assert(a == concat(chunks));
    reveal_strlit("cols-2");
    reveal_strlit("grid-2x2");
    assert("cols-2"@.len() == 6 && "grid-2x2"@.len() == 8);
    if panes.len() > 0 {
        lemma_pane_args_title(env, panes[0], false, ""@, None, profile);
        concat_starts_with_first(chunks);
        assert(a[0] == chunks[0][0] && a[1] == chunks[0][1] && a[2] == chunks[0][2]);
    }
    assert forall|i: int| 1 <= i < panes.len() implies {
        let name = #[trigger] panes[i].name@;
        let dir = env_path(env, panes[i].path@);
        &&& (layout == "cols-2"@) ==> holds_in_a_row(a, split_args("-V"@, None, name, dir))
        &&& (layout != "cols-2"@ && layout != "grid-2x2"@) ==> holds_in_a_row(a, split_args("-H"@, None, name, dir))
        &&& (layout == "grid-2x2"@ && (i == 1 || i >= 4)) ==> holds_in_a_row(a, split_args("-V"@, None, name, dir))
        &&& (layout == "grid-2x2"@ && i == 2) ==> holds_in_a_row(
            a,
            seq![";"@, "focus-pane"@, "-t"@, "0"@] + split_args("-H"@, None, name, dir),
        )
        &&& (layout == "grid-2x2"@ && i == 3) ==> holds_in_a_row(
            a,
            seq![";"@, "focus-pane"@, "-t"@, "1"@] + split_args("-H"@, None, name, dir),
        )
    } by {
        let name = panes[i].name@;
        let dir = env_path(env, panes[i].path@);
        let c = chunks[i];
        if layout == "grid-2x2"@ && (i == 2 || i == 3) {
            let focus = if i == 2 { seq![";"@, "focus-pane"@, "-t"@, "0"@] } else { seq![";"@, "focus-pane"@, "-t"@, "1"@] };
            let rest = wt_pane_args(env, panes[i], true, "-H"@, None, profile);
            assert(c == focus + rest);
            lemma_split_args_lead(env, panes[i], "-H"@, None, profile);
            let part = focus + split_args("-H"@, None, name, dir);
            assert(c.subrange(0, part.len() as int) =~= part) by {
                assert(rest.subrange(0, split_args("-H"@, None, name, dir).len() as int) == split_args("-H"@, None, name, dir));
                assert forall|j: int| 0 <= j < part.len() implies c.subrange(0, part.len() as int)[j] == part[j] by {
                    if j >= 4 {
                        assert(rest.subrange(0, split_args("-H"@, None, name, dir).len() as int)[j - 4] == rest[j - 4]);
                    }
                }
            }
            lemma_piece_in_a_row(chunks, i, 0, part);
        } else {
            let split = if layout == "grid-2x2"@ {
                if i == 1 || i >= 4 { "-V"@ } else { "-H"@ }
            } else if layout == "cols-2"@ {
                "-V"@
            } else {
                "-H"@
            };
            assert(c == wt_pane_args(env, panes[i], true, split, None, profile));
            lemma_split_args_lead(env, panes[i], split, None, profile);
            lemma_piece_in_a_row(chunks, i, 0, split_args(split, None, name, dir));
        }
    }
}

/// Starting `wt.exe`; a failure reads "No se pudo abrir Windows Terminal: <error>. ¿Está instalado?".
pub open spec fn wt_call(args: Seq<Seq<char>>, hidden: bool) -> CallSpec {
    CallSpec {
        program: "wt.exe"@,
        args,
        mode: RunMode::Detached,
        failure: FailureSpec::Framed(
            "No se pudo abrir Windows Terminal: "@,
            ". ¿Está instalado?"@,
        ),
        hidden_console: hidden,
    }
}

pub open spec fn no_panes_message(name: Seq<char>) -> Seq<char> {
    "El proyecto '"@ + name + "' no tiene panes configurados."@
}

/// The Windows Terminal launch: refused without panes; otherwise the
/// project's helper programs are started first, then `wt.exe` (without a
/// console window on Windows).
pub open spec fn wt_attempt(project: Project, env: LaunchEnv) -> AttemptSpec {
    if project.panes@.len() == 0 {
        Err(no_panes_message(project.name@))
    } else {
        Ok(
            extras_calls(strs(project.extras@), env.platform) + seq![
                wt_call(wt_args(project, env), env.platform == Platform::Windows),
            ],
        )
    }
}

fn wt_chunk_exec(env: &LaunchEnv, project: &Project, i: usize) -> (r: Vec<String>)
    requires
        i < project.panes@.len(),
    ensures
        strs(r@) == wt_chunk(
            *env,
            project.layout@,
            opt_chars(project.terminal_profile),
            i as int,
            project.panes@[i as int],
        ),
{
    let pane = &project.panes[i];
    let profile = &project.terminal_profile;
    if str_eq(project.layout.as_str(), "grid-2x2") {
        if i == 0 {
            wt_pane_args_exec(env, pane, false, "", None, profile)
        } else if i == 1 {
            wt_pane_args_exec(env, pane, true, "-V", None, profile)
        } else if i == 2 || i == 3 {
            let mut v: Vec<String> = Vec::new();
            push_arg(&mut v, ";");
            push_arg(&mut v, "focus-pane");
            push_arg(&mut v, "-t");
            push_arg(&mut v, if i == 2 { "0" } else { "1" });
            let rest = wt_pane_args_exec(env, pane, true, "-H", None, profile);
            extend_args(&mut v, rest);
            v
        } else {
            wt_pane_args_exec(env, pane, true, "-V", None, profile)
        }
    } else {
        let dir = if str_eq(project.layout.as_str(), "cols-2") {
            "-V"
        } else {
            "-H"
        };
        wt_pane_args_exec(env, pane, i > 0, dir, None, profile)
    }
}

/// The `wt.exe` command line of a project.
fn wt_args_exec(env: &LaunchEnv, project: &Project) -> (r: Vec<String>)
    ensures
        strs(r@) == wt_args(*project, *env),
{
    let ghost chunks = Seq::new(
        project.panes@.len(),
        |i: int|
            wt_chunk(
                *env,
                project.layout@,
                opt_chars(project.terminal_profile),
                i,
                project.panes@[i],
            ),
    );
    let n = project.panes.len();
    let mut args: Vec<String> = Vec::new();
    let mut i: usize = 0;
    assert(chunks.take(0) =~= Seq::<Seq<Seq<char>>>::empty());
    while i < n
        invariant
            n == project.panes@.len(),
            i <= n,
            chunks == Seq::new(
                project.panes@.len(),
                |i: int|
                    wt_chunk(
                        *env,
                        project.layout@,
                        opt_chars(project.terminal_profile),
                        i,
                        project.panes@[i],
                    ),
            ),
            strs(args@) == concat(chunks.take(i as int)),
        decreases n - i,
    {
        let more = wt_chunk_exec(env, project, i);
        extend_args(&mut args, more);
        assert(chunks.take(i + 1).drop_last() =~= chunks.take(i as int));
        i = i + 1;
    }
    assert(chunks.take(n as int) =~= chunks);
    args
}

/// The plan that opens the project in Windows Terminal.
pub fn launch_wt(project: &Project, env: &LaunchEnv) -> (r: Attempt)
    ensures
        attempt_view(r) == wt_attempt(*project, *env),
{
    if project.panes.len() == 0 {
        return Err(concat3("El proyecto '", project.name.as_str(), "' no tiene panes configurados."));
    }
    let args = wt_args_exec(env, project);
    let mut plan: Vec<ProcessCall> = Vec::new();
    assert(calls(plan@) =~= Seq::<CallSpec>::empty());
    launch_extras(&mut plan, &project.extras, env.platform);
    let hidden = match env.platform {
        Platform::Windows => true,
        _ => false,
    };
    let call = ProcessCall {
        program: String::from_str("wt.exe"),
        args,
        mode: RunMode::Detached,
        failure: Failure::Framed {
            before: String::from_str("No se pudo abrir Windows Terminal: "),
            after: String::from_str(". ¿Está instalado?"),
        },
        hidden_console: hidden,
    };
    assert(call@ == wt_call(wt_args(*project, *env), env.platform == Platform::Windows));
    let ghost before = calls(plan@);
    push_call(&mut plan, call);
    assert(calls(plan@) =~= before + seq![wt_call(wt_args(*project, *env), env.platform == Platform::Windows)]);
    Ok(plan)
}

} // verus!
