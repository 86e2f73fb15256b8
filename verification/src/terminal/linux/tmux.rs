//! tmux: one session per project, one pane per configured pane, each running
//! the project's shell (the user's default when it names none), with the
//! dotfiles sourced before the pane's command when the project loads them.
use vstd::prelude::*;
use crate::config::{Pane, Project};
use crate::plan::{
    attempt_view, call_spec, calls, process_call, push_call, Attempt, AttemptSpec, CallSpec,
    Failure, FailureSpec, LaunchEnv, ProcessCall, RunMode,
};
use crate::terminal::utils::{
    env_path, extras_calls, launch_extras, project_shell, project_shell_exec, resolve_with_home,
    sanitize_session, session_name,
};
use crate::text::{concat, concat2, concat3, decimal, decimal_string, push_arg, str_eq, strs};

verus! {

/// What every pane's command is prefixed with: the user's dotfiles are sourced first.
pub open spec fn dotfiles_prefix() -> Seq<char> {
    "source ~/.bashrc 2>/dev/null || source ~/.zshrc 2>/dev/null; "@
}

/// For the pane at index `i` (from 1): the split direction and the pane it
/// splits, for the project's layout.
pub open spec fn tmux_split(layout: Seq<char>, session: Seq<char>, i: nat) -> (Seq<char>, Seq<char>) {
    if layout == "grid-2x2"@ {
        if i == 1 {
            ("-h"@, session + ":0.0"@)
        } else if i == 2 {
            ("-v"@, session + ":0.0"@)
        } else if i == 3 {
            ("-v"@, session + ":0.1"@)
        } else {
            ("-v"@, session + ":0"@)
        }
    } else if layout == "cols-2"@ || layout == "cols-3"@ {
        ("-h"@, session + ":0"@)
    } else if layout == "rows-2"@ || layout == "rows-3"@ {
        ("-v"@, session + ":0"@)
    } else if layout == "focus-right"@ {
        if i == 1 {
            ("-h"@, session + ":0"@)
        } else {
            ("-v"@, session + ":0.1"@)
        }
    } else if layout == "focus-left"@ {
        if i == 1 {
            ("-h"@, session + ":0"@)
        } else {
            ("-v"@, session + ":0.0"@)
        }
    } else {
        ("-v"@, session + ":0"@)
    }
}

pub open spec fn tmux_call(args: Seq<Seq<char>>, mode: RunMode) -> CallSpec {
    call_spec("tmux"@, args, mode, FailureSpec::Raw)
}

/// The keys typed into a pane: the command, after the dotfiles when they are loaded.
pub open spec fn pane_keys(command: Seq<char>, load_profile: bool) -> Seq<char> {
    if load_profile {
        dotfiles_prefix() + command
    } else {
        command
    }
}

/// Types the pane's keys into pane `target`.
pub open spec fn send_keys_call(target: Seq<char>, command: Seq<char>, load_profile: bool) -> CallSpec {
    tmux_call(
        seq!["send-keys"@, "-t"@, target, pane_keys(command, load_profile), "Enter"@],
        RunMode::Awaited,
    )
}

/// The two calls that add pane `i` (from 1): split, then type its command.
pub open spec fn tmux_pane_calls(
    env: LaunchEnv,
    shell: Seq<char>,
    load_profile: bool,
    layout: Seq<char>,
    session: Seq<char>,
    i: nat,
    pane: Pane,
) -> Seq<CallSpec> {
    let (split, target) = tmux_split(layout, session, i);
    seq![
        tmux_call(
            seq!["split-window"@, split, "-t"@, target, "-c"@, env_path(env, pane.path@), shell],
            RunMode::Awaited,
        ),
        send_keys_call(session + ":0."@ + decimal(i), pane.command@, load_profile),
    ]
}

/// The calls for each pane after the first, pane by pane.
pub open spec fn tmux_pane_chunks(project: Project, env: LaunchEnv) -> Seq<Seq<CallSpec>> {
    let session = session_name(project.name@);
    let panes = project.panes@;
    Seq::new(
        (panes.len() - 1) as nat,
        |k: int|
            tmux_pane_calls(
                env,
                project_shell(project, env),
                project.load_profile,
                project.layout@,
                session,
                (k + 1) as nat,
                panes[k + 1],
            ),
    )
}

/// The calls that build the tmux session for a project with at least one pane
/// and attach to it (helper programs not included).
pub open spec fn tmux_body(project: Project, env: LaunchEnv) -> Seq<CallSpec> {
    let session = session_name(project.name@);
    let panes = project.panes@;
    let first = panes[0];
    seq![
        tmux_call(seq!["kill-session"@, "-t"@, session], RunMode::Ignored),
        tmux_call(
            seq!["new-session"@, "-d"@, "-s"@, session, "-c"@, env_path(env, first.path@), project_shell(project, env)],
            RunMode::Awaited,
        ),
        send_keys_call(session + ":0.0"@, first.command@, project.load_profile),
    ] + concat(tmux_pane_chunks(project, env)) + seq![tmux_call(seq!["attach-session"@, "-t"@, session], RunMode::Detached)]
}

proof fn lemma_concat_pairs(chunks: Seq<Seq<CallSpec>>, k: int, j: int)
    requires
        forall|m: int| 0 <= m < chunks.len() ==> (#[trigger] chunks[m]).len() == 2,
        0 <= k < chunks.len(),
        0 <= j < 2,
    ensures
        concat(chunks).len() == 2 * chunks.len(),
        concat(chunks)[2 * k + j] == chunks[k][j],
    decreases chunks.len(),
{
    let init = chunks.drop_last();
    lemma_concat_len(init);
    if k < chunks.len() - 1 {
        lemma_concat_pairs(init, k, j);
    }
}

proof fn lemma_concat_len(chunks: Seq<Seq<CallSpec>>)
    requires
        forall|m: int| 0 <= m < chunks.len() ==> (#[trigger] chunks[m]).len() == 2,
    ensures
        concat(chunks).len() == 2 * chunks.len(),
    decreases chunks.len(),
{
    if chunks.len() > 0 {
        lemma_concat_len(chunks.drop_last());
    }
}

proof fn lemma_body_shape(project: Project, env: LaunchEnv)
    requires
        project.panes@.len() > 0,
    ensures
        ({
            let body = tmux_body(project, env);
            let chunks = tmux_pane_chunks(project, env);
            &&& body.len() == 2 * project.panes@.len() + 2
            &&& forall|k: int| 0 <= k < 2 * chunks.len() ==> body[3 + k] == #[trigger] concat(chunks)[k]
        }),
{
    let session = session_name(project.name@);
    let chunks = tmux_pane_chunks(project, env);
    assert forall|m: int| 0 <= m < chunks.len() implies (#[trigger] chunks[m]).len() == 2 by {}
    lemma_concat_len(chunks);
}

proof fn lemma_pane_entry(project: Project, env: LaunchEnv, i: int)
    requires
        0 <= i < project.panes@.len(),
    ensures
        ({
            let body = tmux_body(project, env);
            let session = session_name(project.name@);
            &&& body[2 + 2 * i] == send_keys_call(
                session + ":0."@ + decimal(i as nat),
                project.panes@[i].command@,
                project.load_profile,
            )
            &&& body[1 + 2 * i].args[4] == "-c"@
            &&& body[1 + 2 * i].args[5] == env_path(env, project.panes@[i].path@)
            &&& body[1 + 2 * i].args[6] == project_shell(project, env)
            &&& body[1 + 2 * i].mode == RunMode::Awaited
            &&& i > 0 ==> body[1 + 2 * i].args.len() == 7 && body[1 + 2 * i].args[0] == "split-window"@
                && body[1 + 2 * i].args[2] == "-t"@ && (body[1 + 2 * i].args[1], body[1 + 2 * i].args[3])
                == tmux_split(project.layout@, session, i as nat)
        }),
{
    let body = tmux_body(project, env);
    let session = session_name(project.name@);
    if i == 0 {
        reveal_strlit(":0.0");
        reveal_strlit(":0.");
        assert(decimal(0) == seq!['0']);
        assert(":0.0"@ =~= ":0."@ + seq!['0']);
        assert(session + ":0.0"@ =~= session + ":0."@ + decimal(0));
        assert(body[2] == send_keys_call(
            session + ":0.0"@,
            project.panes@[0].command@,
            project.load_profile,
        ));
    } else {
        let chunks = tmux_pane_chunks(project, env);
        assert forall|m: int| 0 <= m < chunks.len() implies (#[trigger] chunks[m]).len() == 2 by {}
        lemma_body_shape(project, env);
        lemma_concat_pairs(chunks, i - 1, 0);
        lemma_concat_pairs(chunks, i - 1, 1);
        assert(body[3 + (2 * (i - 1) + 0)] == concat(chunks)[2 * (i - 1) + 0]);
        assert(body[3 + (2 * (i - 1) + 1)] == concat(chunks)[2 * (i - 1) + 1]);
        let c = chunks[i - 1];
        assert(c == tmux_pane_calls(
            env,
            project_shell(project, env),
            project.load_profile,
            project.layout@,
            session,
            i as nat,
            project.panes@[i],
        ));
        assert(body[1 + 2 * i] == c[0]);
        assert(body[2 + 2 * i] == c[1]);
    }
}

/// Every pane gets its own tmux pane: the session has two calls per pane
/// plus the cleanup and the attach; pane `i` is created in the pane's
/// resolved directory running the project's shell (the session itself for
/// the first pane, a split for the others) and then receives the pane's
/// command in tmux pane `<session>:0.<i>`, after the dotfiles exactly when
/// the project loads them.
pub proof fn tmux_runs_every_pane(project: Project, env: LaunchEnv)
    requires
        project.panes@.len() > 0,
    ensures
        tmux_body(project, env).len() == 2 * project.panes@.len() + 2,
        forall|i: int|
            0 <= i < project.panes@.len() ==> {
                &&& #[trigger] tmux_body(project, env)[2 + 2 * i] == send_keys_call(
                    session_name(project.name@) + ":0."@ + decimal(i as nat),
                    project.panes@[i].command@,
                    project.load_profile,
                )
                &&& tmux_body(project, env)[1 + 2 * i].args[4] == "-c"@
                &&& tmux_body(project, env)[1 + 2 * i].args[5] == env_path(env, project.panes@[i].path@)
                &&& tmux_body(project, env)[1 + 2 * i].args[6] == project_shell(project, env)
                &&& tmux_body(project, env)[1 + 2 * i].mode == RunMode::Awaited
            },
{
    lemma_body_shape(project, env);
    assert forall|i: int| 0 <= i < project.panes@.len() implies {
        &&& #[trigger] tmux_body(project, env)[2 + 2 * i] == send_keys_call(
            session_name(project.name@) + ":0."@ + decimal(i as nat),
            project.panes@[i].command@,
            project.load_profile,
        )
        &&& tmux_body(project, env)[1 + 2 * i].args[4] == "-c"@
        &&& tmux_body(project, env)[1 + 2 * i].args[5] == env_path(env, project.panes@[i].path@)
        &&& tmux_body(project, env)[1 + 2 * i].args[6] == project_shell(project, env)
        &&& tmux_body(project, env)[1 + 2 * i].mode == RunMode::Awaited
    } by {
        lemma_pane_entry(project, env, i);
    }
}

/// The tmux session of a project with panes: any old session of that name
/// is killed first (whether that works does not matter), a detached session
/// is created in the first pane's resolved directory running the project's
/// shell, each pane `i` receives its command (after "source ~/.bashrc
/// 2>/dev/null || source ~/.zshrc 2>/dev/null; " when the project loads the
/// dotfiles) followed by Enter in pane `<session>:0.<i>`, and the session is
/// attached last, before the helper programs start.
pub proof fn tmux_session_lifecycle(project: Project, env: LaunchEnv)
    requires
        project.panes@.len() > 0,
    ensures
        ({
            let s = session_name(project.name@);
            let n = project.panes@.len() as int;
            let shell = match project.shell {
                Some(sh) => sh@,
                None => env.shell@,
            };
            tmux_attempt(project, env) matches Ok(v) && v.len() == 2 * n + 2 + extras_calls(
                strs(project.extras@),
                env.platform,
            ).len() && v.skip(2 * n + 2) == extras_calls(strs(project.extras@), env.platform)
                && v[0] == call_spec("tmux"@, seq!["kill-session"@, "-t"@, s], RunMode::Ignored, FailureSpec::Raw)
                && v[1] == call_spec(
                "tmux"@,
                seq!["new-session"@, "-d"@, "-s"@, s, "-c"@, env_path(env, project.panes@[0].path@), shell],
                RunMode::Awaited,
                FailureSpec::Raw,
            ) && v[2 * n + 1] == call_spec("tmux"@, seq!["attach-session"@, "-t"@, s], RunMode::Detached, FailureSpec::Raw)
                && forall|i: int|
                0 <= i < n ==> #[trigger] v[2 + 2 * i] == call_spec(
                    "tmux"@,
                    seq![
                        "send-keys"@,
                        "-t"@,
                        s + ":0."@ + decimal(i as nat),
                        (if project.load_profile {
                            "source ~/.bashrc 2>/dev/null || source ~/.zshrc 2>/dev/null; "@
                        } else {
                            Seq::empty()
                        }) + project.panes@[i].command@,
                        "Enter"@,
                    ],
                    RunMode::Awaited,
                    FailureSpec::Raw,
                )
        }),
{
    let body = tmux_body(project, env);
    let n = project.panes@.len() as int;
    let v = body + extras_calls(strs(project.extras@), env.platform);
    lemma_body_shape(project, env);
    assert(v.skip(2 * n + 2) =~= extras_calls(strs(project.extras@), env.platform));
    assert(v[2 * n + 1] == body[2 * n + 1]);
    assert forall|i: int| 0 <= i < n implies #[trigger] v[2 + 2 * i] == call_spec(
        "tmux"@,
        seq![
            "send-keys"@,
            "-t"@,
            session_name(project.name@) + ":0."@ + decimal(i as nat),
            (if project.load_profile {
                "source ~/.bashrc 2>/dev/null || source ~/.zshrc 2>/dev/null; "@
            } else {
                Seq::empty()
            }) + project.panes@[i].command@,
            "Enter"@,
        ],
        RunMode::Awaited,
        FailureSpec::Raw,
    ) by {
        lemma_pane_entry(project, env, i);
        if !project.load_profile {
            assert(Seq::<char>::empty() + project.panes@[i].command@ =~= project.panes@[i].command@);
        }
    }
}

/// How tmux places each pane after the first (pane `i`, from 1): split
/// "-h" (side by side) or "-v" (stacked), off the target pane:
/// "cols-2"/"cols-3" put every pane beside the others in window
/// `<session>:0`, "rows-2"/"rows-3" stack them there; "grid-2x2" puts pane 1
/// beside pane 0, pane 2 under pane 0, pane 3 under pane 1 and any further
/// pane under the rest; "focus-right" and "focus-left" put pane 1 beside
/// pane 0 and stack the others under pane 1 or pane 0; any other layout
/// stacks every pane in window `<session>:0`.
pub proof fn tmux_splits_follow_layout(project: Project, env: LaunchEnv)
    requires
        project.panes@.len() > 0,
    ensures
        ({
            let s = session_name(project.name@);
            let layout = project.layout@;
            tmux_attempt(project, env) matches Ok(v) && forall|i: int|
                1 <= i < project.panes@.len() ==> {
                    let call = #[trigger] v[1 + 2 * i];
                    let split = call.args[1];
                    let target = call.args[3];
                    &&& call.program == "tmux"@
                    &&& call.args[0] == "split-window"@
                    &&& call.args[2] == "-t"@
                    &&& (layout == "cols-2"@ || layout == "cols-3"@) ==> split == "-h"@ && target == s + ":0"@
                    &&& (layout == "rows-2"@ || layout == "rows-3"@) ==> split == "-v"@ && target == s + ":0"@
                    &&& layout == "grid-2x2"@ ==> (i == 1 ==> split == "-h"@ && target == s + ":0.0"@)
                        && (i == 2 ==> split == "-v"@ && target == s + ":0.0"@)
                        && (i == 3 ==> split == "-v"@ && target == s + ":0.1"@)
                        && (i >= 4 ==> split == "-v"@ && target == s + ":0"@)
                    &&& layout == "focus-right"@ ==> (i == 1 ==> split == "-h"@ && target == s + ":0"@)
                        && (i >= 2 ==> split == "-v"@ && target == s + ":0.1"@)
                    &&& layout == "focus-left"@ ==> (i == 1 ==> split == "-h"@ && target == s + ":0"@)
                        && (i >= 2 ==> split == "-v"@ && target == s + ":0.0"@)
                    &&& !(layout == "cols-2"@ || layout == "cols-3"@ || layout == "rows-2"@ || layout
                        == "rows-3"@ || layout == "grid-2x2"@ || layout == "focus-right"@ || layout
                        == "focus-left"@) ==> split == "-v"@ && target == s + ":0"@
                }
        }),
{
    let body = tmux_body(project, env);
    let v = body + extras_calls(strs(project.extras@), env.platform);
    lemma_body_shape(project, env);
    reveal_strlit("grid-2x2");
    reveal_strlit("cols-2");
    reveal_strlit("cols-3");
    reveal_strlit("rows-2");
    reveal_strlit("rows-3");
    reveal_strlit("focus-right");
    reveal_strlit("focus-left");
    assert("cols-2"@.len() == 6 && "cols-3"@.len() == 6 && "rows-2"@.len() == 6);
    assert("rows-3"@.len() == 6 && "grid-2x2"@.len() == 8);
    assert("focus-right"@.len() == 11 && "focus-left"@.len() == 10);
    assert("cols-2"@[0] == 'c' && "cols-3"@[0] == 'c' && "rows-2"@[0] == 'r' && "rows-3"@[0] == 'r');
    assert forall|i: int| 1 <= i < project.panes@.len() implies #[trigger] v[1 + 2 * i] == body[1 + 2 * i]
        && body[1 + 2 * i].program == "tmux"@ by {
        lemma_pane_entry(project, env, i);
        let chunks = tmux_pane_chunks(project, env);
        assert forall|m: int| 0 <= m < chunks.len() implies (#[trigger] chunks[m]).len() == 2 by {}
        lemma_concat_pairs(chunks, i - 1, 0);
        assert(body[3 + (2 * (i - 1) + 0)] == concat(chunks)[2 * (i - 1) + 0]);
    }
    assert forall|i: int| 1 <= i < project.panes@.len() implies {
        let call = #[trigger] v[1 + 2 * i];
        &&& call.args[0] == "split-window"@
        &&& call.args[2] == "-t"@
        &&& (call.args[1], call.args[3]) == tmux_split(project.layout@, session_name(project.name@), i as nat)
    } by {
        lemma_pane_entry(project, env, i);
    }
}

/// The tmux launch of a project: refused without panes; otherwise the
/// session, then the project's helper programs.
pub open spec fn tmux_attempt(project: Project, env: LaunchEnv) -> AttemptSpec {
    if project.panes@.len() == 0 {
        Err("Sin panes."@)
    } else {
        Ok(tmux_body(project, env) + extras_calls(strs(project.extras@), env.platform))
    }
}

fn tmux_split_exec(layout: &str, session: &str, i: usize) -> (r: (String, String))
    ensures
        (r.0@, r.1@) == tmux_split(layout@, session@, i as nat),
{
    let (dir, suffix) = if str_eq(layout, "grid-2x2") {
        if i == 1 {
            ("-h", ":0.0")
        } else if i == 2 {
            ("-v", ":0.0")
        } else if i == 3 {
            ("-v", ":0.1")
        } else {
            ("-v", ":0")
        }
    } else if str_eq(layout, "cols-2") || str_eq(layout, "cols-3") {
        ("-h", ":0")
    } else if str_eq(layout, "rows-2") || str_eq(layout, "rows-3") {
        ("-v", ":0")
    } else if str_eq(layout, "focus-right") {
        if i == 1 {
            ("-h", ":0")
        } else {
            ("-v", ":0.1")
        }
    } else if str_eq(layout, "focus-left") {
        if i == 1 {
            ("-h", ":0")
        } else {
            ("-v", ":0.0")
        }
    } else {
        ("-v", ":0")
    };
    (String::from_str(dir), concat2(session, suffix))
}

fn tmux_exec(args: Vec<String>, mode: RunMode) -> (r: ProcessCall)
    ensures
        r@ == tmux_call(strs(args@), mode),
{
    process_call(String::from_str("tmux"), args, mode, Failure::Raw)
}

fn send_keys_exec(target: &str, command: &str, load_profile: bool) -> (r: ProcessCall)
    ensures
        r@ == send_keys_call(target@, command@, load_profile),
{
    let mut args: Vec<String> = Vec::new();
    push_arg(&mut args, "send-keys");
    push_arg(&mut args, "-t");
    push_arg(&mut args, target);
    let keys = if load_profile {
        concat2("source ~/.bashrc 2>/dev/null || source ~/.zshrc 2>/dev/null; ", command)
    } else {
        String::from_str(command)
    };
    push_arg(&mut args, keys.as_str());
    push_arg(&mut args, "Enter");
    assert(strs(args@) =~= seq!["send-keys"@, "-t"@, target@, pane_keys(command@, load_profile), "Enter"@]);
    tmux_exec(args, RunMode::Awaited)
}

/// The calls that build the tmux session of a project with at least one pane.
pub(crate) fn tmux_body_exec(project: &Project, env: &LaunchEnv) -> (r: Vec<ProcessCall>)
    requires
        project.panes@.len() > 0,
    ensures
        calls(r@) == tmux_body(*project, *env),
{
    let session = sanitize_session(project.name.as_str());
    let s = session.as_str();
    let shell = project_shell_exec(project, env);
    let first = &project.panes[0];
    let mut plan: Vec<ProcessCall> = Vec::new();

    let mut kill: Vec<String> = Vec::new();
    push_arg(&mut kill, "kill-session");
    push_arg(&mut kill, "-t");
    push_arg(&mut kill, s);
    assert(strs(kill@) =~= seq!["kill-session"@, "-t"@, s@]);
    push_call(&mut plan, tmux_exec(kill, RunMode::Ignored));

    let dir = resolve_with_home(first.path.as_str(), &env.home);
    let mut create: Vec<String> = Vec::new();
    push_arg(&mut create, "new-session");
    push_arg(&mut create, "-d");
    push_arg(&mut create, "-s");
    push_arg(&mut create, s);
    push_arg(&mut create, "-c");
    push_arg(&mut create, dir.as_str());
    push_arg(&mut create, shell.as_str());
    assert(strs(create@) =~= seq!["new-session"@, "-d"@, "-s"@, s@, "-c"@, dir@, shell@]);
    push_call(&mut plan, tmux_exec(create, RunMode::Awaited));

    let target0 = concat2(s, ":0.0");
    push_call(
        &mut plan,
        send_keys_exec(target0.as_str(), first.command.as_str(), project.load_profile),
    );

    let ghost head = calls(plan@);
    let ghost chunks = tmux_pane_chunks(*project, *env);
    let n = project.panes.len();
    let mut i: usize = 1;
    assert(chunks.take(0) =~= Seq::<Seq<CallSpec>>::empty());
    while i < n
        invariant
            n == project.panes@.len(),
            1 <= i <= n,
            s@ == session_name(project.name@),
            s@ == session@,
            shell@ == project_shell(*project, *env),
            chunks == tmux_pane_chunks(*project, *env),
            calls(plan@) == head + concat(chunks.take(i - 1)),
        decreases n - i,
    {
        let pane = &project.panes[i];
        let (split, target) = tmux_split_exec(project.layout.as_str(), s, i);
        let dir = resolve_with_home(pane.path.as_str(), &env.home);
        let mut args: Vec<String> = Vec::new();
        push_arg(&mut args, "split-window");
        push_arg(&mut args, split.as_str());
        push_arg(&mut args, "-t");
        push_arg(&mut args, target.as_str());
        push_arg(&mut args, "-c");
        push_arg(&mut args, dir.as_str());
        push_arg(&mut args, shell.as_str());
        assert(strs(args@) =~= seq!["split-window"@, split@, "-t"@, target@, "-c"@, dir@, shell@]);
        let split_call = tmux_exec(args, RunMode::Awaited);
        let number = decimal_string(i);
        let pane_target = concat3(s, ":0.", number.as_str());
        let keys_call = send_keys_exec(
            pane_target.as_str(),
            pane.command.as_str(),
            project.load_profile,
        );
        let ghost before = calls(plan@);
        let ghost pair = seq![split_call@, keys_call@];
        assert(chunks[i - 1] =~= pair);
        push_call(&mut plan, split_call);
        push_call(&mut plan, keys_call);
        assert(chunks.take(i as int).drop_last() =~= chunks.take(i - 1));
        assert(calls(plan@) =~= before + pair);
        i = i + 1;
    }

    assert(chunks.take(n - 1) =~= chunks);
    let mut attach: Vec<String> = Vec::new();
    push_arg(&mut attach, "attach-session");
    push_arg(&mut attach, "-t");
    push_arg(&mut attach, s);
    assert(strs(attach@) =~= seq!["attach-session"@, "-t"@, s@]);
    push_call(&mut plan, tmux_exec(attach, RunMode::Detached));
    assert(calls(plan@) =~= tmux_body(*project, *env));
    plan
}

/// The plan that opens the project in a tmux session.
pub fn launch_tmux(project: &Project, env: &LaunchEnv) -> (r: Attempt)
    ensures
        attempt_view(r) == tmux_attempt(*project, *env),
{
    if project.panes.len() == 0 {
        return Err(String::from_str("Sin panes."));
    }
    let mut plan = tmux_body_exec(project, env);
    launch_extras(&mut plan, &project.extras, env.platform);
    Ok(plan)
}

} // verus!
