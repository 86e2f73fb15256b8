//! Helpers shared by the terminal launchers: the default shell, helper
//! programs ("extras"), home-relative paths and tmux session names.
use vstd::prelude::*;
use crate::config::{Platform, Project};
use crate::plan::{
    append_calls, call_spec, calls, framed, process_call, push_call, CallSpec, Failure,
    FailureSpec, LaunchEnv, ProcessCall, RunMode,
};
use crate::text::{
    concat, concat3, is_alphanumeric, letter_or_digit, opt_chars, push_arg, push_char,
    starts_with, str_eq, str_starts_with, strip_prefixes, strs, trim_start_matches,
};

verus! {

// ───────────────────────────── default shell ───────────────────────────────

/// The shell that panes run: `$SHELL` when it is set and not empty,
/// otherwise "pwsh.exe" on Windows and "/bin/bash" elsewhere.
pub open spec fn default_shell_for(shell_var: Option<Seq<char>>, platform: Platform) -> Seq<char> {
    match shell_var {
        Some(s) => if s.len() > 0 {
            s
        } else {
            fallback_shell(platform)
        },
        None => fallback_shell(platform),
    }
}

pub open spec fn fallback_shell(platform: Platform) -> Seq<char> {
    if platform == Platform::Windows {
        "pwsh.exe"@
    } else {
        "/bin/bash"@
    }
}

/// The shell that panes run, given the value of `$SHELL` (if it is set).
pub fn get_default_shell(shell_var: Option<String>, platform: Platform) -> (r: String)
    ensures
        r@ == default_shell_for(opt_chars(shell_var), platform),
{
    match shell_var {
        Some(s) => {
            if s.as_str().unicode_len() > 0 {
                return s;
            }
        },
        None => {},
    }
    match platform {
        Platform::Windows => String::from_str("pwsh.exe"),
        _ => String::from_str("/bin/bash"),
    }
}

// ────────────────────────────── home paths ─────────────────────────────────

/// Trusted: calls `dirs::home_dir` and converts the path to text (lossily).
/// The home directory comes from the environment and the user database, so
/// nothing is claimed of it.
#[verifier::external_body]
fn home_directory() -> (r: Option<String>) {
    dirs::home_dir().map(|p| p.to_string_lossy().into_owned())
}

/// `path` with a leading '~' replaced by the home directory, when there is one.
pub open spec fn resolved_path(path: Seq<char>, home: Option<Seq<char>>) -> Seq<char> {
    match home {
        Some(h) => if path.len() > 0 && path[0] == '~' {
            h + path.skip(1)
        } else {
            path
        },
        None => path,
    }
}

/// Only a leading '~' is expanded: any other path is left as it is, and an
/// expanded path keeps everything after the '~'.
pub proof fn only_leading_tilde_expands(path: Seq<char>, home: Option<Seq<char>>)
    ensures
        !(path.len() > 0 && path[0] == '~') ==> resolved_path(path, home) == path,
        home is None ==> resolved_path(path, home) == path,
        (path.len() > 0 && path[0] == '~' && home is Some) ==> resolved_path(path, home)
            == home->Some_0 + path.skip(1),
{
}

/// `path` with a leading '~' replaced by `home`, if given.
pub fn resolve_with_home(path: &str, home: &Option<String>) -> (r: String)
    ensures
        r@ == resolved_path(path@, opt_chars(*home)),
{
    match home {
        Some(h) => {
            let n = path.unicode_len();
            if n > 0 && path.get_char(0) == '~' {
                let mut r = String::from_str(h.as_str());
                r.append(path.substring_char(1, n));
                assert(path@.subrange(1, n as int) =~= path@.skip(1));
                return r;
            }
            String::from_str(path)
        },
        None => String::from_str(path),
    }
}

/// `path` with a leading '~' replaced by the user's home directory, when one
/// is known; any other path is returned as it is.
pub fn resolve(path: &str) -> (r: String)
    ensures
        exists|home: Option<Seq<char>>| r@ == resolved_path(path@, home),
{
    let home = home_directory();
    resolve_with_home(path, &home)
}

/// The environment of a launch on `platform`, given the value of `$SHELL`:
/// the home directory is looked up, the shell is the default shell.
pub fn launch_env(platform: Platform, shell_var: Option<String>) -> (r: LaunchEnv)
    ensures
        r.platform == platform,
        r.shell@ == default_shell_for(opt_chars(shell_var), platform),
{
    let home = home_directory();
    let shell = get_default_shell(shell_var, platform);
    LaunchEnv { platform, home, shell }
}

/// The shell a project's panes run: the one the project names, or the
/// environment's default shell when it names none.
pub open spec fn project_shell(project: Project, env: LaunchEnv) -> Seq<char> {
    match project.shell {
        Some(s) => s@,
        None => env.shell@,
    }
}

pub(crate) fn project_shell_exec(project: &Project, env: &LaunchEnv) -> (r: String)
    ensures
        r@ == project_shell(*project, *env),
{
    match &project.shell {
        Some(s) => s.clone(),
        None => env.shell.clone(),
    }
}

/// The resolved form of `path` in `env`.
pub open spec fn env_path(env: LaunchEnv, path: Seq<char>) -> Seq<char> {
    resolved_path(path, opt_chars(env.home))
}

// ─────────────────────────── session names ─────────────────────────────────

pub open spec fn session_char(c: char) -> char {
    if letter_or_digit(c) || c == '-' {
        c
    } else {
        '_'
    }
}

/// A tmux session name for a project: letters, digits and '-' are kept,
/// every other character becomes '_'.
pub open spec fn session_name(name: Seq<char>) -> Seq<char> {
    name.map_values(|c: char| session_char(c))
}

/// A session name has one character per character of the project name,
/// each a letter or digit, '-' or '_'.
pub proof fn session_name_is_safe(name: Seq<char>)
    ensures
        session_name(name).len() == name.len(),
        forall|i: int|
            0 <= i < name.len() ==> {
                let c = #[trigger] session_name(name)[i];
                letter_or_digit(c) || c == '-' || c == '_'
            },
{
}

/// Each character of a session name comes from the character of the
/// project name at the same place: a letter, a digit or '-' stays as it is,
/// any other character becomes '_'.
pub proof fn session_name_keeps_letters_digits_dashes(name: Seq<char>)
    ensures
        session_name(name).len() == name.len(),
        forall|i: int|
            0 <= i < name.len() ==> #[trigger] session_name(name)[i] == (if letter_or_digit(name[i]) || name[i]
                == '-' {
                name[i]
            } else {
                '_'
            }),
{
}

/// The tmux session name for the project named `name`.
pub fn sanitize_session(name: &str) -> (r: String)
    ensures
        r@ == session_name(name@),
{
    let n = name.unicode_len();
    let mut r = String::new();
    let mut i: usize = 0;
    while i < n
        invariant
            n == name@.len(),
            i <= n,
            r@ == name@.take(i as int).map_values(|c: char| session_char(c)),
        decreases n - i,
    {
        let c = name.get_char(i);
        let d = if is_alphanumeric(c) || c == '-' {
            c
        } else {
            '_'
        };
        push_char(&mut r, d);
        assert(name@.take(i + 1).map_values(|c: char| session_char(c)) =~= name@.take(
            i as int,
        ).map_values(|c: char| session_char(c)).push(d));
        i = i + 1;
    }
    assert(name@.take(n as int) =~= name@);
    r
}

// ────────────────────────────── extras ─────────────────────────────────────

/// The call that opens `url` with the platform's URL opener; none on a
/// platform without one.
pub open spec fn open_url_calls(url: Seq<char>, platform: Platform) -> Seq<CallSpec> {
    match platform {
        Platform::Windows => seq![
            call_spec(
                "cmd"@,
                seq!["/C"@, "start"@, ""@, url],
                RunMode::Detached,
                FailureSpec::Raw,
            ),
        ],
        Platform::MacOs => seq![
            call_spec("open"@, seq![url], RunMode::Detached, FailureSpec::Raw),
        ],
        Platform::Linux => seq![
            call_spec("xdg-open"@, seq![url], RunMode::Detached, FailureSpec::Raw),
        ],
        Platform::Other => Seq::empty(),
    }
}

/// The calls that open `url`.
pub(crate) fn open_url(url: &str, platform: Platform) -> (r: Vec<ProcessCall>)
    ensures
        calls(r@) == open_url_calls(url@, platform),
{
    let mut r: Vec<ProcessCall> = Vec::new();
    match platform {
        Platform::Windows => {
            let mut args: Vec<String> = Vec::new();
            push_arg(&mut args, "/C");
            push_arg(&mut args, "start");
            push_arg(&mut args, "");
            push_arg(&mut args, url);
            assert(strs(args@) =~= seq!["/C"@, "start"@, ""@, url@]);
            push_call(
                &mut r,
                process_call(String::from_str("cmd"), args, RunMode::Detached, Failure::Raw),
            );
            assert(calls(r@) =~= open_url_calls(url@, platform));
        },
        Platform::MacOs => {
            let mut args: Vec<String> = Vec::new();
            push_arg(&mut args, url);
            assert(strs(args@) =~= seq![url@]);
            push_call(
                &mut r,
                process_call(String::from_str("open"), args, RunMode::Detached, Failure::Raw),
            );
            assert(calls(r@) =~= open_url_calls(url@, platform));
        },
        Platform::Linux => {
            let mut args: Vec<String> = Vec::new();
            push_arg(&mut args, url);
            assert(strs(args@) =~= seq![url@]);
            push_call(
                &mut r,
                process_call(String::from_str("xdg-open"), args, RunMode::Detached, Failure::Raw),
            );
            assert(calls(r@) =~= open_url_calls(url@, platform));
        },
        Platform::Other => {
            assert(calls(r@) =~= open_url_calls(url@, platform));
        },
    }
    r
}

/// Running a helper program by name; a failure is reported as "Extra '<name>': <error>".
pub open spec fn program_call(extra: Seq<char>) -> CallSpec {
    call_spec(
        extra,
        Seq::empty(),
        RunMode::Detached,
        FailureSpec::Framed("Extra '"@ + extra + "': "@, ""@),
    )
}

pub(crate) fn program_call_exec(extra: &str) -> (r: ProcessCall)
    ensures
        r@ == program_call(extra@),
{
    let args: Vec<String> = Vec::new();
    assert(strs(args@) =~= Seq::<Seq<char>>::empty());
    let before = concat3("Extra '", extra, "': ");
    process_call(
        String::from_str(extra),
        args,
        RunMode::Detached,
        Failure::Framed { before, after: String::from_str("") },
    )
}

/// Opening VS Code on the current directory (`code .`).
pub open spec fn vscode_call() -> CallSpec {
    call_spec(
        "code"@,
        seq!["."@],
        RunMode::Detached,
        FailureSpec::Framed("VSCode: "@, ". ¿Está 'code' en el PATH?"@),
    )
}

/// What an extra starts: "vscode" or "code" opens VS Code on the current
/// directory, "browser:<url>" opens the URL (every leading "browser:"
/// removed), an "http://" or "https://" address is opened as it is,
/// anything else is run as a program.
pub open spec fn extra_calls(extra: Seq<char>, platform: Platform) -> Seq<CallSpec> {
    if extra == "vscode"@ || extra == "code"@ {
        seq![vscode_call()]
    } else if starts_with(extra, "browser:"@) {
        open_url_calls(strip_prefixes(extra, "browser:"@), platform)
    } else if starts_with(extra, "http://"@) || starts_with(extra, "https://"@) {
        open_url_calls(extra, platform)
    } else {
        seq![program_call(extra)]
    }
}

/// The calls that start the extra `extra`.
pub fn launch_extra(extra: &str, platform: Platform) -> (r: Vec<ProcessCall>)
    ensures
        calls(r@) == extra_calls(extra@, platform),
{
    if str_eq(extra, "vscode") || str_eq(extra, "code") {
        let mut args: Vec<String> = Vec::new();
        push_arg(&mut args, ".");
        assert(strs(args@) =~= seq!["."@]);
        let mut r: Vec<ProcessCall> = Vec::new();
        push_call(
            &mut r,
            process_call(
                String::from_str("code"),
                args,
                RunMode::Detached,
                framed("VSCode: ", ". ¿Está 'code' en el PATH?"),
            ),
        );
        assert(calls(r@) =~= seq![vscode_call()]);
        r
    } else if str_starts_with(extra, "browser:") {
        let url = trim_start_matches(extra, "browser:");
        open_url(url.as_str(), platform)
    } else if str_starts_with(extra, "http://") || str_starts_with(extra, "https://") {
        open_url(extra, platform)
    } else {
        let mut r: Vec<ProcessCall> = Vec::new();
        push_call(&mut r, program_call_exec(extra));
        assert(calls(r@) =~= seq![program_call(extra@)]);
        r
    }
}

/// The calls that start every extra of a project, in order.
pub open spec fn extras_calls(extras: Seq<Seq<char>>, platform: Platform) -> Seq<CallSpec> {
    concat(extras.map_values(|e: Seq<char>| extra_calls(e, platform)))
}

/// Appends to `plan` the calls that start each of `extras`, in order.
pub fn launch_extras(plan: &mut Vec<ProcessCall>, extras: &Vec<String>, platform: Platform)
    ensures
        calls(final(plan)@) == calls(old(plan)@) + extras_calls(strs(extras@), platform),
{
    let n = extras.len();
    let mut i: usize = 0;
    while i < n
        invariant
            n == extras@.len(),
            i <= n,
            calls(plan@) == calls(old(plan)@) + extras_calls(strs(extras@.take(i as int)), platform),
        decreases n - i,
    {
        let more = launch_extra(extras[i].as_str(), platform);
        append_calls(plan, more);
        proof {
            let f = |e: Seq<char>| extra_calls(e, platform);
            assert(strs(extras@.take(i + 1)).map_values(f).drop_last() =~= strs(
                extras@.take(i as int),
            ).map_values(f));
        }
        i = i + 1;
    }
    assert(extras@.take(n as int) =~= extras@);
}

// ─────────────────────────────── laws ──────────────────────────────────────

/// Panes run `$SHELL` when it is set and not empty; otherwise "pwsh.exe" on
/// Windows and "/bin/bash" on every other platform. A project that names a
/// shell runs that shell instead.
pub proof fn shell_choice(shell_var: Option<Seq<char>>, platform: Platform, project: Project, env: LaunchEnv)
    ensures
        (shell_var matches Some(s) && s.len() > 0) ==> default_shell_for(shell_var, platform) == shell_var->Some_0,
        !(shell_var matches Some(s) && s.len() > 0) && platform == Platform::Windows ==> default_shell_for(
            shell_var,
            platform,
        ) == "pwsh.exe"@,
        !(shell_var matches Some(s) && s.len() > 0) && platform != Platform::Windows ==> default_shell_for(
            shell_var,
            platform,
        ) == "/bin/bash"@,
        project.shell matches Some(s) ==> project_shell(project, env) == project.shell->Some_0@,
        project.shell is None ==> project_shell(project, env) == env.shell@,
{
}

/// What each kind of extra starts: "vscode" and "code" open VS Code on the
/// current directory (`code .`); "browser:<url>" opens the URL left after
/// every leading "browser:" is removed; an "http://" or "https://" address
/// is opened as it is; any other extra is run as a program with no
/// arguments. A URL is opened with `cmd /C start "" <url>` on Windows,
/// `open <url>` on macOS, `xdg-open <url>` on Linux, and not at all elsewhere.
pub proof fn extras_start_by_kind(extra: Seq<char>, platform: Platform, url: Seq<char>)
    ensures
        (extra == "vscode"@ || extra == "code"@) ==> extra_calls(extra, platform) == seq![
            CallSpec {
                program: "code"@,
                args: seq!["."@],
                mode: RunMode::Detached,
                failure: FailureSpec::Framed("VSCode: "@, ". ¿Está 'code' en el PATH?"@),
                hidden_console: false,
            },
        ],
        !(extra == "vscode"@ || extra == "code"@) && starts_with(extra, "browser:"@) ==> extra_calls(
            extra,
            platform,
        ) == open_url_calls(strip_prefixes(extra, "browser:"@), platform),
        !(extra == "vscode"@ || extra == "code"@) && !starts_with(extra, "browser:"@) && (starts_with(
            extra,
            "http://"@,
        ) || starts_with(extra, "https://"@)) ==> extra_calls(extra, platform) == open_url_calls(
            extra,
            platform,
        ),
        !(extra == "vscode"@ || extra == "code"@) && !starts_with(extra, "browser:"@) && !starts_with(
            extra,
            "http://"@,
        ) && !starts_with(extra, "https://"@) ==> extra_calls(extra, platform) == seq![
            CallSpec {
                program: extra,
                args: Seq::empty(),
                mode: RunMode::Detached,
                failure: FailureSpec::Framed("Extra '"@ + extra + "': "@, ""@),
                hidden_console: false,
            },
        ],
        platform == Platform::Windows ==> open_url_calls(url, platform) == seq![
            CallSpec {
                program: "cmd"@,
                args: seq!["/C"@, "start"@, ""@, url],
                mode: RunMode::Detached,
                failure: FailureSpec::Raw,
                hidden_console: false,
            },
        ],
        platform == Platform::MacOs ==> open_url_calls(url, platform) == seq![
            CallSpec {
                program: "open"@,
                args: seq![url],
                mode: RunMode::Detached,
                failure: FailureSpec::Raw,
                hidden_console: false,
            },
        ],
        platform == Platform::Linux ==> open_url_calls(url, platform) == seq![
            CallSpec {
                program: "xdg-open"@,
                args: seq![url],
                mode: RunMode::Detached,
                failure: FailureSpec::Raw,
                hidden_console: false,
            },
        ],
        platform == Platform::Other ==> open_url_calls(url, platform).len() == 0,
{
}

/// The extras of a project start one after another, in order: the calls for
/// a list of extras are those of its first part followed by those of the
/// rest, and a single extra starts its own calls.
pub proof fn extras_start_in_order(a: Seq<Seq<char>>, b: Seq<Seq<char>>, platform: Platform)
    ensures
        extras_calls(a + b, platform) == extras_calls(a, platform) + extras_calls(b, platform),
        forall|e: Seq<char>| #[trigger] extras_calls(seq![e], platform) == extra_calls(e, platform),
        extras_calls(Seq::empty(), platform).len() == 0,
    decreases b.len(),
{
    let f = |e: Seq<char>| extra_calls(e, platform);
    assert forall|e: Seq<char>| #[trigger] extras_calls(seq![e], platform) == extra_calls(e, platform) by {
        assert(seq![e].map_values(f).drop_last() =~= Seq::<Seq<CallSpec>>::empty());
        assert(concat(Seq::<Seq<CallSpec>>::empty()) =~= Seq::<CallSpec>::empty());
        assert(Seq::<CallSpec>::empty() + extra_calls(e, platform) =~= extra_calls(e, platform));
    }
    assert(Seq::<Seq<char>>::empty().map_values(f) =~= Seq::<Seq<CallSpec>>::empty());
    if b.len() == 0 {
        assert(a + b =~= a);
        assert(b.map_values(f) =~= Seq::<Seq<CallSpec>>::empty());
        assert(extras_calls(a, platform) + extras_calls(b, platform) =~= extras_calls(a, platform));
    } else {
        extras_start_in_order(a, b.drop_last(), platform);
        assert((a + b).drop_last() =~= a + b.drop_last());
        assert((a + b).map_values(f).drop_last() =~= (a + b.drop_last()).map_values(f));
        assert(b.map_values(f).drop_last() =~= b.drop_last().map_values(f));
        assert((a + b).map_values(f).last() == b.map_values(f).last());
    }
}

} // verus!
