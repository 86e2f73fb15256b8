//! Terminal launchers, one module per platform family, and the choice of
//! launcher by the terminal a project names: "auto", Windows Terminal
//! ("windows-terminal" or "wt"), "powershell", "pwsh", "cmd", "tmux",
//! "gnome-terminal", "terminator", "tilix", "iterm2" and "terminal-app".
pub mod linux;
pub mod mac;
pub mod utils;
pub mod windows;

use vstd::prelude::*;
use crate::config::{Platform, Project};
use crate::plan::{LaunchPlan, PlanSpec, AttemptSpec};
use crate::terminal::linux::gnome::{gnome_attempt, launch_gnome};
use crate::terminal::linux::tabs::{launch_tabs, tabs_attempt};
use crate::terminal::windows::cmd::{cmd_attempt, launch_cmd};
use crate::terminal::windows::pwsh::{launch_pwsh, pwsh_attempt};
use crate::terminal::linux::tmux::{launch_tmux, tmux_attempt};
use crate::terminal::mac::iterm2::{iterm2_attempt, launch_iterm2};
use crate::terminal::mac::terminal_app::{launch_terminal_app, terminal_app_attempt};
use crate::terminal::windows::powershell::{launch_powershell, powershell_attempt};
use crate::terminal::windows::wt::{launch_wt, wt_attempt};
use crate::plan::LaunchEnv;
use crate::text::{concat3, str_eq};

verus! {

pub open spec fn single(a: AttemptSpec) -> PlanSpec {
    PlanSpec { attempt: a, fallback: None }
}

pub open spec fn unsupported_message(terminal: Seq<char>) -> Seq<char> {
    "Terminal '"@ + terminal + "' no soportada."@
}

/// "auto": the platform's usual terminal, and a second one if that fails:
/// Windows Terminal then PowerShell on Windows, iTerm2 then Terminal.app on
/// macOS, tmux then GNOME Terminal elsewhere.
pub open spec fn auto_plan(project: Project, env: LaunchEnv) -> PlanSpec {
    match env.platform {
        Platform::Windows => PlanSpec {
            attempt: wt_attempt(project, env),
            fallback: Some(powershell_attempt(project, env)),
        },
        Platform::MacOs => PlanSpec {
            attempt: iterm2_attempt(project, env),
            fallback: Some(terminal_app_attempt(project, env)),
        },
        _ => PlanSpec {
            attempt: tmux_attempt(project, env),
            fallback: Some(gnome_attempt(project, env)),
        },
    }
}

/// The launch of a project, chosen by the terminal it names.
pub open spec fn launch_plan(project: Project, env: LaunchEnv) -> PlanSpec {
    let t = project.terminal@;
    if t == "auto"@ {
        auto_plan(project, env)
    } else if t == "windows-terminal"@ || t == "wt"@ {
        single(wt_attempt(project, env))
    } else if t == "powershell"@ {
        single(powershell_attempt(project, env))
    } else if t == "pwsh"@ {
        single(pwsh_attempt(project, env))
    } else if t == "cmd"@ {
        single(cmd_attempt(project, env))
    } else if t == "tmux"@ {
        single(tmux_attempt(project, env))
    } else if t == "gnome-terminal"@ {
        single(gnome_attempt(project, env))
    } else if t == "iterm2"@ {
        single(iterm2_attempt(project, env))
    } else if t == "terminal-app"@ {
        single(terminal_app_attempt(project, env))
    } else if t == "terminator"@ || t == "tilix"@ {
        single(tabs_attempt(project, env, t))
    } else {
        single(Err(unsupported_message(t)))
    }
}

/// Every terminal the launcher knows is opened by its own launcher, with no
/// second attempt: "windows-terminal" and "wt" by Windows Terminal,
/// "powershell", "pwsh", "cmd", "tmux", "gnome-terminal", "iterm2" and
/// "terminal-app" each by theirs, "terminator" and "tilix" by the tab
/// launcher for that program. "auto" tries the platform's usual terminal and
/// then a second one. Any other name is refused with
/// "Terminal '<name>' no soportada.".
pub proof fn terminals_open_with_their_launcher(project: Project, env: LaunchEnv)
    ensures
        ({
            let t = project.terminal@;
            let plan = launch_plan(project, env);
            &&& (t == "windows-terminal"@ || t == "wt"@) ==> plan == (PlanSpec { attempt: wt_attempt(project, env), fallback: None })
            &&& t == "powershell"@ ==> plan == (PlanSpec { attempt: powershell_attempt(project, env), fallback: None })
            &&& t == "pwsh"@ ==> plan == (PlanSpec { attempt: pwsh_attempt(project, env), fallback: None })
            &&& t == "cmd"@ ==> plan == (PlanSpec { attempt: cmd_attempt(project, env), fallback: None })
            &&& t == "tmux"@ ==> plan == (PlanSpec { attempt: tmux_attempt(project, env), fallback: None })
            &&& t == "gnome-terminal"@ ==> plan == (PlanSpec { attempt: gnome_attempt(project, env), fallback: None })
            &&& t == "iterm2"@ ==> plan == (PlanSpec { attempt: iterm2_attempt(project, env), fallback: None })
            &&& t == "terminal-app"@ ==> plan == (PlanSpec { attempt: terminal_app_attempt(project, env), fallback: None })
            &&& (t == "terminator"@ || t == "tilix"@) ==> plan == (PlanSpec { attempt: tabs_attempt(project, env, t), fallback: None })
            &&& (t == "auto"@ && env.platform == Platform::Windows) ==> plan == (PlanSpec {
                attempt: wt_attempt(project, env),
                fallback: Some(powershell_attempt(project, env)),
            })
            &&& (t == "auto"@ && env.platform == Platform::MacOs) ==> plan == (PlanSpec {
                attempt: iterm2_attempt(project, env),
                fallback: Some(terminal_app_attempt(project, env)),
            })
            &&& (t == "auto"@ && env.platform != Platform::Windows && env.platform != Platform::MacOs) ==> plan == (PlanSpec {
                attempt: tmux_attempt(project, env),
                fallback: Some(gnome_attempt(project, env)),
            })
            &&& !(t == "auto"@ || t == "windows-terminal"@ || t == "wt"@ || t == "powershell"@ || t == "pwsh"@
                || t == "cmd"@ || t == "tmux"@ || t == "gnome-terminal"@ || t == "iterm2"@
                || t == "terminal-app"@ || t == "terminator"@ || t == "tilix"@) ==> plan == (PlanSpec {
                attempt: Err("Terminal '"@ + t + "' no soportada."@),
                fallback: None,
            })
        }),
{
    reveal_strlit("auto");
    reveal_strlit("pwsh");
    reveal_strlit("tmux");
    reveal_strlit("windows-terminal");
    reveal_strlit("wt");
    reveal_strlit("cmd");
    reveal_strlit("powershell");
    reveal_strlit("terminator");
    reveal_strlit("gnome-terminal");
    reveal_strlit("iterm2");
    reveal_strlit("terminal-app");
    reveal_strlit("tilix");
    assert("auto"@.len() == 4 && "pwsh"@.len() == 4 && "tmux"@.len() == 4);
    assert("auto"@[0] == 'a' && "pwsh"@[0] == 'p' && "tmux"@[0] == 't');
    assert("windows-terminal"@.len() == 16 && "wt"@.len() == 2 && "cmd"@.len() == 3);
    assert("powershell"@.len() == 10 && "terminator"@.len() == 10);
    assert("powershell"@[0] == 'p' && "terminator"@[0] == 't');
    assert("gnome-terminal"@.len() == 14 && "iterm2"@.len() == 6 && "terminal-app"@.len() == 12);
    assert("tilix"@.len() == 5);
}

fn launch_auto(project: &Project, env: &LaunchEnv) -> (r: LaunchPlan)
    ensures
        r@ == auto_plan(*project, *env),
{
    match env.platform {
        Platform::Windows => LaunchPlan {
            attempt: launch_wt(project, env),
            fallback: Some(launch_powershell(project, env)),
        },
        Platform::MacOs => LaunchPlan {
            attempt: launch_iterm2(project, env),
            fallback: Some(launch_terminal_app(project, env)),
        },
        _ => LaunchPlan {
            attempt: launch_tmux(project, env),
            fallback: Some(launch_gnome(project, env)),
        },
    }
}

/// The plan that opens a project in the terminal it names; an unknown
/// terminal gives a plan that fails with "Terminal '<name>' no soportada.".
pub fn launch(project: &Project, env: &LaunchEnv) -> (r: LaunchPlan)
    ensures
        r@ == launch_plan(*project, *env),
{
    let t = project.terminal.as_str();
    if str_eq(t, "auto") {
        launch_auto(project, env)
    } else if str_eq(t, "windows-terminal") || str_eq(t, "wt") {
        LaunchPlan { attempt: launch_wt(project, env), fallback: None }
    } else if str_eq(t, "powershell") {
        LaunchPlan { attempt: launch_powershell(project, env), fallback: None }
    } else if str_eq(t, "pwsh") {
        LaunchPlan { attempt: launch_pwsh(project, env), fallback: None }
    } else if str_eq(t, "cmd") {
        LaunchPlan { attempt: launch_cmd(project, env), fallback: None }
    } else if str_eq(t, "tmux") {
        LaunchPlan { attempt: launch_tmux(project, env), fallback: None }
    } else if str_eq(t, "gnome-terminal") {
        LaunchPlan { attempt: launch_gnome(project, env), fallback: None }
    } else if str_eq(t, "iterm2") {
        LaunchPlan { attempt: launch_iterm2(project, env), fallback: None }
    } else if str_eq(t, "terminal-app") {
        LaunchPlan { attempt: launch_terminal_app(project, env), fallback: None }
    } else if str_eq(t, "terminator") || str_eq(t, "tilix") {
        LaunchPlan { attempt: launch_tabs(project, env, t), fallback: None }
    } else {
        LaunchPlan {
            attempt: Err(concat3("Terminal '", t, "' no soportada.")),
            fallback: None,
        }
    }
}

} // verus!
