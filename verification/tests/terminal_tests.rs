use shelldon::config::{sanitize, Pane, Platform, Project};
use shelldon::launching::launch_project;
use shelldon::plan::{Failure, LaunchEnv, ProcessCall, RunMode};
use shelldon::terminal::launch;
use shelldon::terminal::linux::gnome::launch_gnome;
use shelldon::terminal::linux::tmux::launch_tmux;
use shelldon::terminal::mac::iterm2::launch_iterm2;
use shelldon::terminal::mac::terminal_app::launch_terminal_app;
use shelldon::terminal::utils::{
    get_default_shell, launch_env, launch_extra, resolve, resolve_with_home, sanitize_session,
};
use shelldon::terminal::windows::powershell::launch_powershell;
use shelldon::terminal::windows::wt::launch_wt;

fn pane(name: &str, path: &str, command: &str) -> Pane {
    Pane { name: name.into(), path: path.into(), command: command.into() }
}

fn project(terminal: &str, layout: &str, panes: Vec<Pane>, extras: Vec<&str>) -> Project {
    Project {
        name: "My App".into(),
        description: String::new(),
        terminal: terminal.into(),
        color: String::new(),
        icon: "🚀".into(),
        layout: layout.into(),
        terminal_profile: None,
        shell: None,
        load_profile: true,
        panes,
        extras: extras.into_iter().map(String::from).collect(),
    }
}

fn env(platform: Platform) -> LaunchEnv {
    LaunchEnv { platform, home: Some("/home/u".into()), shell: "/bin/zsh".into() }
}

fn args(call: &ProcessCall) -> Vec<&str> {
    call.args.iter().map(|s| s.as_str()).collect()
}

fn framed(before: &str, after: &str) -> Failure {
    Failure::Framed { before: before.into(), after: after.into() }
}

#[test]
fn default_shell_from_environment() {
    assert_eq!(get_default_shell(Some("/bin/fish".into()), Platform::Linux), "/bin/fish");
    assert_eq!(get_default_shell(Some("".into()), Platform::Linux), "/bin/bash");
    assert_eq!(get_default_shell(None, Platform::Windows), "pwsh.exe");
    assert_eq!(get_default_shell(None, Platform::MacOs), "/bin/bash");
    let e = launch_env(Platform::Linux, Some("/bin/fish".into()));
    assert_eq!(e.shell, "/bin/fish");
    assert_eq!(e.platform, Platform::Linux);
}

#[test]
fn resolve_replaces_leading_tilde_only() {
    let home = Some("/home/u".to_string());
    assert_eq!(resolve_with_home("~/code", &home), "/home/u/code");
    assert_eq!(resolve_with_home("~", &home), "/home/u");
    assert_eq!(resolve_with_home("/a/~b", &home), "/a/~b");
    assert_eq!(resolve_with_home("~/code", &None), "~/code");
    assert_eq!(resolve_with_home("", &home), "");
}

#[test]
fn resolve_uses_the_home_directory() {
    assert_eq!(resolve("/tmp/x"), "/tmp/x");
    match dirs::home_dir() {
        Some(h) => {
            let h = h.to_string_lossy().into_owned();
            assert_eq!(resolve("~/code"), format!("{}/code", h));
        }
        None => assert_eq!(resolve("~/code"), "~/code"),
    }
}

#[test]
fn session_names() {
    assert_eq!(sanitize_session("My App"), "My_App");
    assert_eq!(sanitize_session("erp-2.0_x"), "erp-2_0_x");
    assert_eq!(sanitize_session("añb"), "añb");
    assert_eq!(sanitize_session("My App.v2"), "My_App_v2");
    assert_eq!(sanitize_session("My App.v2").to_lowercase(), sanitize("My App.v2"));
}

#[test]
fn extras_by_kind_and_platform() {
    let b = launch_extra("browser:http://localhost:5173", Platform::Linux);
    assert_eq!(b.len(), 1);
    assert_eq!(b[0].program, "xdg-open");
    assert_eq!(args(&b[0]), vec!["http://localhost:5173"]);
    assert_eq!(b[0].failure, Failure::Raw);
    let w = launch_extra("https://x.dev", Platform::Windows);
    assert_eq!(w[0].program, "cmd");
    assert_eq!(args(&w[0]), vec!["/C", "start", "", "https://x.dev"]);
    let m = launch_extra("browser:browser:http://a", Platform::MacOs);
    assert_eq!(m[0].program, "open");
    assert_eq!(args(&m[0]), vec!["http://a"]);
    assert!(launch_extra("http://a", Platform::Other).is_empty());
    let p = launch_extra("docker", Platform::Linux);
    assert_eq!(p[0].program, "docker");
    assert!(p[0].args.is_empty());
    assert_eq!(p[0].failure, framed("Extra 'docker': ", ""));
    assert_eq!(p[0].mode, RunMode::Detached);
    for name in ["vscode", "code"] {
        let v = launch_extra(name, Platform::Linux);
        assert_eq!(v.len(), 1);
        assert_eq!(v[0].program, "code");
        assert_eq!(args(&v[0]), vec!["."]);
        assert_eq!(v[0].failure, framed("VSCode: ", ". ¿Está 'code' en el PATH?"));
    }
    assert_eq!(launch_extra("vscodium", Platform::Linux)[0].program, "vscodium");
}

#[test]
fn tmux_plan_for_two_panes() {
    let p = project(
        "tmux",
        "cols-2",
        vec![pane("Front", "~/front", "npm run dev"), pane("Back", "/srv/back", "make run")],
        vec!["browser:http://localhost:5173"],
    );
    let plan = launch_tmux(&p, &env(Platform::Linux)).unwrap();
    assert_eq!(plan.len(), 7);
    assert_eq!(args(&plan[0]), vec!["kill-session", "-t", "My_App"]);
    assert_eq!(plan[0].mode, RunMode::Ignored);
    assert_eq!(
        args(&plan[1]),
        vec!["new-session", "-d", "-s", "My_App", "-c", "/home/u/front", "/bin/zsh"]
    );
    assert_eq!(plan[1].mode, RunMode::Awaited);
    assert_eq!(
        args(&plan[2]),
        vec![
            "send-keys",
            "-t",
            "My_App:0.0",
            "source ~/.bashrc 2>/dev/null || source ~/.zshrc 2>/dev/null; npm run dev",
            "Enter"
        ]
    );
    assert_eq!(
        args(&plan[3]),
        vec!["split-window", "-h", "-t", "My_App:0", "-c", "/srv/back", "/bin/zsh"]
    );
    assert_eq!(args(&plan[4])[2], "My_App:0.1");
    assert_eq!(args(&plan[5]), vec!["attach-session", "-t", "My_App"]);
    assert_eq!(plan[5].mode, RunMode::Detached);
    assert_eq!(plan[6].program, "xdg-open");
    assert!(plan.iter().take(6).all(|c| c.program == "tmux" && c.failure == Failure::Raw));
}

#[test]
fn tmux_layouts() {
    let panes: Vec<Pane> = (0..6).map(|i| pane(&format!("p{}", i), "/p", "ls")).collect();
    let split = |layout: &str| -> Vec<(String, String)> {
        let p = project("tmux", layout, panes.iter().map(|x| pane(&x.name, &x.path, &x.command)).collect(), vec![]);
        let plan = launch_tmux(&p, &env(Platform::Linux)).unwrap();
        (1..6).map(|i| (plan[1 + 2 * i].args[1].clone(), plan[1 + 2 * i].args[3].clone())).collect()
    };
    let s = |d: &str, t: &str| (d.to_string(), format!("My_App{}", t));
    assert_eq!(split("grid-2x2"), vec![s("-h", ":0.0"), s("-v", ":0.0"), s("-v", ":0.1"), s("-v", ":0"), s("-v", ":0")]);
    assert_eq!(split("cols-3"), vec![s("-h", ":0"); 5]);
    assert_eq!(split("rows-2"), vec![s("-v", ":0"); 5]);
    assert_eq!(split("focus-right"), vec![s("-h", ":0"), s("-v", ":0.1"), s("-v", ":0.1"), s("-v", ":0.1"), s("-v", ":0.1")]);
    assert_eq!(split("focus-left"), vec![s("-h", ":0"), s("-v", ":0.0"), s("-v", ":0.0"), s("-v", ":0.0"), s("-v", ":0.0")]);
    assert_eq!(split("other"), vec![s("-v", ":0"); 5]);
    let p = project("tmux", "cols-2", panes.iter().map(|x| pane(&x.name, &x.path, &x.command)).collect(), vec![]);
    let plan = launch_tmux(&p, &env(Platform::Linux)).unwrap();
    assert_eq!(plan.len(), 2 * 6 + 2);
    assert_eq!(plan[12].args[2], "My_App:0.5");
}

#[test]
fn tmux_refuses_no_panes() {
    let p = project("tmux", "cols-2", vec![], vec![]);
    assert_eq!(launch_tmux(&p, &env(Platform::Linux)), Err("Sin panes.".to_string()));
}

#[test]
fn wt_linear_layout() {
    let mut p = project(
        "wt",
        "cols-2",
        vec![pane("A", "~/a", "  npm run dev "), pane("B", "C:\\b", "Bash -l"), pane("C", "C:\\c", "PWSH -x")],
        vec!["vscode"],
    );
    p.terminal_profile = Some("Ubuntu".into());
    let plan = launch_wt(&p, &env(Platform::Windows)).unwrap();
    assert_eq!(plan.len(), 2);
    assert_eq!(plan[0].program, "code");
    let wt = &plan[1];
    assert_eq!(wt.program, "wt.exe");
    assert!(wt.hidden_console);
    assert_eq!(wt.failure, framed("No se pudo abrir Windows Terminal: ", ". ¿Está instalado?"));
    assert_eq!(
        args(wt),
        vec![
            "new-tab", "--title", "A", "--startingDirectory", "/home/u/a", "--profile", "Ubuntu", "--",
            "powershell.exe", "-NoExit", "-Command", "npm run dev",
            ";", "split-pane", "-V", "--title", "B", "--startingDirectory", "C:\\b", "--profile", "Ubuntu", "--",
            "bash.exe", "-c", "Bash -l; exec bash",
            ";", "split-pane", "-V", "--title", "C", "--startingDirectory", "C:\\c", "--profile", "Ubuntu", "--",
            "pwsh.exe", "-NoExit", "-Command", "PWSH -x",
        ]
    );
    let mut rows = p;
    rows.layout = "rows-2".into();
    let plan = launch_wt(&rows, &env(Platform::Linux)).unwrap();
    assert!(!plan[1].hidden_console);
    assert_eq!(plan[1].args[14], "-H");
}

#[test]
fn wt_grid_layout() {
    let panes: Vec<Pane> = (0..5).map(|i| pane(&format!("p{}", i), "/p", "ls")).collect();
    let p = project("wt", "grid-2x2", panes, vec![]);
    let plan = launch_wt(&p, &env(Platform::Windows)).unwrap();
    assert_eq!(plan.len(), 1);
    let a = args(&plan[0]);
    fn tail(name: &str) -> Vec<&str> {
        vec!["--title", name, "--startingDirectory", "/p", "--", "powershell.exe", "-NoExit", "-Command", "ls"]
    }
    let mut expected: Vec<&str> = vec!["new-tab"];
    let t0 = tail("p0");
    expected.extend(t0.iter());
    expected.extend([";", "split-pane", "-V"]);
    let t1 = tail("p1");
    expected.extend(t1.iter());
    expected.extend([";", "focus-pane", "-t", "0", ";", "split-pane", "-H"]);
    let t2 = tail("p2");
    expected.extend(t2.iter());
    expected.extend([";", "focus-pane", "-t", "1", ";", "split-pane", "-H"]);
    let t3 = tail("p3");
    expected.extend(t3.iter());
    expected.extend([";", "split-pane", "-V"]);
    let t4 = tail("p4");
    expected.extend(t4.iter());
    assert_eq!(a, expected);
}

#[test]
fn wt_refuses_no_panes() {
    let p = project("wt", "cols-2", vec![], vec!["vscode"]);
    assert_eq!(
        launch_wt(&p, &env(Platform::Windows)),
        Err("El proyecto 'My App' no tiene panes configurados.".to_string())
    );
}

#[test]
fn powershell_escapes_the_directory() {
    let p = project("powershell", "cols-2", vec![pane("A", "C:\\Users\\o'neil", "npm start")], vec![]);
    let plan = launch_powershell(&p, &env(Platform::Windows)).unwrap();
    assert_eq!(plan.len(), 1);
    assert_eq!(plan[0].program, "powershell.exe");
    assert_eq!(plan[0].failure, framed("PowerShell: ", ""));
    assert_eq!(
        args(&plan[0]),
        vec![
            "-NoExit",
            "-Command",
            "& { $profile_path = if (Test-Path $PROFILE.CurrentUserCurrentHost) { $PROFILE.CurrentUserCurrentHost } else { $PROFILE.AllUsersCurrentHost }; if (Test-Path $profile_path) { . $profile_path }; Set-Location 'C:\\\\Users\\\\o''neil'; npm start }"
        ]
    );
    let empty = project("powershell", "cols-2", vec![], vec![]);
    assert!(launch_powershell(&empty, &env(Platform::Windows)).unwrap().is_empty());
}

#[test]
fn gnome_one_window_with_tabs() {
    let p = project("gnome-terminal", "cols-2", vec![pane("A", "~/a", "ls"), pane("B", "/b", "top")], vec!["docker"]);
    let plan = launch_gnome(&p, &env(Platform::Linux)).unwrap();
    assert_eq!(plan.len(), 2);
    assert_eq!(plan[0].program, "gnome-terminal");
    assert_eq!(plan[0].failure, framed("GNOME Terminal: ", ""));
    assert_eq!(
        args(&plan[0]),
        vec![
            "--tab", "--", "bash", "-c", "bash -ic 'cd \"/home/u/a\" && ls; exec bash'",
            "--tab", "--", "bash", "-c", "bash -ic 'cd \"/b\" && top; exec bash'",
        ]
    );
    assert_eq!(plan[1].program, "docker");
    let empty = project("gnome-terminal", "cols-2", vec![], vec![]);
    let plan = launch_gnome(&empty, &env(Platform::Linux)).unwrap();
    assert_eq!(plan.len(), 1);
    assert!(plan[0].args.is_empty());
}

#[test]
fn iterm2_script() {
    let p = project("iterm2", "grid-2x2", vec![pane("A", "~/a", "ls"), pane("B", "/b", "top")], vec![]);
    let plan = launch_iterm2(&p, &env(Platform::MacOs)).unwrap();
    assert_eq!(plan.len(), 1);
    assert_eq!(plan[0].program, "osascript");
    assert_eq!(plan[0].args[0], "-e");
    let expected = "tell application \"iTerm2\"\n  activate\n  set w to (create window with default profile)\n  tell current session of w\n    write text \"cd '/home/u/a' && source ~/.zshrc 2>/dev/null || source ~/.bashrc 2>/dev/null && ls\"\n  end tell\n  tell w\n    set p to (split vertically with default profile)\n  end tell\n  tell p\n    write text \"cd '/b' && source ~/.zshrc 2>/dev/null || source ~/.bashrc 2>/dev/null && top\"\n  end tell\nend tell\n";
    assert_eq!(plan[0].args[1], expected);
    let mut rows = p;
    rows.layout = "rows-2".into();
    let plan = launch_iterm2(&rows, &env(Platform::MacOs)).unwrap();
    assert!(plan[0].args[1].contains("split horizontally"));
    let empty = project("iterm2", "cols-2", vec![], vec![]);
    assert_eq!(launch_iterm2(&empty, &env(Platform::MacOs)), Err("Sin panes.".to_string()));
}

#[test]
fn terminal_app_one_script_per_pane() {
    let p = project("terminal-app", "cols-2", vec![pane("A", "~/a", "ls"), pane("B", "/b", "top")], vec!["http://x"]);
    let plan = launch_terminal_app(&p, &env(Platform::MacOs)).unwrap();
    assert_eq!(plan.len(), 3);
    assert_eq!(
        args(&plan[0]),
        vec!["-e", "tell application \"Terminal\"\n  do script \"cd '/home/u/a' && ls\"\n  activate\nend tell"]
    );
    assert_eq!(plan[1].failure, framed("Terminal.app: ", ""));
    assert_eq!(plan[2].program, "open");
}

#[test]
fn launch_chooses_by_terminal() {
    let panes = || vec![pane("A", "/a", "ls")];
    let e = env(Platform::Linux);
    let tmux = launch(&project("tmux", "cols-2", panes(), vec![]), &e);
    assert!(tmux.fallback.is_none());
    assert_eq!(tmux.attempt.unwrap()[0].program, "tmux");
    let wt = launch(&project("windows-terminal", "cols-2", panes(), vec![]), &e);
    assert_eq!(wt.attempt.unwrap()[0].program, "wt.exe");
    let bad = launch(&project("konsole", "cols-2", panes(), vec![]), &e);
    assert_eq!(bad.attempt, Err("Terminal 'konsole' no soportada.".to_string()));
    assert!(bad.fallback.is_none());
    let same = launch_project(&project("iterm2", "cols-2", panes(), vec![]), &e);
    assert_eq!(same.attempt.unwrap()[0].program, "osascript");
}

#[test]
fn auto_has_a_fallback_per_platform() {
    let p = project("auto", "cols-2", vec![pane("A", "/a", "ls")], vec![]);
    let linux = launch(&p, &env(Platform::Linux));
    assert_eq!(linux.attempt.unwrap()[0].program, "tmux");
    assert_eq!(linux.fallback.unwrap().unwrap()[0].program, "gnome-terminal");
    let win = launch(&p, &env(Platform::Windows));
    assert_eq!(win.attempt.unwrap()[0].program, "wt.exe");
    assert_eq!(win.fallback.unwrap().unwrap()[0].program, "powershell.exe");
    let mac = launch(&p, &env(Platform::MacOs));
    assert_eq!(mac.attempt.unwrap()[0].program, "osascript");
    assert_eq!(mac.fallback.unwrap().unwrap()[0].args[1], "tell application \"Terminal\"\n  do script \"cd '/a' && ls\"\n  activate\nend tell");
}

#[test]
fn tmux_uses_project_shell_and_skips_dotfiles_when_asked() {
    let mut p = project("tmux", "cols-2", vec![pane("A", "/a", "ls"), pane("B", "/b", "top")], vec![]);
    p.shell = Some("fish".into());
    p.load_profile = false;
    let plan = launch_tmux(&p, &env(Platform::Linux)).unwrap();
    assert_eq!(args(&plan[1]), vec!["new-session", "-d", "-s", "My_App", "-c", "/a", "fish"]);
    assert_eq!(args(&plan[2]), vec!["send-keys", "-t", "My_App:0.0", "ls", "Enter"]);
    assert_eq!(args(&plan[3]), vec!["split-window", "-h", "-t", "My_App:0", "-c", "/b", "fish"]);
    assert_eq!(args(&plan[4]), vec!["send-keys", "-t", "My_App:0.1", "top", "Enter"]);
}

#[test]
fn iterm2_and_powershell_without_profile() {
    let mut p = project("iterm2", "cols-2", vec![pane("A", "~/a", "ls")], vec![]);
    p.load_profile = false;
    let plan = launch_iterm2(&p, &env(Platform::MacOs)).unwrap();
    assert!(plan[0].args[1].contains("    write text \"cd '/home/u/a' && ls\"\n"));
    assert!(!plan[0].args[1].contains("source"));
    let mut w = project("powershell", "cols-2", vec![pane("A", "C:\\x", "npm start")], vec![]);
    w.load_profile = false;
    let plan = launch_powershell(&w, &env(Platform::Windows)).unwrap();
    assert_eq!(args(&plan[0]), vec!["-NoExit", "-Command", "& { Set-Location 'C:\\\\x'; npm start }"]);
}

#[test]
fn gnome_uses_project_shell() {
    let mut p = project("gnome-terminal", "cols-2", vec![pane("A", "/a", "ls")], vec![]);
    p.shell = Some("zsh".into());
    p.load_profile = false;
    let plan = launch_gnome(&p, &env(Platform::Linux)).unwrap();
    assert_eq!(args(&plan[0]), vec!["--tab", "--", "zsh", "-c", "zsh -c 'cd \"/a\" && ls; exec zsh'"]);
}

#[test]
fn wt_shell_chosen_from_command() {
    let mut p = project("wt", "rows-2", vec![pane("A", "/a", "npm run dev")], vec![]);
    p.shell = Some("Git Bash".into());
    let plan = launch_wt(&p, &env(Platform::Windows)).unwrap();
    let a = args(&plan[0]);
    assert_eq!(&a[a.len() - 4..], &["powershell.exe", "-NoExit", "-Command", "npm run dev"]);
    p.shell = Some("pwsh.exe".into());
    p.panes[0].command = "  BASH build.sh ".into();
    let plan = launch_wt(&p, &env(Platform::Windows)).unwrap();
    let a = args(&plan[0]);
    assert_eq!(&a[a.len() - 3..], &["bash.exe", "-c", "BASH build.sh; exec bash"]);
    p.panes[0].command = "Pwsh -File run.ps1".into();
    let plan = launch_wt(&p, &env(Platform::Windows)).unwrap();
    let a = args(&plan[0]);
    assert_eq!(&a[a.len() - 4..], &["pwsh.exe", "-NoExit", "-Command", "Pwsh -File run.ps1"]);
}

#[test]
fn launch_supports_cmd_pwsh_terminator_tilix() {
    let e = env(Platform::Windows);
    let panes = || vec![pane("A", "/a", "ls"), pane("B", "/b", "top")];
    let cmd = launch(&project("cmd", "cols-2", panes(), vec![]), &e).attempt.unwrap();
    assert_eq!(cmd.len(), 2);
    assert_eq!(cmd[0].program, "cmd.exe");
    assert_eq!(args(&cmd[0]), vec!["/K", "cd /d \"/a\" && if defined AUTORUN (%%AUTORUN%%) && ls"]);
    let pwsh = launch(&project("pwsh", "cols-2", panes(), vec![]), &e).attempt.unwrap();
    assert_eq!(pwsh[1].program, "pwsh.exe");
    for t in ["terminator", "tilix"] {
        let plan = launch(&project(t, "cols-2", panes(), vec!["vscode"]), &env(Platform::Linux));
        let calls = plan.attempt.unwrap();
        assert_eq!(calls.len(), 3);
        assert_eq!(calls[0].program, t);
        assert_eq!(args(&calls[1]), vec!["--working-directory", "/b", "-e", "bash -ic 'cd \"/b\" && top; exec bash'"]);
        assert_eq!(calls[2].program, "code");
    }
}
