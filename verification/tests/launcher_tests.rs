use shelldon::config::{Pane, Platform, Project};
use shelldon::launcher::{find_first_pane_index, get_shell_command, launch, LayoutNode};
use shelldon::plan::{Failure, LaunchEnv, ProcessCall};

fn pane(name: &str, path: &str, command: &str) -> Pane {
    Pane { name: name.into(), path: path.into(), command: command.into() }
}

fn project(terminal: &str, layout: &str, panes: Vec<Pane>, extras: Vec<&str>) -> Project {
    Project {
        name: "erp".into(),
        description: String::new(),
        terminal: terminal.into(),
        color: String::new(),
        icon: "🚀".into(),
        layout: layout.into(),
        terminal_profile: None,
        shell: None,
        load_profile: true,
        panes,
        extras: extras.into_iter().map(String::from).collect(),
    }
}

fn env() -> LaunchEnv {
    LaunchEnv { platform: Platform::Windows, home: Some("C:\\Users\\u".into()), shell: "pwsh.exe".into() }
}

fn args(call: &ProcessCall) -> Vec<&str> {
    call.args.iter().map(|s| s.as_str()).collect()
}

fn framed(before: &str, after: &str) -> Failure {
    Failure::Framed { before: before.into(), after: after.into() }
}

#[test]
fn shell_commands_by_profile() {
    assert_eq!(get_shell_command("ls", "my-pwsh"), "pwsh.exe -NoExit -Command ls");
    assert_eq!(get_shell_command("ls", "powershell"), "powershell.exe -NoExit -Command ls");
    assert_eq!(get_shell_command("ls", "git bash"), "bash -ic 'ls ; exec bash'");
    assert_eq!(get_shell_command("ls", "zsh"), "zsh -ic 'ls ; exec zsh'");
    assert_eq!(get_shell_command("ls", "cmd"), "ls");
}

#[test]
fn first_pane_of_layout_tree() {
    let pane = |i: Option<u64>| Box::new(LayoutNode::Pane { index: i });
    assert_eq!(find_first_pane_index(&LayoutNode::Pane { index: Some(3) }), Some(3));
    assert_eq!(find_first_pane_index(&LayoutNode::Pane { index: None }), Some(0));
    assert_eq!(find_first_pane_index(&LayoutNode::Other), None);
    let tree = LayoutNode::Split {
        left: Box::new(LayoutNode::Split { left: Box::new(LayoutNode::Other), right: Box::new(LayoutNode::Other) }),
        right: pane(Some(7)),
    };
    assert_eq!(find_first_pane_index(&tree), Some(7));
    let tree = LayoutNode::Split { left: pane(Some(2)), right: pane(Some(5)) };
    assert_eq!(find_first_pane_index(&tree), Some(2));
}

#[test]
fn pwsh_cmd_and_tabs() {
    let panes = || vec![pane("A", "~\\a", "npm start")];
    let p = launch(&project("pwsh", "cols-2", panes(), vec![]), &env()).attempt.unwrap();
    assert_eq!(p[0].program, "pwsh.exe");
    assert_eq!(args(&p[0]), vec!["-NoExit", "-Command", "Set-Location 'C:\\Users\\u\\a'; npm start"]);
    assert_eq!(p[0].failure, framed("PowerShell 7: ", ""));
    let c = launch(&project("cmd", "cols-2", panes(), vec![]), &env()).attempt.unwrap();
    assert_eq!(c[0].program, "cmd.exe");
    assert_eq!(args(&c[0]), vec!["/K", "cd /d \"C:\\Users\\u\\a\" && if defined AUTORUN (%%AUTORUN%%) && npm start"]);
    assert_eq!(c[0].failure, framed("CMD: ", ""));
    let t = launch(&project("tilix", "cols-2", vec![pane("A", "/a", "ls")], vec![]), &env()).attempt.unwrap();
    assert_eq!(t[0].program, "tilix");
    assert_eq!(args(&t[0]), vec!["--working-directory", "/a", "-e", "bash -ic 'cd \"/a\" && ls; exec bash'"]);
    assert_eq!(t[0].failure, framed("tilix: ", ""));
    let t = launch(&project("terminator", "cols-2", vec![pane("A", "/a", "ls")], vec![]), &env()).attempt.unwrap();
    assert_eq!(t[0].program, "terminator");
}

#[test]
fn vscode_extra() {
    let p = launch(&project("cmd", "cols-2", vec![], vec!["vscode", "code", "browser:http://x"]), &env()).attempt.unwrap();
    assert_eq!(p.len(), 3);
    assert_eq!(p[0].program, "code");
    assert_eq!(args(&p[0]), vec!["."]);
    assert_eq!(p[0].failure, framed("VSCode: ", ". ¿Está 'code' en el PATH?"));
    assert_eq!(p[1].program, "code");
    assert_eq!(p[2].program, "cmd");
    assert_eq!(args(&p[2]), vec!["/C", "start", "", "http://x"]);
}

#[test]
fn wt_grid_with_targets() {
    let panes: Vec<Pane> = (0..4).map(|i| pane(&format!("p{}", i), "/p", "ls")).collect();
    let plan = launch(&project("wt", "grid-2x2", panes, vec![]), &env()).attempt.unwrap();
    let a = args(&plan[0]);
    assert!(!plan[0].hidden_console);
    let splits: Vec<usize> = a.iter().enumerate().filter(|(_, s)| **s == "split-pane").map(|(i, _)| i).collect();
    assert_eq!(splits.len(), 3);
    assert_eq!(a[splits[0] + 1], "-V");
    assert_eq!(&a[splits[1] + 1..splits[1] + 4], &["-t", "0", "-H"]);
    assert_eq!(&a[splits[2] + 1..splits[2] + 4], &["-t", "1", "-H"]);
    assert!(!a.contains(&"focus-pane"));
    let cols3 = launch(&project("wt", "cols-3", vec![pane("a", "/a", "x"), pane("b", "/b", "y")], vec![]), &env()).attempt.unwrap();
    assert!(args(&cols3[0]).contains(&"-V"));
}

#[test]
fn dispatch_and_refusals() {
    assert_eq!(
        launch(&project("auto", "cols-2", vec![], vec![]), &env()).attempt,
        Err("Terminal 'auto' no soportada.".to_string())
    );
    assert_eq!(launch(&project("tmux", "cols-2", vec![], vec![]), &env()).attempt, Err("Sin panes.".to_string()));
    assert_eq!(launch(&project("iterm2", "cols-2", vec![], vec![]), &env()).attempt, Err("Sin panes.".to_string()));
    assert_eq!(
        launch(&project("wt", "cols-2", vec![], vec![]), &env()).attempt,
        Err("El proyecto 'erp' no tiene panes configurados.".to_string())
    );
    let ps = launch(&project("powershell", "cols-2", vec![pane("a", "/a", "x")], vec!["vscode"]), &env()).attempt.unwrap();
    assert_eq!(ps[0].program, "powershell.exe");
    assert_eq!(ps[1].program, "code");
    let tmux = launch(&project("tmux", "cols-2", vec![pane("a", "/a", "x")], vec!["code"]), &env()).attempt.unwrap();
    assert_eq!(tmux.last().unwrap().program, "code");
    assert!(launch(&project("tmux", "cols-2", vec![], vec![]), &env()).fallback.is_none());
}
