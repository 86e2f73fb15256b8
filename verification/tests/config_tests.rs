use shelldon::config::{
    default_icon, default_layout, default_terminal, default_true, is_project_file, load_project,
    project_file_name, sanitize, sort_projects, Pane, Platform, Project,
};

fn project(name: &str) -> Project {
    Project {
        name: name.to_string(),
        description: String::new(),
        terminal: "tmux".to_string(),
        color: String::new(),
        icon: "🚀".to_string(),
        layout: "cols-2".to_string(),
        terminal_profile: None,
        shell: None,
        load_profile: true,
        panes: vec![Pane { name: "p".into(), path: "~/x".into(), command: "ls".into() }],
        extras: vec![],
    }
}

#[test]
fn defaults_per_platform() {
    assert_eq!(default_terminal(Platform::Windows), "windows-terminal");
    assert_eq!(default_terminal(Platform::MacOs), "iterm2");
    assert_eq!(default_terminal(Platform::Linux), "tmux");
    assert_eq!(default_terminal(Platform::Other), "tmux");
    assert_eq!(default_icon(), "🚀");
    assert_eq!(default_layout(), "cols-2");
    assert!(default_true());
}

#[test]
fn sanitize_keeps_letters_digits_dash_underscore_and_lowercases() {
    assert_eq!(sanitize("My Project!"), "my_project_");
    assert_eq!(sanitize("ERP-2024_v1"), "erp-2024_v1");
    assert_eq!(sanitize("Ñandú/x.y"), "ñandú_x_y");
    assert_eq!(sanitize(""), "");
}

#[test]
fn ascii_file_stem_laws() {
    for name in ["My Project!", "ERP-2024_v1", "a b/c.d", "Tab\there", "~~~"] {
        let stem = sanitize(name);
        assert_eq!(stem.chars().count(), name.chars().count());
        assert!(stem.chars().all(|c| c.is_ascii_lowercase() || c.is_ascii_digit() || c == '-' || c == '_'));
        assert_eq!(sanitize(&stem), stem);
        assert_eq!(sanitize(&name.to_uppercase()), stem);
        assert_eq!(sanitize(&name.to_lowercase()), stem);
    }
}

#[test]
fn project_file_names() {
    assert_eq!(project_file_name("ERP"), "erp.json");
    assert_eq!(project_file_name("a b"), "a_b.json");
    assert_eq!(project_file_name(""), ".json");
}

#[test]
fn project_files_are_json_files() {
    assert!(is_project_file("erp.json"));
    assert!(is_project_file("x.y.json"));
    assert!(is_project_file("..json"));
    assert!(!is_project_file(".json"));
    assert!(!is_project_file("erp.JSON"));
    assert!(!is_project_file("erp.json.bak"));
    assert!(!is_project_file("json"));
    assert!(!is_project_file(""));
}

#[test]
fn saved_file_is_loadable_on_examples() {
    assert!(is_project_file(&project_file_name("ERP")));
    assert!(is_project_file(&project_file_name("?")));
    assert!(!is_project_file(&project_file_name("")));
}

#[test]
fn sort_is_by_lowercase_name_and_stable() {
    let mut first_a = project("a");
    first_a.description = "first".into();
    let mut second_a = project("A");
    second_a.description = "second".into();
    let sorted = sort_projects(vec![project("beta"), first_a, project("Alpha"), second_a]);
    let names: Vec<&str> = sorted.iter().map(|p| p.name.as_str()).collect();
    assert_eq!(names, vec!["a", "A", "Alpha", "beta"]);
    assert_eq!(sorted[0].description, "first");
    assert_eq!(sorted[1].description, "second");
}

#[test]
fn sort_orders_by_code_point() {
    let sorted = sort_projects(vec![project("b"), project("_x"), project("Z9"), project("é")]);
    let names: Vec<&str> = sorted.iter().map(|p| p.name.as_str()).collect();
    assert_eq!(names, vec!["_x", "b", "Z9", "é"]);
    assert!(sort_projects(vec![]).is_empty());
}

#[test]
fn load_project_matches_ignoring_case_and_takes_first() {
    let mut one = project("Erp");
    one.description = "one".into();
    let mut two = project("ERP");
    two.description = "two".into();
    let found = load_project(vec![project("web"), one, two], "erp").unwrap();
    assert_eq!(found.description, "one");
    assert!(load_project(vec![project("web")], "erp").is_none());
    assert!(load_project(vec![], "x").is_none());
}

#[test]
fn project_found_by_own_name_example() {
    let p = project("Mi Proyecto");
    let found = load_project(vec![project("otro"), p], "Mi Proyecto").unwrap();
    assert_eq!(found.name, "Mi Proyecto");
}

#[test]
fn file_stem_is_lowercased_session_name_example() {
    for name in ["My App!", "ERP-2024_v1", "a_b c", "Ñandú"] {
        assert_eq!(sanitize(name), shelldon::terminal::utils::sanitize_session(name).to_lowercase());
    }
}
