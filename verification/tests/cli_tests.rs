use shelldon::cli::{list_output, project_not_found, run, show_output, CliArgs, CliEvent, CliRequest, Commands};
use shelldon::config::{Pane, Project};

fn project(name: &str, panes: usize) -> Project {
    Project {
        name: name.into(),
        description: "Laravel + Vue".into(),
        terminal: "windows-terminal".into(),
        color: "#7c3aed".into(),
        icon: "🏢".into(),
        layout: "cols-2".into(),
        terminal_profile: None,
        shell: None,
        load_profile: true,
        panes: (0..panes)
            .map(|i| Pane { name: format!("P{}", i), path: "./front".into(), command: "npm run dev".into() })
            .collect(),
        extras: vec!["vscode".into(), "browser:http://localhost:5173".into()],
    }
}

#[test]
fn list_lines() {
    assert_eq!(list_output(&vec![]), vec!["Sin proyectos. Usa 'shelldon add <archivo.json>' para agregar uno."]);
    let lines = list_output(&vec![project("ERP", 2), project("Solo", 1)]);
    assert_eq!(
        lines,
        vec![
            "📋 Proyectos configurados:\n".to_string(),
            format!("  🏢 {:<20} — 2 panes — Laravel + Vue", "ERP"),
            format!("  🏢 {:<20} — 1 pane — Laravel + Vue", "Solo"),
            "\nUsa 'shelldon up <nombre>' para lanzar.".to_string(),
        ]
    );
}

#[test]
fn show_lines() {
    let p = project("ERP", 1);
    assert_eq!(
        show_output(&p),
        vec![
            "🏢 ERP",
            "   Descripción: Laravel + Vue",
            "   Terminal: windows-terminal",
            "   • P0 → ./front → `npm run dev`",
            "   Extras: vscode, browser:http://localhost:5173",
        ]
    );
    let mut bare = project("X", 0);
    bare.description = String::new();
    bare.extras = vec![];
    assert_eq!(show_output(&bare), vec!["🏢 X", "   Terminal: windows-terminal"]);
    assert_eq!(project_not_found("erp"), "Proyecto 'erp' no encontrado.");
}

#[test]
fn up_launches_the_project_named() {
    let mut s = run(CliArgs { command: Commands::Up { name: "erp".into() } });
    let step = s.step(CliEvent::Started);
    assert!(step.print.is_empty());
    assert_eq!(step.request, CliRequest::LoadProjects);
    let step = s.step(CliEvent::ProjectsLoaded(vec![project("web", 1), project("ERP", 2)]));
    assert_eq!(step.print, vec!["🚀 Lanzando \"ERP\"..."]);
    assert_eq!(step.request, CliRequest::LaunchProject(project("ERP", 2)));
    let step = s.step(CliEvent::Launched);
    assert_eq!(step.print, vec!["✅ Entorno lanzado."]);
    assert_eq!(step.request, CliRequest::Finish(Ok(())));
}

#[test]
fn up_unknown_project_fails() {
    let mut s = run(CliArgs { command: Commands::Up { name: "nope".into() } });
    s.step(CliEvent::Started);
    let step = s.step(CliEvent::ProjectsLoaded(vec![project("web", 1)]));
    assert!(step.print.is_empty());
    assert_eq!(
        step.request,
        CliRequest::Finish(Err("Proyecto 'nope' no encontrado. Usa 'shelldon list' para ver los disponibles.".into()))
    );
}

#[test]
fn list_command() {
    let mut s = run(CliArgs { command: Commands::List });
    assert_eq!(s.step(CliEvent::Started).request, CliRequest::LoadProjects);
    let step = s.step(CliEvent::ProjectsLoaded(vec![]));
    assert_eq!(step.print.len(), 1);
    assert_eq!(step.request, CliRequest::Finish(Ok(())));
}

#[test]
fn add_command() {
    let mut s = run(CliArgs { command: Commands::Add { file: "./p.json".into() } });
    assert_eq!(s.step(CliEvent::Started).request, CliRequest::ImportFile("./p.json".into()));
    let step = s.step(CliEvent::ProjectImported(project("ERP", 1)));
    assert!(step.print.is_empty());
    assert_eq!(step.request, CliRequest::SaveProject(project("ERP", 1)));
    let step = s.step(CliEvent::ProjectSaved);
    assert_eq!(step.print, vec!["✅ Proyecto 'ERP' agregado."]);
    assert_eq!(step.request, CliRequest::Finish(Ok(())));
}

#[test]
fn remove_command() {
    let mut s = run(CliArgs { command: Commands::Remove { name: "erp".into() } });
    assert_eq!(s.step(CliEvent::Started).request, CliRequest::DeleteProject("erp".into()));
    let step = s.step(CliEvent::ProjectDeleted(true));
    assert_eq!(step.print, vec!["🗑️  Proyecto 'erp' eliminado."]);
    let mut s = run(CliArgs { command: Commands::Remove { name: "erp".into() } });
    s.step(CliEvent::Started);
    let step = s.step(CliEvent::ProjectDeleted(false));
    assert_eq!(step.print, vec!["⚠️  Proyecto 'erp' no encontrado."]);
    assert_eq!(step.request, CliRequest::Finish(Ok(())));
}

#[test]
fn show_command() {
    let mut s = run(CliArgs { command: Commands::Show { name: "Erp".into() } });
    assert_eq!(s.step(CliEvent::Started).request, CliRequest::LoadProjects);
    let step = s.step(CliEvent::ProjectsLoaded(vec![project("ERP", 1)]));
    assert_eq!(step.print[0], "🏢 ERP");
    assert_eq!(step.request, CliRequest::Finish(Ok(())));
    let mut s = run(CliArgs { command: Commands::Show { name: "x".into() } });
    s.step(CliEvent::Started);
    let step = s.step(CliEvent::ProjectsLoaded(vec![]));
    assert_eq!(step.request, CliRequest::Finish(Err("Proyecto 'x' no encontrado.".into())));
}

#[test]
fn unexpected_event_ends_quietly() {
    let mut s = run(CliArgs { command: Commands::List });
    let step = s.step(CliEvent::Launched);
    assert!(step.print.is_empty());
    assert_eq!(step.request, CliRequest::Finish(Ok(())));
}
