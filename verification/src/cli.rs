//! The command line: `up`, `list`, `add`, `remove` and `show`. A command runs
//! as a conversation: the session asks for what it needs from the outside
//! (the stored projects, a file, a save, a delete, a launch), is told how it
//! went, and says what to print.
use vstd::prelude::*;
use crate::config::{answers_to, load_project, Pane, Project};
use crate::text::{
    concat2, concat3, concat5, decimal, decimal_string, join, join_strings, pad_right,
    pad_string, push_arg, strs,
};

verus! {

/// The parsed command line.
#[derive(Debug, PartialEq, Eq)]
pub struct CliArgs {
    pub command: Commands,
}

/// The commands of the command line.
#[derive(Debug, PartialEq, Eq)]
pub enum Commands {
    /// Launch a project by name.
    Up { name: String },
    /// List every stored project.
    List,
    /// Import a project from a JSON file.
    Add { file: String },
    /// Delete a project by name.
    Remove { name: String },
    /// Show a project's details.
    Show { name: String },
}

/// What the outside reports to a session.
#[derive(Debug, PartialEq, Eq)]
pub enum CliEvent {
    /// The command begins.
    Started,
    /// The stored projects, in listing order.
    ProjectsLoaded(Vec<Project>),
    /// The project read from the file named by `add`.
    ProjectImported(Project),
    /// The project asked to be saved was saved.
    ProjectSaved,
    /// The project asked to be deleted was deleted (`true`) or had no file (`false`).
    ProjectDeleted(bool),
    /// The project asked to be launched was launched.
    Launched,
}

/// What a session asks of the outside next.
#[derive(Debug, PartialEq, Eq)]
pub enum CliRequest {
    /// Load every stored project, in listing order.
    LoadProjects,
    /// Read and parse the project in this JSON file.
    ImportFile(String),
    /// Store this project.
    SaveProject(Project),
    /// Delete the stored project with this name.
    DeleteProject(String),
    /// Launch this project.
    LaunchProject(Project),
    /// The command is over, with this result.
    Finish(Result<(), String>),
}

/// Lines to print, then a request.
#[derive(Debug, PartialEq, Eq)]
pub struct CliStep {
    pub print: Vec<String>,
    pub request: CliRequest,
}

/// A running command.
pub struct CliSession {
    command: Commands,
    /// The name of the project that `add` is saving.
    saved_name: Option<String>,
}

// ───────────────────────────── what is printed ─────────────────────────────

/// "pane" or "panes".
pub open spec fn pane_word(n: nat) -> Seq<char> {
    if n == 1 {
        " pane"@
    } else {
        " panes"@
    }
}

/// One line of the project list: icon, name padded to 20, pane count, description.
pub open spec fn list_line(p: Project) -> Seq<char> {
    "  "@ + p.icon@ + " "@ + pad_right(p.name@, 20) + " — "@ + decimal(p.panes@.len())
        + pane_word(p.panes@.len()) + " — "@ + p.description@
}

/// What `list` prints for these projects.
pub open spec fn list_lines(projects: Seq<Project>) -> Seq<Seq<char>> {
    if projects.len() == 0 {
        seq!["Sin proyectos. Usa 'shelldon add <archivo.json>' para agregar uno."@]
    } else {
        seq!["📋 Proyectos configurados:\n"@] + Seq::new(
            projects.len(),
            |i: int| list_line(projects[i]),
        ) + seq!["\nUsa 'shelldon up <nombre>' para lanzar."@]
    }
}

pub open spec fn pane_line(pane: Pane) -> Seq<char> {
    "   • "@ + pane.name@ + " → "@ + pane.path@ + " → `"@ + pane.command@ + "`"@
}

/// What `show` prints for a project: icon and name, the description if any,
/// the terminal, one line per pane, and the extras if any.
pub open spec fn show_lines(p: Project) -> Seq<Seq<char>> {
    seq![p.icon@ + " "@ + p.name@] + (if p.description@.len() > 0 {
        seq!["   Descripción: "@ + p.description@]
    } else {
        Seq::empty()
    }) + seq!["   Terminal: "@ + p.terminal@] + Seq::new(
        p.panes@.len(),
        |i: int| pane_line(p.panes@[i]),
    ) + (if p.extras@.len() > 0 {
        seq!["   Extras: "@ + join(strs(p.extras@), ", "@)]
    } else {
        Seq::empty()
    })
}

/// What `list` prints: for no projects, one line saying there are none and
/// how to add one; otherwise a heading, one line per project in the order
/// given, and a closing hint. A project's line holds its icon, its name
/// padded with spaces to 20 characters, its number of panes ("1 pane",
/// "2 panes", ...) and its description.
pub proof fn list_prints_every_project(projects: Seq<Project>)
    ensures
        projects.len() == 0 ==> list_lines(projects) == seq![
            "Sin proyectos. Usa 'shelldon add <archivo.json>' para agregar uno."@,
        ],
        projects.len() > 0 ==> list_lines(projects).len() == projects.len() + 2 && list_lines(projects)[0]
            == "📋 Proyectos configurados:\n"@ && list_lines(projects).last()
            == "\nUsa 'shelldon up <nombre>' para lanzar."@,
        projects.len() > 0 ==> forall|i: int|
            0 <= i < projects.len() ==> #[trigger] list_lines(projects)[i + 1] == "  "@ + projects[i].icon@
                + " "@ + pad_right(projects[i].name@, 20) + " — "@ + decimal(projects[i].panes@.len())
                + (if projects[i].panes@.len() == 1 {
                " pane"@
            } else {
                " panes"@
            }) + " — "@ + projects[i].description@,
{
}

/// A name padded to a width keeps the name in front and fills with spaces
/// up to the width; a name already that long is left as it is.
pub proof fn padding_fills_with_spaces(s: Seq<char>, width: nat)
    ensures
        pad_right(s, width).len() == (if s.len() < width { width } else { s.len() }),
        pad_right(s, width).subrange(0, s.len() as int) == s,
        forall|i: int| s.len() <= i < pad_right(s, width).len() ==> #[trigger] pad_right(s, width)[i] == ' ',
{
    assert(pad_right(s, width).subrange(0, s.len() as int) =~= s);
}

/// The single lines the commands print: launching and launched for `up`,
/// added for `add`, removed or not found for `remove`, and the errors for a
/// name no project answers to.
pub proof fn command_messages(name: Seq<char>)
    ensures
        launching_line(name) == "🚀 Lanzando \""@ + name + "\"..."@,
        launched_line() == "✅ Entorno lanzado."@,
        added_line(name) == "✅ Proyecto '"@ + name + "' agregado."@,
        removed_line(name, true) == "🗑️  Proyecto '"@ + name + "' eliminado."@,
        removed_line(name, false) == "⚠️  Proyecto '"@ + name + "' no encontrado."@,
        not_found_message(name) == "Proyecto '"@ + name + "' no encontrado."@,
        up_not_found_message(name) == "Proyecto '"@ + name
            + "' no encontrado. Usa 'shelldon list' para ver los disponibles."@,
{
}

/// What `show` prints for a project, line by line: its icon and name; its
/// description, only when it has one; its terminal; one line per pane, in
/// order, with the pane's name, path and command; and, exactly when the
/// project has extras, a last line with the extras joined by ", ".
pub proof fn show_prints_every_part(p: Project)
    ensures
        ({
            let lines = show_lines(p);
            let d: int = if p.description@.len() > 0 { 1 } else { 0 };
            let e: int = if p.extras@.len() > 0 { 1 } else { 0 };
            &&& lines.len() == 2 + d + p.panes@.len() + e
            &&& lines[0] == p.icon@ + " "@ + p.name@
            &&& p.description@.len() > 0 ==> lines[1] == "   Descripción: "@ + p.description@
            &&& lines[1 + d] == "   Terminal: "@ + p.terminal@
            &&& forall|i: int|
                0 <= i < p.panes@.len() ==> #[trigger] lines[2 + d + i] == "   • "@ + p.panes@[i].name@
                    + " → "@ + p.panes@[i].path@ + " → `"@ + p.panes@[i].command@ + "`"@
            &&& p.extras@.len() > 0 ==> lines.last() == "   Extras: "@ + join(strs(p.extras@), ", "@)
        }),
{
    let lines = show_lines(p);
    let d: int = if p.description@.len() > 0 { 1 } else { 0 };
    let head = seq![p.icon@ + " "@ + p.name@] + (if p.description@.len() > 0 {
        seq!["   Descripción: "@ + p.description@]
    } else {
        Seq::empty()
    }) + seq!["   Terminal: "@ + p.terminal@];
    let panes = Seq::new(p.panes@.len(), |i: int| pane_line(p.panes@[i]));
    assert(head.len() == 2 + d);
    assert forall|i: int| 0 <= i < p.panes@.len() implies #[trigger] lines[2 + d + i] == "   • "@
        + p.panes@[i].name@ + " → "@ + p.panes@[i].path@ + " → `"@ + p.panes@[i].command@ + "`"@ by {
        assert(lines[2 + d + i] == (head + panes)[2 + d + i]);
    }
}

/// The error of `show` (and of launching by name) for a name that no project answers to.
pub open spec fn not_found_message(name: Seq<char>) -> Seq<char> {
    "Proyecto '"@ + name + "' no encontrado."@
}

/// The error of `up` for a name that no project answers to.
pub open spec fn up_not_found_message(name: Seq<char>) -> Seq<char> {
    "Proyecto '"@ + name + "' no encontrado. Usa 'shelldon list' para ver los disponibles."@
}

pub open spec fn launching_line(name: Seq<char>) -> Seq<char> {
    "🚀 Lanzando \""@ + name + "\"..."@
}

pub open spec fn launched_line() -> Seq<char> {
    "✅ Entorno lanzado."@
}

pub open spec fn added_line(name: Seq<char>) -> Seq<char> {
    "✅ Proyecto '"@ + name + "' agregado."@
}

pub open spec fn removed_line(name: Seq<char>, deleted: bool) -> Seq<char> {
    if deleted {
        "🗑️  Proyecto '"@ + name + "' eliminado."@
    } else {
        "⚠️  Proyecto '"@ + name + "' no encontrado."@
    }
}

fn list_line_exec(p: &Project) -> (r: String)
    ensures
        r@ == list_line(*p),
{
    let n = p.panes.len();
    let padded = pad_string(p.name.as_str(), 20);
    let count = decimal_string(n);
    let mut r = concat5("  ", p.icon.as_str(), " ", padded.as_str(), " — ");
    r.append(count.as_str());
    r.append(if n == 1 { " pane" } else { " panes" });
    r.append(" — ");
    r.append(p.description.as_str());
    r
}

/// The lines `list` prints for these projects.
pub fn list_output(projects: &Vec<Project>) -> (r: Vec<String>)
    ensures
        strs(r@) == list_lines(projects@),
{
    let mut r: Vec<String> = Vec::new();
    let n = projects.len();
    if n == 0 {
        push_arg(&mut r, "Sin proyectos. Usa 'shelldon add <archivo.json>' para agregar uno.");
        assert(strs(r@) =~= list_lines(projects@));
        return r;
    }
    push_arg(&mut r, "📋 Proyectos configurados:\n");
    let ghost lines = Seq::new(projects@.len(), |i: int| list_line(projects@[i]));
    let mut i: usize = 0;
    while i < n
        invariant
            n == projects@.len(),
            i <= n,
            lines == Seq::new(projects@.len(), |i: int| list_line(projects@[i])),
            strs(r@) =~= seq!["📋 Proyectos configurados:\n"@] + lines.take(i as int),
        decreases n - i,
    {
        let line = list_line_exec(&projects[i]);
        push_arg(&mut r, line.as_str());
        assert(lines.take(i + 1) =~= lines.take(i as int).push(lines[i as int]));
        i = i + 1;
    }
    assert(lines.take(n as int) =~= lines);
    push_arg(&mut r, "\nUsa 'shelldon up <nombre>' para lanzar.");
    assert(strs(r@) =~= list_lines(projects@));
    r
}

/// The lines `show` prints for a project.
pub fn show_output(p: &Project) -> (r: Vec<String>)
    ensures
        strs(r@) == show_lines(*p),
{
    let mut r: Vec<String> = Vec::new();
    let title = concat3(p.icon.as_str(), " ", p.name.as_str());
    push_arg(&mut r, title.as_str());
    if p.description.as_str().unicode_len() > 0 {
        let line = concat2("   Descripción: ", p.description.as_str());
        push_arg(&mut r, line.as_str());
    }
    let line = concat2("   Terminal: ", p.terminal.as_str());
    push_arg(&mut r, line.as_str());
    let ghost head = strs(r@);
    let ghost lines = Seq::new(p.panes@.len(), |i: int| pane_line(p.panes@[i]));
    let n = p.panes.len();
    let mut i: usize = 0;
    while i < n
        invariant
            n == p.panes@.len(),
            i <= n,
            lines == Seq::new(p.panes@.len(), |i: int| pane_line(p.panes@[i])),
            strs(r@) =~= head + lines.take(i as int),
        decreases n - i,
    {
        let pane = &p.panes[i];
        let mut line = concat5("   • ", pane.name.as_str(), " → ", pane.path.as_str(), " → `");
        line.append(pane.command.as_str());
        line.append("`");
        push_arg(&mut r, line.as_str());
        assert(lines.take(i + 1) =~= lines.take(i as int).push(lines[i as int]));
        i = i + 1;
    }
    assert(lines.take(n as int) =~= lines);
    if p.extras.len() > 0 {
        let joined = join_strings(&p.extras, ", ");
        let line = concat2("   Extras: ", joined.as_str());
        push_arg(&mut r, line.as_str());
    }
    assert(strs(r@) =~= show_lines(*p));
    r
}

/// The error message for a name that no project answers to.
pub fn project_not_found(name: &str) -> (r: String)
    ensures
        r@ == not_found_message(name@),
{
    concat3("Proyecto '", name, "' no encontrado.")
}

// ─────────────────────────────── the session ───────────────────────────────

/// Whether `step` answered `event` correctly for a session running
/// `command`: `saved` is the name `add` remembers before the step and
/// `saved_after` after it; `print` and `request` are the step.
pub open spec fn step_spec(
    command: Commands,
    saved: Option<Seq<char>>,
    event: CliEvent,
    saved_after: Option<Seq<char>>,
    print: Seq<Seq<char>>,
    request: CliRequest,
) -> bool {
    match (command, event) {
        (Commands::Up { name }, CliEvent::Started) => print.len() == 0 && request
            == CliRequest::LoadProjects && saved_after == saved,
        (Commands::Up { name }, CliEvent::ProjectsLoaded(ps)) => saved_after == saved && (
        if exists|i: int| 0 <= i < ps@.len() && answers_to(#[trigger] ps@[i], name@) {
            exists|i: int|
                0 <= i < ps@.len() && answers_to(ps@[i], name@) && (forall|j: int|
                    0 <= j < i ==> !answers_to(#[trigger] ps@[j], name@)) && print == seq![
                    launching_line(ps@[i].name@),
                ] && request == CliRequest::LaunchProject(ps@[i])
        } else {
            print.len() == 0 && (request matches CliRequest::Finish(Err(m)) && m@
                == up_not_found_message(name@))
        }),
        (Commands::Up { name }, CliEvent::Launched) => saved_after == saved && print == seq![
            launched_line(),
        ] && request == CliRequest::Finish(Ok(())),
        (Commands::List, CliEvent::Started) => print.len() == 0 && request
            == CliRequest::LoadProjects && saved_after == saved,
        (Commands::List, CliEvent::ProjectsLoaded(ps)) => saved_after == saved && print
            == list_lines(ps@) && request == CliRequest::Finish(Ok(())),
        (Commands::Add { file }, CliEvent::Started) => print.len() == 0 && saved_after == saved
            && (request matches CliRequest::ImportFile(f) && f@ == file@),
        (Commands::Add { file }, CliEvent::ProjectImported(p)) => print.len() == 0
            && saved_after == Some(p.name@) && request == CliRequest::SaveProject(p),
        (Commands::Add { file }, CliEvent::ProjectSaved) => saved_after == saved && request
            == CliRequest::Finish(Ok(())) && print == (match saved {
            Some(n) => seq![added_line(n)],
            None => Seq::empty(),
        }),
        (Commands::Remove { name }, CliEvent::Started) => print.len() == 0 && saved_after == saved
            && (request matches CliRequest::DeleteProject(n) && n@ == name@),
        (Commands::Remove { name }, CliEvent::ProjectDeleted(deleted)) => saved_after == saved
            && print == seq![removed_line(name@, deleted)] && request == CliRequest::Finish(Ok(())),
        (Commands::Show { name }, CliEvent::Started) => print.len() == 0 && request
            == CliRequest::LoadProjects && saved_after == saved,
        (Commands::Show { name }, CliEvent::ProjectsLoaded(ps)) => saved_after == saved && (
        if exists|i: int| 0 <= i < ps@.len() && answers_to(#[trigger] ps@[i], name@) {
            exists|i: int|
                0 <= i < ps@.len() && answers_to(ps@[i], name@) && (forall|j: int|
                    0 <= j < i ==> !answers_to(#[trigger] ps@[j], name@)) && print == show_lines(
                    ps@[i],
                ) && request == CliRequest::Finish(Ok(()))
        } else {
            print.len() == 0 && (request matches CliRequest::Finish(Err(m)) && m@
                == not_found_message(name@))
        }),
        // an event the command does not wait for ends it without output
        _ => print.len() == 0 && request == CliRequest::Finish(Ok(())) && saved_after == saved,
    }
}

/// The conversation of each command. Every command but `add` and `remove`
/// starts by asking for the stored projects; `add` asks to read its file and
/// `remove` to delete its project. `up` launches the first project that
/// answers to its name and announces it, then reports the environment
/// launched; `list` prints the list; `show` prints the first matching
/// project; `up` and `show` fail with their not-found message when no
/// project answers. `add` saves the project it read and then confirms it by
/// name; `remove` reports whether the project was deleted.
pub proof fn cli_conversation(
    command: Commands,
    saved: Option<Seq<char>>,
    event: CliEvent,
    saved_after: Option<Seq<char>>,
    print: Seq<Seq<char>>,
    request: CliRequest,
)
    requires
        step_spec(command, saved, event, saved_after, print, request),
    ensures
        event == CliEvent::Started ==> print.len() == 0 && match command {
            Commands::Add { file } => (request matches CliRequest::ImportFile(f) && f@ == file@),
            Commands::Remove { name } => (request matches CliRequest::DeleteProject(n) && n@ == name@),
            _ => request == CliRequest::LoadProjects,
        },
        match (command, event) {
            (Commands::Up { name }, CliEvent::Launched) => print == seq!["✅ Entorno lanzado."@] && request
                == CliRequest::Finish(Ok(())),
            (Commands::Up { name }, CliEvent::ProjectsLoaded(ps)) => match request {
                CliRequest::LaunchProject(p) => print == seq!["🚀 Lanzando \""@ + p.name@ + "\"..."@]
                    && answers_to(p, name@),
                CliRequest::Finish(Err(m)) => print.len() == 0 && m@ == "Proyecto '"@ + name@
                    + "' no encontrado. Usa 'shelldon list' para ver los disponibles."@,
                _ => false,
            },
            (Commands::Show { name }, CliEvent::ProjectsLoaded(ps)) => match request {
                CliRequest::Finish(Ok(())) => exists|i: int|
                    0 <= i < ps@.len() && answers_to(#[trigger] ps@[i], name@) && print == show_lines(ps@[i]),
                CliRequest::Finish(Err(m)) => print.len() == 0 && m@ == "Proyecto '"@ + name@ + "' no encontrado."@,
                _ => false,
            },
            (Commands::List, CliEvent::ProjectsLoaded(ps)) => print == list_lines(ps@) && request
                == CliRequest::Finish(Ok(())),
            (Commands::Add { file }, CliEvent::ProjectImported(p)) => print.len() == 0 && request
                == CliRequest::SaveProject(p) && saved_after == Some(p.name@),
            (Commands::Add { file }, CliEvent::ProjectSaved) => request == CliRequest::Finish(Ok(())) && match saved {
                Some(n) => print == seq!["✅ Proyecto '"@ + n + "' agregado."@],
                None => print.len() == 0,
            },
            (Commands::Remove { name }, CliEvent::ProjectDeleted(d)) => request == CliRequest::Finish(Ok(()))
                && print == seq![
                if d {
                    "🗑️  Proyecto '"@ + name@ + "' eliminado."@
                } else {
                    "⚠️  Proyecto '"@ + name@ + "' no encontrado."@
                },
            ],
            _ => true,
        },
{
}

pub open spec fn opt_name(o: Option<String>) -> Option<Seq<char>> {
    match o {
        Some(s) => Some(s@),
        None => None,
    }
}

impl CliSession {
    pub closed spec fn command(&self) -> Commands {
        self.command
    }

    pub closed spec fn saved(&self) -> Option<Seq<char>> {
        opt_name(self.saved_name)
    }

    /// Answers `event`: the lines to print and the next request.
    pub fn step(&mut self, event: CliEvent) -> (r: CliStep)
        ensures
            final(self).command() == old(self).command(),
            step_spec(
                old(self).command(),
                old(self).saved(),
                event,
                final(self).saved(),
                strs(r.print@),
                r.request,
            ),
    {
        let mut print: Vec<String> = Vec::new();
        assert(strs(print@) =~= Seq::<Seq<char>>::empty());
        let request = match (&self.command, event) {
            (Commands::Up { name }, CliEvent::Started) => CliRequest::LoadProjects,
            (Commands::Up { name }, CliEvent::ProjectsLoaded(ps)) => {
                let ghost all = ps@;
                match load_project(ps, name.as_str()) {
                    Some(p) => {
                        let line = concat3("🚀 Lanzando \"", p.name.as_str(), "\"...");
                        push_arg(&mut print, line.as_str());
                        assert(strs(print@) =~= seq![launching_line(p.name@)]);
                        CliRequest::LaunchProject(p)
                    },
                    None => CliRequest::Finish(
                        Err(
                            concat3(
                                "Proyecto '",
                                name.as_str(),
                                "' no encontrado. Usa 'shelldon list' para ver los disponibles.",
                            ),
                        ),
                    ),
                }
            },
            (Commands::Up { name }, CliEvent::Launched) => {
                push_arg(&mut print, "✅ Entorno lanzado.");
                assert(strs(print@) =~= seq![launched_line()]);
                CliRequest::Finish(Ok(()))
            },
            (Commands::List, CliEvent::Started) => CliRequest::LoadProjects,
            (Commands::List, CliEvent::ProjectsLoaded(ps)) => {
                print = list_output(&ps);
                CliRequest::Finish(Ok(()))
            },
            (Commands::Add { file }, CliEvent::Started) => CliRequest::ImportFile(file.clone()),
            (Commands::Add { file }, CliEvent::ProjectImported(p)) => {
                self.saved_name = Some(p.name.clone());
                CliRequest::SaveProject(p)
            },
            (Commands::Add { file }, CliEvent::ProjectSaved) => {
                match &self.saved_name {
                    Some(n) => {
                        let line = concat3("✅ Proyecto '", n.as_str(), "' agregado.");
                        push_arg(&mut print, line.as_str());
                        assert(strs(print@) =~= seq![added_line(n@)]);
                    },
                    None => {},
                }
                CliRequest::Finish(Ok(()))
            },
            (Commands::Remove { name }, CliEvent::Started) => CliRequest::DeleteProject(
                name.clone(),
            ),
            (Commands::Remove { name }, CliEvent::ProjectDeleted(deleted)) => {
                let line = if deleted {
                    concat3("🗑️  Proyecto '", name.as_str(), "' eliminado.")
                } else {
                    concat3("⚠️  Proyecto '", name.as_str(), "' no encontrado.")
                };
                push_arg(&mut print, line.as_str());
                assert(strs(print@) =~= seq![removed_line(name@, deleted)]);
                CliRequest::Finish(Ok(()))
            },
            (Commands::Show { name }, CliEvent::Started) => CliRequest::LoadProjects,
            (Commands::Show { name }, CliEvent::ProjectsLoaded(ps)) => {
                match load_project(ps, name.as_str()) {
                    Some(p) => {
                        print = show_output(&p);
                        CliRequest::Finish(Ok(()))
                    },
                    None => CliRequest::Finish(Err(project_not_found(name.as_str()))),
                }
            },
            _ => CliRequest::Finish(Ok(())),
        };
        CliStep { print, request }
    }
}

/// Begins running the command of `args`; the first event to give it is `Started`.
pub fn run(args: CliArgs) -> (r: CliSession)
    ensures
        r.command() == args.command,
        r.saved() is None,
{
    CliSession { command: args.command, saved_name: None }
}

} // verus!
