//! Project configurations: their shape, their defaults, where they are stored
//! and how a stored set of them is ordered and searched.
use vstd::prelude::*;
use crate::terminal::utils::session_name;
use crate::text::{
    all_ascii, ascii_alnum, ascii_lower, ascii_lower_seq, concat2, is_alphanumeric, is_ascii_char,
    letter_or_digit, lowered, push_char, str_eq, to_lowercase,
};

verus! {

/// One pane of a workspace: a title, a working directory and a command.
#[derive(Debug, PartialEq, Eq)]
pub struct Pane {
    pub name: String,
    pub path: String,
    pub command: String,
}

/// A workspace: the terminal to use, its panes and helper programs.
#[derive(Debug, PartialEq, Eq)]
pub struct Project {
    pub name: String,
    pub description: String,
    pub terminal: String,
    pub color: String,
    pub icon: String,
    pub layout: String,
    /// Windows Terminal profile (for example "PowerShell", "Ubuntu", "Git Bash").
    pub terminal_profile: Option<String>,
    /// Shell to use (for example "pwsh.exe", "bash", "zsh"); `None` means the system's.
    pub shell: Option<String>,
    /// Whether the user's profile / dotfiles are loaded.
    pub load_profile: bool,
    pub panes: Vec<Pane>,
    pub extras: Vec<String>,
}

/// The operating system the launcher runs on.
#[derive(Debug, Clone, Copy, PartialEq, Eq)]
pub enum Platform {
    Windows,
    MacOs,
    Linux,
    Other,
}

// ──────────────────────────────── defaults ─────────────────────────────────

pub open spec fn default_terminal_for(platform: Platform) -> Seq<char> {
    match platform {
        Platform::Windows => "windows-terminal"@,
        Platform::MacOs => "iterm2"@,
        _ => "tmux"@,
    }
}

/// The terminal a project uses when its configuration names none.
pub fn default_terminal(platform: Platform) -> (r: String)
    ensures
        r@ == default_terminal_for(platform),
{
    match platform {
        Platform::Windows => String::from_str("windows-terminal"),
        Platform::MacOs => String::from_str("iterm2"),
        _ => String::from_str("tmux"),
    }
}

/// The icon a project shows when its configuration names none.
pub fn default_icon() -> (r: String)
    ensures
        r@ == "🚀"@,
{
    String::from_str("🚀")
}

/// The layout a project uses when its configuration names none.
pub fn default_layout() -> (r: String)
    ensures
        r@ == "cols-2"@,
{
    String::from_str("cols-2")
}

/// Whether a project loads the user's profile when its configuration does not say.
pub fn default_true() -> (r: bool)
    ensures
        r,
{
    true
}

// ───────────────────────────── file names ──────────────────────────────────

/// A character of a project name as it appears in the project's file name.
pub open spec fn file_char(c: char) -> char {
    if letter_or_digit(c) || c == '-' || c == '_' {
        c
    } else {
        '_'
    }
}

/// The file stem under which a project named `name` is stored.
pub open spec fn sanitized(name: Seq<char>) -> Seq<char> {
    lowered(name.map_values(|c: char| file_char(c)))
}

/// The file name under which a project named `name` is stored.
pub open spec fn project_file(name: Seq<char>) -> Seq<char> {
    sanitized(name) + ".json"@
}

/// The position of the last '.' in `s`.
pub open spec fn last_dot(s: Seq<char>) -> Option<int>
    decreases s.len(),
{
    if s.len() == 0 {
        None
    } else if s.last() == '.' {
        Some(s.len() - 1)
    } else {
        last_dot(s.drop_last())
    }
}

/// The extension of a file name, as `Path::extension` defines it: the part
/// after the last '.', unless there is no '.' or the only one leads the name.
pub open spec fn extension(file_name: Seq<char>) -> Option<Seq<char>> {
    match last_dot(file_name) {
        Some(k) => if k > 0 {
            Some(file_name.skip(k + 1))
        } else {
            None
        },
        None => None,
    }
}

/// A directory entry that holds a project: its extension is "json".
pub open spec fn is_project_file_name(file_name: Seq<char>) -> bool {
    extension(file_name) == Some("json"@)
}

/// The file stem for a project name: letters, digits, '-' and '_' are kept,
/// every other character becomes '_', and the result is lower-cased.
pub fn sanitize(name: &str) -> (r: String)
    ensures
        r@ == sanitized(name@),
{
    let n = name.unicode_len();
    let mut kept = String::new();
    let mut i: usize = 0;
    while i < n
        invariant
            n == name@.len(),
            i <= n,
            kept@ == name@.take(i as int).map_values(|c: char| file_char(c)),
        decreases n - i,
    {
        let c = name.get_char(i);
        let d = if is_alphanumeric(c) || c == '-' || c == '_' {
            c
        } else {
            '_'
        };
        push_char(&mut kept, d);
        assert(name@.take(i + 1).map_values(|c: char| file_char(c)) =~= name@.take(
            i as int,
        ).map_values(|c: char| file_char(c)).push(d));
        i = i + 1;
    }
    assert(name@.take(n as int) =~= name@);
    to_lowercase(kept.as_str())
}

/// A project's file stem is its tmux session name lower-cased: before
/// lower-casing, both keep letters, digits and '-' and write '_' for every
/// other character, one character for each character of the name.
pub proof fn file_stem_is_lowercased_session_name(name: Seq<char>)
    ensures
        sanitized(name) == lowered(session_name(name)),
        name.map_values(|c: char| file_char(c)).len() == name.len(),
{
    assert(name.map_values(|c: char| file_char(c)) =~= session_name(name));
}

/// A character that may stand in the file stem of an ASCII name: a small
/// letter, a digit, '-' or '_'.
pub open spec fn stem_char(c: char) -> bool {
    let k = c as int;
    (97 <= k <= 122) || (48 <= k <= 57) || c == '-' || c == '_'
}

/// How one ASCII character of a name appears in the file stem.
proof fn lemma_ascii_stem_char(c: char)
    requires
        is_ascii_char(c),
    ensures
        is_ascii_char(file_char(c)),
        stem_char(ascii_lower(file_char(c))),
        is_ascii_char(ascii_lower(file_char(c))),
        file_char(ascii_lower(file_char(c))) == ascii_lower(file_char(c)),
        ascii_lower(ascii_lower(file_char(c))) == ascii_lower(file_char(c)),
        ascii_lower(file_char(ascii_lower(c))) == ascii_lower(file_char(c)),
{
}

/// The file stem of an ASCII name, character by character.
proof fn lemma_ascii_stem(name: Seq<char>)
    requires
        all_ascii(name),
    ensures
        sanitized(name) == name.map_values(|c: char| ascii_lower(file_char(c))),
{
    let kept = name.map_values(|c: char| file_char(c));
    assert forall|i: int| 0 <= i < kept.len() implies is_ascii_char(#[trigger] kept[i]) by {
        lemma_ascii_stem_char(name[i]);
    }
    assert(ascii_lower_seq(kept) =~= name.map_values(|c: char| ascii_lower(file_char(c))));
}

/// For a name written in ASCII, the file stem has one character for each
/// character of the name, and each is a small letter, a digit, '-' or '_'.
pub proof fn ascii_file_stem_shape(name: Seq<char>)
    requires
        all_ascii(name),
    ensures
        sanitized(name).len() == name.len(),
        forall|i: int| 0 <= i < name.len() ==> stem_char(#[trigger] sanitized(name)[i]),
        all_ascii(sanitized(name)),
{
    lemma_ascii_stem(name);
    assert forall|i: int| 0 <= i < name.len() implies stem_char(#[trigger] sanitized(name)[i])
        && is_ascii_char(sanitized(name)[i]) by {
        lemma_ascii_stem_char(name[i]);
    }
}

/// For an ASCII name, each character of the file stem comes from the
/// character of the name at the same place: a letter or digit, '-' or '_'
/// stays, a capital letter made small, and any other character becomes '_'.
pub proof fn ascii_file_stem_characters(name: Seq<char>)
    requires
        all_ascii(name),
    ensures
        forall|i: int|
            0 <= i < name.len() ==> #[trigger] sanitized(name)[i] == (if ascii_alnum(name[i]) || name[i] == '-'
                || name[i] == '_' {
                ascii_lower(name[i])
            } else {
                '_'
            }),
{
    lemma_ascii_stem(name);
}

/// Sanitizing the file stem of an ASCII name again gives the same stem.
pub proof fn file_stem_is_stable(name: Seq<char>)
    requires
        all_ascii(name),
    ensures
        sanitized(sanitized(name)) == sanitized(name),
{
    let x = sanitized(name);
    ascii_file_stem_shape(name);
    lemma_ascii_stem(name);
    lemma_ascii_stem(x);
    assert forall|i: int| 0 <= i < x.len() implies ascii_lower(file_char(#[trigger] x[i])) == x[i] by {
        lemma_ascii_stem_char(name[i]);
    }
    assert(x.map_values(|c: char| ascii_lower(file_char(c))) =~= x);
}

/// ASCII names that differ only in the case of their letters are stored
/// under one file stem.
pub proof fn file_stem_ignores_case(a: Seq<char>, b: Seq<char>)
    requires
        all_ascii(a),
        all_ascii(b),
        ascii_lower_seq(a) == ascii_lower_seq(b),
    ensures
        sanitized(a) == sanitized(b),
{
    lemma_ascii_stem(a);
    lemma_ascii_stem(b);
    assert(a.len() == ascii_lower_seq(a).len());
    assert(b.len() == ascii_lower_seq(b).len());
    assert forall|i: int| 0 <= i < a.len() implies ascii_lower(file_char(#[trigger] a[i]))
        == ascii_lower(file_char(b[i])) by {
        lemma_ascii_stem_char(a[i]);
        lemma_ascii_stem_char(b[i]);
        assert(ascii_lower_seq(a)[i] == ascii_lower(a[i]));
        assert(ascii_lower_seq(b)[i] == ascii_lower(b[i]));
    }
    assert(a.map_values(|c: char| ascii_lower(file_char(c))) =~= b.map_values(
        |c: char| ascii_lower(file_char(c)),
    ));
}

/// The name of the file that holds the project named `name`.
pub fn project_file_name(name: &str) -> (r: String)
    ensures
        r@ == project_file(name@),
{
    let stem = sanitize(name);
    concat2(stem.as_str(), ".json")
}

/// Whether a directory entry with this file name holds a project.
pub fn is_project_file(file_name: &str) -> (r: bool)
    ensures
        r == is_project_file_name(file_name@),
{
    let n = file_name.unicode_len();
    let mut j: usize = n;
    assert(file_name@.take(n as int) =~= file_name@);
    while j > 0 && file_name.get_char(j - 1) != '.'
        invariant
            n == file_name@.len(),
            j <= n,
            last_dot(file_name@) == last_dot(file_name@.take(j as int)),
        decreases j,
    {
        assert(file_name@.take(j as int).drop_last() =~= file_name@.take(j - 1));
        j = j - 1;
    }
    if j <= 1 {
        return false;
    }
    let ext = file_name.substring_char(j, n);
    assert(ext@ =~= file_name@.skip(j as int));
    str_eq(ext, "json")
}

proof fn lemma_last_dot_of_dotless_suffix(x: Seq<char>, t: Seq<char>)
    requires
        forall|i: int| 0 <= i < t.len() ==> t[i] != '.',
    ensures
        last_dot(x + t) == last_dot(x),
    decreases t.len(),
{
    if t.len() > 0 {
        assert((x + t).drop_last() =~= x + t.drop_last());
        lemma_last_dot_of_dotless_suffix(x, t.drop_last());
    } else {
        assert(x + t =~= x);
    }
}

/// A directory entry holds a project exactly when its name ends in ".json"
/// with something before it: "erp.json" and "a.b.json" do, ".json",
/// "erp.JSON" and "erp.json.bak" do not.
pub proof fn project_files_end_in_json(file_name: Seq<char>)
    ensures
        is_project_file_name(file_name) <==> (file_name.len() > 5 && file_name.skip(file_name.len() - 5)
            == ".json"@),
{
    reveal_strlit(".json");
    reveal_strlit("json");
    let n = file_name.len() as int;
    if n > 5 && file_name.skip(n - 5) == ".json"@ {
        let x = file_name.take(n - 4);
        let t = "json"@;
        assert forall|j: int| 0 <= j < 4 implies file_name[n - 4 + j] == t[j] by {
            assert(file_name.skip(n - 5)[j + 1] == file_name[n - 4 + j]);
        }
        assert(file_name =~= x + t);
        assert(x.last() == file_name.skip(n - 5)[0]);
        lemma_last_dot_of_dotless_suffix(x, t);
        assert(last_dot(x) == Some(n - 5));
        assert(file_name.skip(n - 4) =~= t);
    }
    if is_project_file_name(file_name) {
        let k = last_dot(file_name)->Some_0;
        lemma_last_dot_is_last(file_name);
        assert(file_name.skip(k + 1) == "json"@);
        assert(n == k + 5);
        assert(file_name.skip(n - 5) =~= ".json"@) by {
            assert forall|j: int| 1 <= j < 5 implies file_name.skip(n - 5)[j] == ".json"@[j] by {
                assert(file_name.skip(k + 1)[j - 1] == file_name[k + j]);
            }
        }
    }
}

/// Where `last_dot` points there is a '.'.
proof fn lemma_last_dot_is_last(s: Seq<char>)
    ensures
        last_dot(s) matches Some(k) ==> 0 <= k < s.len() && s[k] == '.',
    decreases s.len(),
{
    if s.len() > 0 && s.last() != '.' {
        lemma_last_dot_is_last(s.drop_last());
    }
}

/// A project's file is taken back as a project file exactly when the
/// project's name leaves a nonempty file stem: what is saved under a name is
/// found again when the directory is read, except for a name whose stem is
/// empty, which is stored as the hidden file ".json".
pub proof fn saved_file_is_loadable(name: Seq<char>)
    ensures
        is_project_file_name(project_file(name)) <==> sanitized(name).len() > 0,
{
    let x = sanitized(name);
    let s = project_file(name);
    reveal_strlit(".json");
    reveal_strlit("json");
    let t = "json"@;
    assert(s =~= (x + seq!['.']) + t);
    lemma_last_dot_of_dotless_suffix(x + seq!['.'], t);
    assert((x + seq!['.']).last() == '.');
    assert(last_dot(x + seq!['.']) == Some(x.len() as int));
    if x.len() > 0 {
        assert(s.skip(x.len() as int + 1) =~= t);
    }
}

// ──────────────────────── ordering and searching ───────────────────────────

/// Lexicographic order of character sequences by code point. This is the
/// order of `String`'s `Ord`, which compares UTF-8 bytes: UTF-8 keeps the
/// order of code points.
pub open spec fn lex_le(a: Seq<char>, b: Seq<char>) -> bool
    decreases a.len(),
{
    if a.len() == 0 {
        true
    } else if b.len() == 0 {
        false
    } else if a[0] == b[0] {
        lex_le(a.drop_first(), b.drop_first())
    } else {
        (a[0] as int) < (b[0] as int)
    }
}

/// Names are ordered at their first difference: a name comes before every
/// name that starts with it; past a common beginning, the one whose next
/// character has the smaller code point comes first, and never the other
/// way round.
pub proof fn lex_order_at_first_difference(a: Seq<char>, b: Seq<char>, k: int)
    requires
        0 <= k <= a.len(),
        k <= b.len(),
        a.subrange(0, k) == b.subrange(0, k),
    ensures
        k == a.len() ==> lex_le(a, b),
        (k < a.len() && k < b.len() && (a[k] as int) < (b[k] as int)) ==> lex_le(a, b) && !lex_le(b, a),
        (k < a.len() && k == b.len()) ==> !lex_le(a, b) && lex_le(b, a),
    decreases k,
{
    if k > 0 {
        assert(a[0] == a.subrange(0, k)[0]);
        assert(b[0] == b.subrange(0, k)[0]);
        assert(a.drop_first().subrange(0, k - 1) =~= b.drop_first().subrange(0, k - 1)) by {
            assert forall|j: int| 0 <= j < k - 1 implies #[trigger] a.drop_first().subrange(0, k - 1)[j]
                == b.drop_first().subrange(0, k - 1)[j] by {
                assert(a.subrange(0, k)[j + 1] == b.subrange(0, k)[j + 1]);
                assert(a.subrange(0, k)[j + 1] == a[j + 1]);
                assert(b.subrange(0, k)[j + 1] == b[j + 1]);
                assert(a.drop_first()[j] == a[j + 1]);
                assert(b.drop_first()[j] == b[j + 1]);
            }
        }
        lex_order_at_first_difference(a.drop_first(), b.drop_first(), k - 1);
    }
}

/// With no terminal named, a project opens in Windows Terminal on Windows,
/// in iTerm2 on macOS and in tmux elsewhere.
pub proof fn default_terminal_per_platform(platform: Platform)
    ensures
        platform == Platform::Windows ==> default_terminal_for(platform) == "windows-terminal"@,
        platform == Platform::MacOs ==> default_terminal_for(platform) == "iterm2"@,
        platform != Platform::Windows && platform != Platform::MacOs ==> default_terminal_for(platform)
            == "tmux"@,
{
}

pub proof fn lemma_lex_reflexive(a: Seq<char>)
    ensures
        lex_le(a, a),
    decreases a.len(),
{
    if a.len() > 0 {
        lemma_lex_reflexive(a.drop_first());
    }
}

pub proof fn lemma_lex_total(a: Seq<char>, b: Seq<char>)
    ensures
        lex_le(a, b) || lex_le(b, a),
    decreases a.len(),
{
    if a.len() > 0 && b.len() > 0 && a[0] == b[0] {
        lemma_lex_total(a.drop_first(), b.drop_first());
    }
    if a.len() > 0 && b.len() > 0 && a[0] != b[0] {
        assert((a[0] as int) != (b[0] as int));
    }
}

pub proof fn lemma_lex_transitive(a: Seq<char>, b: Seq<char>, c: Seq<char>)
    requires
        lex_le(a, b),
        lex_le(b, c),
    ensures
        lex_le(a, c),
    decreases a.len(),
{
    if a.len() > 0 && b.len() > 0 && c.len() > 0 {
        if a[0] == b[0] && b[0] == c[0] {
            lemma_lex_transitive(a.drop_first(), b.drop_first(), c.drop_first());
        } else if a[0] != b[0] && b[0] != c[0] {
            assert((a[0] as int) < (c[0] as int));
            assert(a[0] != c[0]);
        } else if a[0] != b[0] {
            assert(a[0] != c[0]);
        } else {
            assert(a[0] != c[0]);
        }
    }
}

/// Whether `a` comes before or with `b` in `String`'s order.
fn lex_le_exec(a: &str, b: &str) -> (r: bool)
    ensures
        r == lex_le(a@, b@),
{
    let n = a.unicode_len();
    let m = b.unicode_len();
    let mut i: usize = 0;
    assert(a@.skip(0) =~= a@);
    assert(b@.skip(0) =~= b@);
    while i < n && i < m && a.get_char(i) == b.get_char(i)
        invariant
            n == a@.len(),
            m == b@.len(),
            i <= n,
            i <= m,
            lex_le(a@, b@) == lex_le(a@.skip(i as int), b@.skip(i as int)),
        decreases n - i,
    {
        assert(a@.skip(i as int).drop_first() =~= a@.skip(i + 1));
        assert(b@.skip(i as int).drop_first() =~= b@.skip(i + 1));
        i = i + 1;
    }
    if i == n {
        true
    } else if i == m {
        false
    } else {
        (a.get_char(i) as u32) < (b.get_char(i) as u32)
    }
}

/// The key by which projects are listed: the lower-cased name.
pub open spec fn sort_key(p: Project) -> Seq<char> {
    lowered(p.name@)
}

/// `output` is `input` reordered by `perm` (`output[k] == input[perm[k]]`),
/// ordered by lower-cased name, with projects of equal keys in input order.
pub open spec fn is_stable_sort(input: Seq<Project>, output: Seq<Project>, perm: Seq<int>) -> bool {
    &&& output.len() == input.len()
    &&& perm.len() == input.len()
    &&& forall|k: int| 0 <= k < perm.len() ==> 0 <= #[trigger] perm[k] < input.len()
    &&& forall|k: int, l: int| 0 <= k < l < perm.len() ==> perm[k] != perm[l]
    &&& forall|k: int| 0 <= k < output.len() ==> #[trigger] output[k] == input[perm[k]]
    &&& forall|k: int, l: int|
        0 <= k < l < output.len() ==> lex_le(sort_key(output[k]), sort_key(output[l]))
    &&& forall|k: int, l: int|
        0 <= k < l < output.len() && sort_key(output[k]) == sort_key(output[l]) ==> perm[k]
            < perm[l]
}

/// Orders loaded projects as the project list shows them: by lower-cased
/// name, projects with the same lower-cased name staying in load order.
pub fn sort_projects(projects: Vec<Project>) -> (r: Vec<Project>)
    ensures
        exists|perm: Seq<int>| is_stable_sort(projects@, r@, perm),
{
    let ghost input = projects@;
    let mut rest = projects;
    let mut out: Vec<Project> = Vec::new();
    let mut keys: Vec<String> = Vec::new();
    let ghost mut perm: Seq<int> = Seq::empty();
    let n = rest.len();
    let mut i: usize = 0;
    while i < n
        invariant
            n == input.len(),
            i <= n,
            rest@ == input.skip(i as int),
            out@.len() == i,
            keys@.len() == i,
            perm.len() == i,
            forall|k: int| 0 <= k < i ==> #[trigger] keys@[k]@ == sort_key(out@[k]),
            forall|k: int| 0 <= k < i ==> 0 <= #[trigger] perm[k] < i,
            forall|k: int, l: int| 0 <= k < l < i ==> perm[k] != perm[l],
            forall|k: int| 0 <= k < i ==> #[trigger] out@[k] == input[perm[k]],
            forall|k: int, l: int|
                0 <= k < l < i ==> lex_le(sort_key(out@[k]), sort_key(out@[l])),
            forall|k: int, l: int|
                0 <= k < l < i && sort_key(out@[k]) == sort_key(out@[l]) ==> perm[k] < perm[l],
        decreases n - i,
    {
        let p = rest.remove(0);
        assert(p == input[i as int]);
        assert(rest@ =~= input.skip(i + 1));
        let key = to_lowercase(p.name.as_str());
        // find the insertion point: after every project whose key is not greater
        let mut j: usize = i;
        while j > 0 && !lex_le_exec(keys[j - 1].as_str(), key.as_str())
            invariant
                j <= i,
                keys@.len() == i,
                forall|m: int| j <= m < i ==> !lex_le(#[trigger] keys@[m]@, key@),
            decreases j,
        {
            j = j - 1;
        }
        let ghost old_out = out@;
        let ghost old_keys = keys@;
        let ghost old_perm = perm;
        out.insert(j, p);
        keys.insert(j, key);
        proof {
            perm = old_perm.insert(j as int, i as int);
            assert forall|m: int| j < m <= i implies lex_le(
                key@,
                #[trigger] sort_key(out@[m]),
            ) && key@ != sort_key(out@[m]) by {
                assert(out@[m] == old_out[m - 1]);
                assert(!lex_le(old_keys[m - 1]@, key@));
                lemma_lex_total(old_keys[m - 1]@, key@);
                if key@ == old_keys[m - 1]@ {
                    lemma_lex_reflexive(key@);
                }
            }
            assert forall|m: int| 0 <= m < j implies lex_le(
                #[trigger] sort_key(out@[m]),
                key@,
            ) by {
                assert(out@[m] == old_out[m]);
                assert(lex_le(old_keys[j - 1]@, key@));
                if m < j - 1 {
                    lemma_lex_transitive(sort_key(old_out[m]), sort_key(old_out[j - 1]), key@);
                }
            }
            assert forall|k: int| 0 <= k <= i implies #[trigger] keys@[k]@ == sort_key(
                out@[k],
            ) by {
                if k < j {
                    assert(keys@[k] == old_keys[k]);
                } else if k > j {
                    assert(keys@[k] == old_keys[k - 1]);
                }
            }
            assert forall|k: int| 0 <= k <= i implies #[trigger] out@[k] == input[perm[k]] by {
                if k < j {
                    assert(out@[k] == old_out[k]);
                } else if k > j {
                    assert(out@[k] == old_out[k - 1]);
                }
            }
            assert forall|k: int, l: int|
                0 <= k < l <= i implies lex_le(sort_key(out@[k]), sort_key(out@[l])) by {
                if k < j && l < j {
                    assert(out@[k] == old_out[k] && out@[l] == old_out[l]);
                } else if k > j && l > j {
                    assert(out@[k] == old_out[k - 1] && out@[l] == old_out[l - 1]);
                } else if k < j && l > j {
                    assert(lex_le(sort_key(out@[k]), key@));
                    assert(lex_le(key@, sort_key(out@[l])));
                    lemma_lex_transitive(sort_key(out@[k]), key@, sort_key(out@[l]));
                } else if k == j {
                    assert(lex_le(key@, sort_key(out@[l])));
                } else {
                    assert(lex_le(sort_key(out@[k]), key@));
                }
            }
            assert forall|k: int, l: int|
                0 <= k < l <= i && sort_key(out@[k]) == sort_key(out@[l]) implies perm[k]
                < perm[l] by {
                if k < j && l < j {
                    assert(out@[k] == old_out[k] && out@[l] == old_out[l]);
                } else if k > j && l > j {
                    assert(out@[k] == old_out[k - 1] && out@[l] == old_out[l - 1]);
                } else if k == j {
                    assert(key@ != sort_key(out@[l]));
                } else if l == j {
                    assert(perm[k] == old_perm[k]);
                } else {
                    assert(out@[l] == old_out[l - 1]);
                    assert(!lex_le(old_keys[l - 1]@, key@));
                    assert(lex_le(sort_key(out@[k]), key@));
                }
            }
            assert forall|k: int| 0 <= k <= i implies 0 <= #[trigger] perm[k] < i + 1 by {}
            assert forall|k: int, l: int| 0 <= k < l <= i implies perm[k] != perm[l] by {
                if k != j && l != j {
                    let k0 = if k < j { k } else { k - 1 };
                    let l0 = if l < j { l } else { l - 1 };
                    assert(perm[k] == old_perm[k0]);
                    assert(perm[l] == old_perm[l0]);
                }
            }
        }
        i = i + 1;
    }
    assert(is_stable_sort(input, out@, perm));
    out
}

/// Whether the project `p` answers to `name`: names compare lower-cased.
pub open spec fn answers_to(p: Project, name: Seq<char>) -> bool {
    lowered(p.name@) == lowered(name)
}

/// The first project of `projects` (in the order given, which is the listing
/// order) whose lower-cased name is the lower-cased `name`, or `None`.
pub fn load_project(projects: Vec<Project>, name: &str) -> (r: Option<Project>)
    ensures
        r is None <==> forall|i: int| 0 <= i < projects@.len() ==> !answers_to(
            #[trigger] projects@[i],
            name@,
        ),
        r matches Some(p) ==> exists|i: int|
            0 <= i < projects@.len() && p == projects@[i] && answers_to(projects@[i], name@)
                && forall|j: int| 0 <= j < i ==> !answers_to(#[trigger] projects@[j], name@),
{
    let wanted = to_lowercase(name);
    let n = projects.len();
    let mut i: usize = 0;
    while i < n
        invariant
            n == projects@.len(),
            i <= n,
            wanted@ == lowered(name@),
            forall|j: int| 0 <= j < i ==> !answers_to(#[trigger] projects@[j], name@),
        decreases n - i,
    {
        let key = to_lowercase(projects[i].name.as_str());
        if str_eq(key.as_str(), wanted.as_str()) {
            let ghost all = projects@;
            let mut projects = projects;
            let p = projects.remove(i);
            assert(p == all[i as int]);
            return Some(p);
        }
        i = i + 1;
    }
    None
}

/// Between ASCII names, a project answers to a name exactly when the two
/// are equal up to the case of their letters.
pub proof fn ascii_names_match_ignoring_case(p: Project, name: Seq<char>)
    requires
        all_ascii(p.name@),
        all_ascii(name),
    ensures
        answers_to(p, name) <==> ascii_lower_seq(p.name@) == ascii_lower_seq(name),
{
}

/// A project is found by its own name in any list that holds it, and what is
/// found answers to that name.
pub proof fn project_found_by_own_name(projects: Seq<Project>, k: int)
    requires
        0 <= k < projects.len(),
    ensures
        exists|i: int| 0 <= i < projects.len() && answers_to(#[trigger] projects[i], projects[k].name@),
{
    assert(answers_to(projects[k], projects[k].name@));
}

} // verus!
