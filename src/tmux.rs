use vstd::prelude::*;
use crate::models::{
    Pane,
    PaneView,
    Session,
    SessionView,
    Window,
    WindowView,
    pane_views,
    session_views,
    window_views,
};
use crate::text::{non_empty_lines, record_lines, split_on, split_spec, views};

verus! {

/// Field `k` of a record, or `default` when the record has fewer fields.
pub open spec fn field_or(fs: Seq<Seq<char>>, k: int, default: Seq<char>) -> Seq<char> {
    if k < fs.len() {
        fs[k]
    } else {
        default
    }
}

/// A flag field is set only when it is present and reads `1`.
pub open spec fn flag_at(fs: Seq<Seq<char>>, k: int) -> bool {
    k < fs.len() && fs[k] == seq!['1']
}

/// The session that a listing line `id|name|window_count|created` describes.
pub open spec fn session_from_line(line: Seq<char>) -> SessionView {
    let fs = split_spec(line, '|');
    SessionView {
        id: field_or(fs, 0, Seq::empty()),
        name: field_or(fs, 1, Seq::empty()),
        count: field_or(fs, 2, seq!['0']),
        created: field_or(fs, 3, Seq::empty()),
    }
}

/// The window that a listing line `id|name|active|layout` describes.
pub open spec fn window_from_line(line: Seq<char>) -> WindowView {
    let fs = split_spec(line, '|');
    WindowView {
        id: field_or(fs, 0, Seq::empty()),
        name: field_or(fs, 1, Seq::empty()),
        active: flag_at(fs, 2),
        layout: field_or(fs, 3, Seq::empty()),
    }
}

/// The pane that a listing line
/// `id|width|height|current_path|current_command|active` describes.
pub open spec fn pane_from_line(line: Seq<char>) -> PaneView {
    let fs = split_spec(line, '|');
    PaneView {
        id: field_or(fs, 0, Seq::empty()),
        width: field_or(fs, 1, Seq::empty()),
        height: field_or(fs, 2, Seq::empty()),
        current_path: field_or(fs, 3, Seq::empty()),
        current_command: field_or(fs, 4, Seq::empty()),
        active: flag_at(fs, 5),
    }
}

/// The sessions of a listing: one for each non-empty line, in order.
pub open spec fn sessions_of(raw: Seq<char>) -> Seq<SessionView> {
    record_lines(raw).map_values(|l: Seq<char>| session_from_line(l))
}

pub open spec fn windows_of(raw: Seq<char>) -> Seq<WindowView> {
    record_lines(raw).map_values(|l: Seq<char>| window_from_line(l))
}

pub open spec fn panes_of(raw: Seq<char>) -> Seq<PaneView> {
    record_lines(raw).map_values(|l: Seq<char>| pane_from_line(l))
}

/// What a listing yields: its records, or none when the command failed.
pub open spec fn listed_sessions(output: Option<Seq<char>>) -> Seq<SessionView> {
    match output {
        Some(raw) => sessions_of(raw),
        None => Seq::empty(),
    }
}

pub open spec fn listed_windows(output: Option<Seq<char>>) -> Seq<WindowView> {
    match output {
        Some(raw) => windows_of(raw),
        None => Seq::empty(),
    }
}

pub open spec fn listed_panes(output: Option<Seq<char>>) -> Seq<PaneView> {
    match output {
        Some(raw) => panes_of(raw),
        None => Seq::empty(),
    }
}

/// The view of what a command printed, if it succeeded.
pub open spec fn output_view(output: Option<&str>) -> Option<Seq<char>> {
    match output {
        Some(s) => Some(s@),
        None => None,
    }
}

fn field(fs: &Vec<String>, k: usize) -> (r: String)
    ensures
        r@ == field_or(views(fs@), k as int, Seq::empty()),
{
    if k < fs.len() {
        fs[k].clone()
    } else {
        String::new()
    }
}

fn count_field(fs: &Vec<String>, k: usize) -> (r: String)
    ensures
        r@ == field_or(views(fs@), k as int, seq!['0']),
{
    if k < fs.len() {
        fs[k].clone()
    } else {
        let r = String::from_str("0");
        proof {
            reveal_strlit("0");
            assert(r@ =~= seq!['0']);
        }
        r
    }
}

fn flag(fs: &Vec<String>, k: usize) -> (r: bool)
    ensures
        r == flag_at(views(fs@), k as int),
{
    if k < fs.len() {
        let f = fs[k].as_str();
        let r = f.unicode_len() == 1 && f.get_char(0) == '1';
        proof {
            if r {
                assert(f@ =~= seq!['1']);
            }
        }
        r
    } else {
        false
    }
}

/// Decodes one session line; missing trailing fields take their defaults.
pub fn parse_session(line: &str) -> (r: Session)
    ensures
        r@ == session_from_line(line@),
{
    let fs = split_on(line, '|');
    Session {
        id: field(&fs, 0),
        name: field(&fs, 1),
        count: count_field(&fs, 2),
        created: field(&fs, 3),
    }
}

/// Decodes one window line; missing trailing fields take their defaults.
pub fn parse_window(line: &str) -> (r: Window)
    ensures
        r@ == window_from_line(line@),
{
    let fs = split_on(line, '|');
    Window { id: field(&fs, 0), name: field(&fs, 1), active: flag(&fs, 2), layout: field(&fs, 3) }
}

/// Decodes one pane line; missing trailing fields take their defaults.
pub fn parse_pane(line: &str) -> (r: Pane)
    ensures
        r@ == pane_from_line(line@),
{
    let fs = split_on(line, '|');
    Pane {
        id: field(&fs, 0),
        width: field(&fs, 1),
        height: field(&fs, 2),
        current_path: field(&fs, 3),
        current_command: field(&fs, 4),
        active: flag(&fs, 5),
    }
}

/// Decodes a listing: one session for each non-empty line, in order.
pub fn parse_sessions(raw: &str) -> (r: Vec<Session>)
    ensures
        session_views(r@) == sessions_of(raw@),
{
    let lines = non_empty_lines(raw);
    let ghost ls = record_lines(raw@);
    let mut out: Vec<Session> = Vec::new();
    let mut k: usize = 0;
    while k < lines.len()
        invariant
            k <= lines.len(),
            views(lines@) == ls,
            ls == record_lines(raw@),
            session_views(out@) =~= ls.take(k as int).map_values(|l: Seq<char>| session_from_line(l)),
        decreases lines.len() - k,
    {
        let ghost before = session_views(out@);
        proof {
            assert(lines@[k as int]@ == ls[k as int]);
        }
        let rec = parse_session(lines[k].as_str());
        out.push(rec);
        proof {
            assert(session_views(out@) =~= before.push(rec@));
            assert(ls.take(k + 1) =~= ls.take(k as int).push(ls[k as int]));
        }
        k += 1;
    }
    proof {
        assert(ls.take(k as int) =~= ls);
    }
    out
}

/// Decodes a listing: one window for each non-empty line, in order.
pub fn parse_windows(raw: &str) -> (r: Vec<Window>)
    ensures
        window_views(r@) == windows_of(raw@),
{
    let lines = non_empty_lines(raw);
    let ghost ls = record_lines(raw@);
    let mut out: Vec<Window> = Vec::new();
    let mut k: usize = 0;
    while k < lines.len()
        invariant
            k <= lines.len(),
            views(lines@) == ls,
            ls == record_lines(raw@),
            window_views(out@) =~= ls.take(k as int).map_values(|l: Seq<char>| window_from_line(l)),
        decreases lines.len() - k,
    {
        let ghost before = window_views(out@);
        proof {
            assert(lines@[k as int]@ == ls[k as int]);
        }
        let rec = parse_window(lines[k].as_str());
        out.push(rec);
        proof {
            assert(window_views(out@) =~= before.push(rec@));
            assert(ls.take(k + 1) =~= ls.take(k as int).push(ls[k as int]));
        }
        k += 1;
    }
    proof {
        assert(ls.take(k as int) =~= ls);
    }
    out
}

/// Decodes a listing: one pane for each non-empty line, in order.
pub fn parse_panes(raw: &str) -> (r: Vec<Pane>)
    ensures
        pane_views(r@) == panes_of(raw@),
{
    let lines = non_empty_lines(raw);
    let ghost ls = record_lines(raw@);
    let mut out: Vec<Pane> = Vec::new();
    let mut k: usize = 0;
    while k < lines.len()
        invariant
            k <= lines.len(),
            views(lines@) == ls,
            ls == record_lines(raw@),
            pane_views(out@) =~= ls.take(k as int).map_values(|l: Seq<char>| pane_from_line(l)),
        decreases lines.len() - k,
    {
        let ghost before = pane_views(out@);
        proof {
            assert(lines@[k as int]@ == ls[k as int]);
        }
        let rec = parse_pane(lines[k].as_str());
        out.push(rec);
        proof {
            assert(pane_views(out@) =~= before.push(rec@));
            assert(ls.take(k + 1) =~= ls.take(k as int).push(ls[k as int]));
        }
        k += 1;
    }
    proof {
        assert(ls.take(k as int) =~= ls);
    }
    out
}

/// The sessions that a `list-sessions` command printed, or none when it
/// failed.
pub fn get_sessions(output: Option<&str>) -> (r: Vec<Session>)
    ensures
        session_views(r@) == listed_sessions(output_view(output)),
{
    match output {
        Some(raw) => parse_sessions(raw),
        None => {
            let r: Vec<Session> = Vec::new();
            proof {
                assert(session_views(r@) =~= Seq::<SessionView>::empty());
            }
            r
        },
    }
}

/// The windows that a `list-windows` command printed, or none when it
/// failed.
pub fn get_windows(output: Option<&str>) -> (r: Vec<Window>)
    ensures
        window_views(r@) == listed_windows(output_view(output)),
{
    match output {
        Some(raw) => parse_windows(raw),
        None => {
            let r: Vec<Window> = Vec::new();
            proof {
                assert(window_views(r@) =~= Seq::<WindowView>::empty());
            }
            r
        },
    }
}

/// The panes that a `list-panes` command printed, or none when it failed.
pub fn get_panes(output: Option<&str>) -> (r: Vec<Pane>)
    ensures
        pane_views(r@) == listed_panes(output_view(output)),
{
    match output {
        Some(raw) => parse_panes(raw),
        None => {
            let r: Vec<Pane> = Vec::new();
            proof {
                assert(pane_views(r@) =~= Seq::<PaneView>::empty());
            }
            r
        },
    }
}

/// The command that lists all sessions, one `id|name|window_count|created`
/// line each.
pub open spec fn list_sessions_cmd() -> Seq<Seq<char>> {
    seq!["list-sessions"@, "-F"@, "#{session_id}|#{session_name}|#{session_windows}|#{session_created_string}"@]
}

pub fn list_sessions_args() -> (r: Vec<String>)
    ensures
        views(r@) == list_sessions_cmd(),
{
    let r = vec![String::from_str("list-sessions"), String::from_str("-F"), String::from_str("#{session_id}|#{session_name}|#{session_windows}|#{session_created_string}")];
    proof {
        assert(views(r@) =~= list_sessions_cmd());
    }
    r
}

/// The command that lists the windows of a session, one
/// `id|name|active|layout` line each.
pub open spec fn list_windows_cmd(session_id: Seq<char>) -> Seq<Seq<char>> {
    seq!["list-windows"@, "-t"@, session_id, "-F"@, "#{window_id}|#{window_name}|#{window_active}|#{window_layout}"@]
}

pub fn list_windows_args(session_id: &str) -> (r: Vec<String>)
    ensures
        views(r@) == list_windows_cmd(session_id@),
{
    let r = vec![String::from_str("list-windows"), String::from_str("-t"), String::from_str(session_id), String::from_str("-F"), String::from_str("#{window_id}|#{window_name}|#{window_active}|#{window_layout}")];
    proof {
        assert(views(r@) =~= list_windows_cmd(session_id@));
    }
    r
}

/// The command that lists the panes of a window, one
/// `id|width|height|current_path|current_command|active` line each.
pub open spec fn list_panes_cmd(window_id: Seq<char>) -> Seq<Seq<char>> {
    seq!["list-panes"@, "-t"@, window_id, "-F"@, "#{pane_id}|#{pane_width}|#{pane_height}|#{pane_current_path}|#{pane_current_command}|#{pane_active}"@]
}

pub fn list_panes_args(window_id: &str) -> (r: Vec<String>)
    ensures
        views(r@) == list_panes_cmd(window_id@),
{
    let r = vec![String::from_str("list-panes"), String::from_str("-t"), String::from_str(window_id), String::from_str("-F"), String::from_str("#{pane_id}|#{pane_width}|#{pane_height}|#{pane_current_path}|#{pane_current_command}|#{pane_active}")];
    proof {
        assert(views(r@) =~= list_panes_cmd(window_id@));
    }
    r
}

/// The command that creates a detached session named `name`.
pub open spec fn create_session_cmd(name: Seq<char>) -> Seq<Seq<char>> {
    seq!["new-session"@, "-d"@, "-s"@, name]
}

pub fn create_session(name: &str) -> (r: Vec<String>)
    ensures
        views(r@) == create_session_cmd(name@),
{
    let r = vec![String::from_str("new-session"), String::from_str("-d"), String::from_str("-s"), String::from_str(name)];
    proof {
        assert(views(r@) =~= create_session_cmd(name@));
    }
    r
}

/// The command that renames session `old_name` to `new_name`.
pub open spec fn rename_session_cmd(old_name: Seq<char>, new_name: Seq<char>) -> Seq<Seq<char>> {
    seq!["rename-session"@, "-t"@, old_name, new_name]
}

pub fn rename_session(old_name: &str, new_name: &str) -> (r: Vec<String>)
    ensures
        views(r@) == rename_session_cmd(old_name@, new_name@),
{
    let r = vec![String::from_str("rename-session"), String::from_str("-t"), String::from_str(old_name), String::from_str(new_name)];
    proof {
        assert(views(r@) =~= rename_session_cmd(old_name@, new_name@));
    }
    r
}

/// The command that deletes session `name`.
pub open spec fn kill_session_cmd(name: Seq<char>) -> Seq<Seq<char>> {
    seq!["kill-session"@, "-t"@, name]
}

pub fn kill_session(name: &str) -> (r: Vec<String>)
    ensures
        views(r@) == kill_session_cmd(name@),
{
    let r = vec![String::from_str("kill-session"), String::from_str("-t"), String::from_str(name)];
    proof {
        assert(views(r@) =~= kill_session_cmd(name@));
    }
    r
}

/// The command that creates a window named `name` in a session.
pub open spec fn create_window_cmd(session_id: Seq<char>, name: Seq<char>) -> Seq<Seq<char>> {
    seq!["new-window"@, "-t"@, session_id, "-n"@, name]
}

pub fn create_window(session_id: &str, name: &str) -> (r: Vec<String>)
    ensures
        views(r@) == create_window_cmd(session_id@, name@),
{
    let r = vec![String::from_str("new-window"), String::from_str("-t"), String::from_str(session_id), String::from_str("-n"), String::from_str(name)];
    proof {
        assert(views(r@) =~= create_window_cmd(session_id@, name@));
    }
    r
}

/// The command that renames a window.
pub open spec fn rename_window_cmd(window_id: Seq<char>, new_name: Seq<char>) -> Seq<Seq<char>> {
    seq!["rename-window"@, "-t"@, window_id, new_name]
}

pub fn rename_window(window_id: &str, new_name: &str) -> (r: Vec<String>)
    ensures
        views(r@) == rename_window_cmd(window_id@, new_name@),
{
    let r = vec![String::from_str("rename-window"), String::from_str("-t"), String::from_str(window_id), String::from_str(new_name)];
    proof {
        assert(views(r@) =~= rename_window_cmd(window_id@, new_name@));
    }
    r
}

/// The command that deletes a window.
pub open spec fn kill_window_cmd(window_id: Seq<char>) -> Seq<Seq<char>> {
    seq!["kill-window"@, "-t"@, window_id]
}

pub fn kill_window(window_id: &str) -> (r: Vec<String>)
    ensures
        views(r@) == kill_window_cmd(window_id@),
{
    let r = vec![String::from_str("kill-window"), String::from_str("-t"), String::from_str(window_id)];
    proof {
        assert(views(r@) =~= kill_window_cmd(window_id@));
    }
    r
}

/// The command that makes a window the active one of its session, so that
/// attaching lands on it.
pub open spec fn select_window_cmd(window_id: Seq<char>) -> Seq<Seq<char>> {
    seq!["select-window"@, "-t"@, window_id]
}

pub fn select_window(window_id: &str) -> (r: Vec<String>)
    ensures
        views(r@) == select_window_cmd(window_id@),
{
    let r = vec![String::from_str("select-window"), String::from_str("-t"), String::from_str(window_id)];
    proof {
        assert(views(r@) =~= select_window_cmd(window_id@));
    }
    r
}

/// The command that splits a window, adding a pane.
pub open spec fn create_pane_cmd(window_id: Seq<char>) -> Seq<Seq<char>> {
    seq!["split-window"@, "-t"@, window_id]
}

pub fn create_pane(window_id: &str) -> (r: Vec<String>)
    ensures
        views(r@) == create_pane_cmd(window_id@),
{
    let r = vec![String::from_str("split-window"), String::from_str("-t"), String::from_str(window_id)];
    proof {
        assert(views(r@) =~= create_pane_cmd(window_id@));
    }
    r
}

/// The command that deletes a pane.
pub open spec fn kill_pane_cmd(pane_id: Seq<char>) -> Seq<Seq<char>> {
    seq!["kill-pane"@, "-t"@, pane_id]
}

pub fn kill_pane(pane_id: &str) -> (r: Vec<String>)
    ensures
        views(r@) == kill_pane_cmd(pane_id@),
{
    let r = vec![String::from_str("kill-pane"), String::from_str("-t"), String::from_str(pane_id)];
    proof {
        assert(views(r@) =~= kill_pane_cmd(pane_id@));
    }
    r
}

/// The command that makes a pane the active one of its window, so that
/// attaching puts the cursor in it.
pub open spec fn select_pane_cmd(pane_id: Seq<char>) -> Seq<Seq<char>> {
    seq!["select-pane"@, "-t"@, pane_id]
}

pub fn select_pane(pane_id: &str) -> (r: Vec<String>)
    ensures
        views(r@) == select_pane_cmd(pane_id@),
{
    let r = vec![String::from_str("select-pane"), String::from_str("-t"), String::from_str(pane_id)];
    proof {
        assert(views(r@) =~= select_pane_cmd(pane_id@));
    }
    r
}

/// A session line with fewer fields than the format has decodes the missing
/// ones to their defaults: empty text, and `0` for the window count.
pub proof fn lemma_short_session_line(line: Seq<char>)
    ensures
        split_spec(line, '|').len() < 4 ==> session_from_line(line).created == Seq::<char>::empty(),
        split_spec(line, '|').len() < 3 ==> session_from_line(line).count == seq!['0'],
        split_spec(line, '|').len() < 2 ==> session_from_line(line).name == Seq::<char>::empty(),
        session_from_line(line).id == split_spec(line, '|')[0],
{
    crate::text::lemma_split_non_empty(line, '|');
}

/// A window line with fewer fields than the format has decodes the missing
/// ones to their defaults: empty text, and not active.
pub proof fn lemma_short_window_line(line: Seq<char>)
    ensures
        split_spec(line, '|').len() < 4 ==> window_from_line(line).layout == Seq::<char>::empty(),
        split_spec(line, '|').len() < 3 ==> !window_from_line(line).active,
        split_spec(line, '|').len() < 2 ==> window_from_line(line).name == Seq::<char>::empty(),
        window_from_line(line).id == split_spec(line, '|')[0],
{
    crate::text::lemma_split_non_empty(line, '|');
}

/// A pane line with fewer fields than the format has decodes the missing
/// ones to their defaults: empty text, and not active.
pub proof fn lemma_short_pane_line(line: Seq<char>)
    ensures
        split_spec(line, '|').len() < 6 ==> !pane_from_line(line).active,
        split_spec(line, '|').len() < 5 ==> pane_from_line(line).current_command == Seq::<char>::empty(),
        split_spec(line, '|').len() < 4 ==> pane_from_line(line).current_path == Seq::<char>::empty(),
        split_spec(line, '|').len() < 3 ==> pane_from_line(line).height == Seq::<char>::empty(),
        split_spec(line, '|').len() < 2 ==> pane_from_line(line).width == Seq::<char>::empty(),
        pane_from_line(line).id == split_spec(line, '|')[0],
{
    crate::text::lemma_split_non_empty(line, '|');
}

/// Two fields without the delimiter, joined by it: the text of a line that
/// stops after its second field.
pub open spec fn two_fields(a: Seq<char>, b: Seq<char>) -> Seq<char> {
    a.push('|') + b
}

pub open spec fn has_no_delimiter(s: Seq<char>) -> bool {
    forall|i: int| 0 <= i < s.len() ==> s[i] != '|'
}

/// A session line that stops after the name decodes to that id and name,
/// `0` windows and an empty creation time.
pub proof fn lemma_two_field_session_line(a: Seq<char>, b: Seq<char>)
    requires
        has_no_delimiter(a),
        has_no_delimiter(b),
    ensures
        session_from_line(two_fields(a, b)) == (SessionView {
            id: a,
            name: b,
            count: seq!['0'],
            created: Seq::empty(),
        }),
{
    lemma_two_fields_split(a, b);
}

/// A window line that stops after the name decodes to that id and name,
/// not active, with an empty layout.
pub proof fn lemma_two_field_window_line(a: Seq<char>, b: Seq<char>)
    requires
        has_no_delimiter(a),
        has_no_delimiter(b),
    ensures
        window_from_line(two_fields(a, b)) == (WindowView {
            id: a,
            name: b,
            active: false,
            layout: Seq::empty(),
        }),
{
    lemma_two_fields_split(a, b);
}

/// A pane line that stops after the width decodes to that id and width,
/// empty height, path and command, and not active.
pub proof fn lemma_two_field_pane_line(a: Seq<char>, b: Seq<char>)
    requires
        has_no_delimiter(a),
        has_no_delimiter(b),
    ensures
        pane_from_line(two_fields(a, b)) == (PaneView {
            id: a,
            width: b,
            height: Seq::empty(),
            current_path: Seq::empty(),
            current_command: Seq::empty(),
            active: false,
        }),
{
    lemma_two_fields_split(a, b);
}

proof fn lemma_two_fields_split(a: Seq<char>, b: Seq<char>)
    requires
        has_no_delimiter(a),
        has_no_delimiter(b),
    ensures
        split_spec(two_fields(a, b), '|') == seq![a, b],
{
    crate::text::lemma_split_plain(a, '|');
    crate::text::lemma_split_plain(b, '|');
    crate::text::lemma_split_join(a, b, '|');
    assert(seq![a] + seq![b] =~= seq![a, b]);
}

/// A listing of one non-empty line without a line break holds exactly the
/// record of that line.
pub proof fn lemma_one_line_listing(line: Seq<char>)
    requires
        line.len() > 0,
        forall|i: int| 0 <= i < line.len() ==> line[i] != '\n',
    ensures
        sessions_of(line) == seq![session_from_line(line)],
        windows_of(line) == seq![window_from_line(line)],
        panes_of(line) == seq![pane_from_line(line)],
{
    crate::text::lemma_split_plain(line, '\n');
    let texts = crate::text::line_texts(line);
    assert(texts =~= seq![line]);
    reveal(Seq::filter);
    assert(seq![line].drop_last() =~= Seq::<Seq<char>>::empty());
    assert(record_lines(line) =~= seq![line]);
    assert(sessions_of(line) =~= seq![session_from_line(line)]);
    assert(windows_of(line) =~= seq![window_from_line(line)]);
    assert(panes_of(line) =~= seq![pane_from_line(line)]);
}

} // verus!
