use vstd::prelude::*;
use crate::app::{App, AppState, Fetch, FocusArea, fetch_view, next_focus, picked, prev_focus};
use crate::selection::{next_cursor, prev_cursor};
use crate::text::views;
use crate::tmux::{
    create_pane,
    create_pane_cmd,
    create_session,
    create_session_cmd,
    create_window,
    create_window_cmd,
    kill_pane,
    kill_pane_cmd,
    kill_session,
    kill_session_cmd,
    kill_window,
    kill_window_cmd,
    list_sessions_cmd,
    rename_session,
    rename_session_cmd,
    rename_window,
    rename_window_cmd,
    select_pane,
    select_pane_cmd,
    select_window,
    select_window_cmd,
};

verus! {

/// A key press, as the interactive loop hands it over.
#[derive(Clone, Copy, Debug, PartialEq, Eq, Structural)]
pub enum Key {
    Char(char),
    Up,
    Down,
    Left,
    Right,
    Tab,
    BackTab,
    Enter,
    Esc,
    Backspace,
    Other,
}

/// What the loop does after a key: run the commands in order, ignoring their
/// results, then run the listing, feeding each output back to
/// `App::receive` until it names no further one.
#[derive(Debug)]
pub struct Reaction {
    pub commands: Vec<Vec<String>>,
    pub fetch: Option<Fetch>,
}

pub open spec fn commands_view(c: Seq<Vec<String>>) -> Seq<Seq<Seq<char>>> {
    c.map_values(|v: Vec<String>| views(v@))
}

/// The text without its leading and trailing whitespace.
pub uninterp spec fn trimmed(s: Seq<char>) -> Seq<char>;

/// The ASCII characters that count as whitespace: space, tab, line feed,
/// vertical tab, form feed and carriage return.
pub open spec fn is_ascii_space(c: char) -> bool {
    c == ' ' || c == '\t' || c == '\n' || c == '\x0B' || c == '\x0C' || c == '\r'
}

/// `r` is a contiguous part of `s`.
pub open spec fn is_slice_of(r: Seq<char>, s: Seq<char>) -> bool {
    exists|a: int, b: int| 0 <= a <= b <= s.len() && r == s.subrange(a, b)
}

/// Relies on str::trim: the text without leading and trailing whitespace,
/// which depends on the characters alone. The result is a contiguous part of
/// the text, and it neither starts nor ends with ASCII whitespace.
#[verifier::external_body]
fn trim_text(s: &str) -> (r: &str)
    ensures
        r@ == trimmed(s@),
        is_slice_of(r@, s@),
        r@.len() > 0 ==> !is_ascii_space(r@[0]) && !is_ascii_space(r@.last()),
{
    s.trim()
}

/// Relies on String::push: the character is appended.
#[verifier::external_body]
fn push_char(s: &mut String, c: char)
    ensures
        final(s)@ == old(s)@.push(c),
{
    s.push(c)
}

/// Removes the last character: an empty string stays empty.
fn pop_char(s: &mut String)
    ensures
        old(s)@.len() == 0 ==> final(s)@ == old(s)@,
        old(s)@.len() > 0 ==> final(s)@ == old(s)@.drop_last(),
{
    let n = s.as_str().unicode_len();
    if n > 0 {
        let t = String::from_str(s.as_str().substring_char(0, n - 1));
        proof {
            assert(t@ =~= old(s)@.drop_last());
        }
        *s = t;
    }
}

/// Whether every character of `s` is ASCII whitespace.
pub open spec fn all_ascii_space(s: Seq<char>) -> bool {
    forall|i: int| 0 <= i < s.len() ==> is_ascii_space(#[trigger] s[i])
}

fn no_commands() -> (r: Vec<Vec<String>>)
    ensures
        commands_view(r@) == Seq::<Seq<Seq<char>>>::empty(),
{
    let r: Vec<Vec<String>> = Vec::new();
    proof {
        assert(commands_view(r@) =~= Seq::<Seq<Seq<char>>>::empty());
    }
    r
}

fn one_command(c: Vec<String>) -> (r: Vec<Vec<String>>)
    ensures
        commands_view(r@) == seq![views(c@)],
{
    let r = vec![c];
    proof {
        assert(commands_view(r@) =~= seq![views(c@)]);
    }
    r
}

impl App {
    /// The lists and focus stand, and the key state is the one given.
    pub open spec fn shows(
        self,
        pre: App,
        state: AppState,
        buffer: Seq<char>,
        quit: bool,
        target: Option<Seq<char>>,
    ) -> bool {
        &&& self.same_lists(pre)
        &&& self.focus == pre.focus
        &&& self.state == state
        &&& self.input_buffer@ == buffer
        &&& self.should_quit == quit
        &&& self.target_view() == target
    }

    pub open spec fn unchanged(self, pre: App) -> bool {
        self.shows(pre, pre.state, pre.input_buffer@, pre.should_quit, pre.target_view())
    }

    /// The command that a submitted name `val` (already trimmed) leads to in
    /// the current input mode: none for an empty name, or when the entry it
    /// needs is not selected.
    pub open spec fn submission(self, val: Seq<char>) -> Seq<Seq<Seq<char>>> {
        if val.len() == 0 {
            seq![]
        } else {
            match self.state {
                AppState::InputNewSession => seq![create_session_cmd(val)],
                AppState::InputRenameSession => match picked(self.sessions@, self.session_list_state) {
                    Some(s) => seq![rename_session_cmd(s.name@, val)],
                    None => seq![],
                },
                AppState::InputNewWindow => match picked(self.sessions@, self.session_list_state) {
                    Some(s) => seq![create_window_cmd(s.id@, val)],
                    None => seq![],
                },
                AppState::InputRenameWindow => match picked(self.windows@, self.window_list_state) {
                    Some(w) => seq![rename_window_cmd(w.id@, val)],
                    None => seq![],
                },
                _ => seq![],
            }
        }
    }

    /// The command that confirming a deletion leads to: the selected entry of
    /// the level being deleted from, if any.
    pub open spec fn confirmation(self) -> Seq<Seq<Seq<char>>> {
        match self.state {
            AppState::ConfirmDeleteSession => match picked(self.sessions@, self.session_list_state) {
                Some(s) => seq![kill_session_cmd(s.name@)],
                None => seq![],
            },
            AppState::ConfirmDeleteWindow => match picked(self.windows@, self.window_list_state) {
                Some(w) => seq![kill_window_cmd(w.id@)],
                None => seq![],
            },
            AppState::ConfirmDeletePane => match picked(self.panes@, self.pane_list_state) {
                Some(p) => seq![kill_pane_cmd(p.id@)],
                None => seq![],
            },
            _ => seq![],
        }
    }

    /// The commands for the name being edited, given its trimmed text.
    pub fn submission_commands(&self, val: &str) -> (r: Vec<Vec<String>>)
        ensures
            commands_view(r@) == self.submission(val@),
    {
        if val.is_empty() {
            return no_commands();
        }
        match self.state {
            AppState::InputNewSession => one_command(create_session(val)),
            AppState::InputRenameSession => match self.get_selected_session() {
                Some(s) => one_command(rename_session(s.name.as_str(), val)),
                None => no_commands(),
            },
            AppState::InputNewWindow => match self.get_selected_session() {
                Some(s) => one_command(create_window(s.id.as_str(), val)),
                None => no_commands(),
            },
            AppState::InputRenameWindow => match self.get_selected_window() {
                Some(w) => one_command(rename_window(w.id.as_str(), val)),
                None => no_commands(),
            },
            _ => no_commands(),
        }
    }

    /// The commands for the name being edited: its text is trimmed first, so
    /// a name of blanks alone submits nothing.
    pub fn handle_input_submission(&self) -> (r: Vec<Vec<String>>)
        ensures
            commands_view(r@) == self.submission(trimmed(self.input_buffer@)),
            all_ascii_space(self.input_buffer@) ==> r@.len() == 0,
    {
        let val = trim_text(self.input_buffer.as_str());
        proof {
            if all_ascii_space(self.input_buffer@) && val@.len() > 0 {
                let (a, b) = choose|a: int, b: int|
                    0 <= a <= b <= self.input_buffer@.len() && val@ == self.input_buffer@.subrange(a, b);
                assert(val@[0] == self.input_buffer@[a]);
                assert(is_ascii_space(self.input_buffer@[a]));
            }
        }
        let r = self.submission_commands(val);
        proof {
            assert(commands_view(r@).len() == r@.len());
        }
        r
    }

    /// The command that deletes the entry whose deletion is being confirmed.
    pub fn handle_confirmation(&self) -> (r: Vec<Vec<String>>)
        ensures
            commands_view(r@) == self.confirmation(),
    {
        match self.state {
            AppState::ConfirmDeleteSession => match self.get_selected_session() {
                Some(s) => one_command(kill_session(s.name.as_str())),
                None => no_commands(),
            },
            AppState::ConfirmDeleteWindow => match self.get_selected_window() {
                Some(w) => one_command(kill_window(w.id.as_str())),
                None => no_commands(),
            },
            AppState::ConfirmDeletePane => match self.get_selected_pane() {
                Some(p) => one_command(kill_pane(p.id.as_str())),
                None => no_commands(),
            },
            _ => no_commands(),
        }
    }

    /// The effect of asking for a new entry at the focused level: the name
    /// editor opens for a session, or for a window of the selected session;
    /// a pane is split off the selected window at once, and a full refresh
    /// follows.
    pub open spec fn after_new(
        self,
        pre: App,
        cmds: Seq<Seq<Seq<char>>>,
        next: Option<(FocusArea, Seq<Seq<char>>)>,
    ) -> bool {
        match pre.focus {
            FocusArea::Sessions => {
                &&& self.shows(pre, AppState::InputNewSession, seq![], pre.should_quit, pre.target_view())
                &&& cmds.len() == 0
                &&& next is None
            },
            FocusArea::Windows => {
                &&& if picked(pre.sessions@, pre.session_list_state) is Some {
                    self.shows(pre, AppState::InputNewWindow, seq![], pre.should_quit, pre.target_view())
                } else {
                    self.unchanged(pre)
                }
                &&& cmds.len() == 0
                &&& next is None
            },
            FocusArea::Panes => {
                &&& self.unchanged(pre)
                &&& match picked(pre.windows@, pre.window_list_state) {
                    Some(w) => {
                        &&& cmds == seq![create_pane_cmd(w.id@)]
                        &&& next == Some((FocusArea::Sessions, list_sessions_cmd()))
                    },
                    None => cmds.len() == 0 && next is None,
                }
            },
        }
    }

    /// The effect of asking to rename the selected session or window: the
    /// name editor opens, holding its current name.
    pub open spec fn after_rename(self, pre: App) -> bool {
        match pre.focus {
            FocusArea::Sessions => match picked(pre.sessions@, pre.session_list_state) {
                Some(s) => self.shows(pre, AppState::InputRenameSession, s.name@, pre.should_quit, pre.target_view()),
                None => self.unchanged(pre),
            },
            FocusArea::Windows => match picked(pre.windows@, pre.window_list_state) {
                Some(w) => self.shows(pre, AppState::InputRenameWindow, w.name@, pre.should_quit, pre.target_view()),
                None => self.unchanged(pre),
            },
            FocusArea::Panes => self.unchanged(pre),
        }
    }

    /// The state that asks to confirm deleting from the focused level.
    pub open spec fn confirm_state(f: FocusArea) -> AppState {
        match f {
            FocusArea::Sessions => AppState::ConfirmDeleteSession,
            FocusArea::Windows => AppState::ConfirmDeleteWindow,
            FocusArea::Panes => AppState::ConfirmDeletePane,
        }
    }

    /// Whether the focused level has a selected entry.
    pub open spec fn has_focused_entry(self) -> bool {
        match self.focus {
            FocusArea::Sessions => picked(self.sessions@, self.session_list_state) is Some,
            FocusArea::Windows => picked(self.windows@, self.window_list_state) is Some,
            FocusArea::Panes => picked(self.panes@, self.pane_list_state) is Some,
        }
    }

    /// The effect of asking to delete the selected entry of the focused
    /// level: confirmation is asked for, if there is such an entry.
    pub open spec fn after_delete(self, pre: App) -> bool {
        if pre.has_focused_entry() {
            self.shows(pre, App::confirm_state(pre.focus), pre.input_buffer@, pre.should_quit, pre.target_view())
        } else {
            self.unchanged(pre)
        }
    }

    /// The effect of attaching from the focused level: the selected session
    /// becomes the target and the loop ends; from the windows the selected
    /// window is made active first, and from the panes also the selected pane.
    /// Without the selections this needs, nothing happens.
    pub open spec fn after_attach(self, pre: App, cmds: Seq<Seq<Seq<char>>>) -> bool {
        let s = picked(pre.sessions@, pre.session_list_state);
        let w = picked(pre.windows@, pre.window_list_state);
        let p = picked(pre.panes@, pre.pane_list_state);
        let ready = match pre.focus {
            FocusArea::Sessions => s is Some,
            FocusArea::Windows => s is Some && w is Some,
            FocusArea::Panes => s is Some && w is Some && p is Some,
        };
        if ready {
            &&& self.shows(pre, pre.state, pre.input_buffer@, true, Some(s->0.name@))
            &&& cmds == match pre.focus {
                FocusArea::Sessions => seq![],
                FocusArea::Windows => seq![select_window_cmd(w->0.id@)],
                FocusArea::Panes => seq![select_window_cmd(w->0.id@), select_pane_cmd(p->0.id@)],
            }
        } else {
            self.unchanged(pre) && cmds.len() == 0
        }
    }

    fn on_new(&mut self) -> (r: Reaction)
        ensures
            final(self).after_new(*old(self), commands_view(r.commands@), fetch_view(r.fetch)),
    {
        match self.focus {
            FocusArea::Sessions => {
                self.state = AppState::InputNewSession;
                self.input_buffer = String::new();
                Reaction { commands: no_commands(), fetch: None }
            },
            FocusArea::Windows => {
                if self.get_selected_session().is_some() {
                    self.state = AppState::InputNewWindow;
                    self.input_buffer = String::new();
                }
                Reaction { commands: no_commands(), fetch: None }
            },
            FocusArea::Panes => {
                let id = match self.get_selected_window() {
                    Some(w) => Some(create_pane(w.id.as_str())),
                    None => None,
                };
                match id {
                    Some(c) => Reaction { commands: one_command(c), fetch: Some(self.refresh_all()) },
                    None => Reaction { commands: no_commands(), fetch: None },
                }
            },
        }
    }

    fn on_rename(&mut self)
        ensures
            final(self).after_rename(*old(self)),
    {
        match self.focus {
            FocusArea::Sessions => {
                let name = match self.get_selected_session() {
                    Some(s) => Some(s.name.clone()),
                    None => None,
                };
                if let Some(n) = name {
                    self.state = AppState::InputRenameSession;
                    self.input_buffer = n;
                }
            },
            FocusArea::Windows => {
                let name = match self.get_selected_window() {
                    Some(w) => Some(w.name.clone()),
                    None => None,
                };
                if let Some(n) = name {
                    self.state = AppState::InputRenameWindow;
                    self.input_buffer = n;
                }
            },
            FocusArea::Panes => {},
        }
    }

    fn on_delete(&mut self)
        ensures
            final(self).after_delete(*old(self)),
    {
        match self.focus {
            FocusArea::Sessions => {
                if self.get_selected_session().is_some() {
                    self.state = AppState::ConfirmDeleteSession;
                }
            },
            FocusArea::Windows => {
                if self.get_selected_window().is_some() {
                    self.state = AppState::ConfirmDeleteWindow;
                }
            },
            FocusArea::Panes => {
                if self.get_selected_pane().is_some() {
                    self.state = AppState::ConfirmDeletePane;
                }
            },
        }
    }

    fn on_attach(&mut self) -> (r: Vec<Vec<String>>)
        ensures
            final(self).after_attach(*old(self), commands_view(r@)),
    {
        let (target, cmds) = match self.focus {
            FocusArea::Sessions => match self.get_selected_session() {
                Some(s) => (Some(s.name.clone()), no_commands()),
                None => (None, no_commands()),
            },
            FocusArea::Windows => match (self.get_selected_session(), self.get_selected_window()) {
                (Some(s), Some(w)) => (Some(s.name.clone()), one_command(select_window(w.id.as_str()))),
                _ => (None, no_commands()),
            },
            FocusArea::Panes => match (
                self.get_selected_session(),
                self.get_selected_window(),
                self.get_selected_pane(),
            ) {
                (Some(s), Some(w), Some(p)) => {
                    let c = vec![select_window(w.id.as_str()), select_pane(p.id.as_str())];
                    proof {
                        assert(commands_view(c@) =~= seq![views(c@[0]@), views(c@[1]@)]);
                    }
                    (Some(s.name.clone()), c)
                },
                _ => (None, no_commands()),
            },
        };
        if target.is_some() {
            self.target_attach = target;
            self.should_quit = true;
        }
        cmds
    }

    /// The effect of a key while navigating.
    pub open spec fn after_normal_key(
        self,
        pre: App,
        key: Key,
        cmds: Seq<Seq<Seq<char>>>,
        next: Option<(FocusArea, Seq<Seq<char>>)>,
    ) -> bool {
        match key {
            Key::Char('q') => {
                &&& self.shows(pre, pre.state, pre.input_buffer@, true, pre.target_view())
                &&& cmds.len() == 0
                &&& next is None
            },
            Key::Char('r') => {
                &&& self.unchanged(pre)
                &&& cmds.len() == 0
                &&& next == Some((FocusArea::Sessions, list_sessions_cmd()))
            },
            Key::Down | Key::Char('j') => {
                &&& self.same_controls(pre)
                &&& self.moved(pre, next_cursor(pre.focused().0, pre.focused().1), next)
                &&& cmds.len() == 0
            },
            Key::Up | Key::Char('k') => {
                &&& self.same_controls(pre)
                &&& self.moved(pre, prev_cursor(pre.focused().0, pre.focused().1), next)
                &&& cmds.len() == 0
            },
            Key::Right | Key::Tab => {
                &&& self.refocused(pre, next_focus(pre.focus))
                &&& cmds.len() == 0
                &&& next is None
            },
            Key::Left | Key::BackTab => {
                &&& self.refocused(pre, prev_focus(pre.focus))
                &&& cmds.len() == 0
                &&& next is None
            },
            Key::Char('n') => self.after_new(pre, cmds, next),
            Key::Char('R') => self.after_rename(pre) && cmds.len() == 0 && next is None,
            Key::Char('d') => self.after_delete(pre) && cmds.len() == 0 && next is None,
            Key::Enter => self.after_attach(pre, cmds) && next is None,
            _ => self.unchanged(pre) && cmds.len() == 0 && next is None,
        }
    }

    /// The effect of a key while a name is edited: Enter submits the trimmed
    /// name and a full refresh follows, Esc cancels, a character is typed,
    /// Backspace erases the last one.
    pub open spec fn after_input_key(
        self,
        pre: App,
        key: Key,
        cmds: Seq<Seq<Seq<char>>>,
        next: Option<(FocusArea, Seq<Seq<char>>)>,
    ) -> bool {
        match key {
            Key::Enter => {
                &&& self.shows(pre, AppState::Normal, pre.input_buffer@, pre.should_quit, pre.target_view())
                &&& cmds == pre.submission(trimmed(pre.input_buffer@))
                &&& next == Some((FocusArea::Sessions, list_sessions_cmd()))
            },
            Key::Esc => {
                &&& self.shows(pre, AppState::Normal, pre.input_buffer@, pre.should_quit, pre.target_view())
                &&& cmds.len() == 0
                &&& next is None
            },
            Key::Char(c) => {
                &&& self.shows(pre, pre.state, pre.input_buffer@.push(c), pre.should_quit, pre.target_view())
                &&& cmds.len() == 0
                &&& next is None
            },
            Key::Backspace => {
                &&& self.shows(
                    pre,
                    pre.state,
                    if pre.input_buffer@.len() > 0 {
                        pre.input_buffer@.drop_last()
                    } else {
                        pre.input_buffer@
                    },
                    pre.should_quit,
                    pre.target_view(),
                )
                &&& cmds.len() == 0
                &&& next is None
            },
            _ => self.unchanged(pre) && cmds.len() == 0 && next is None,
        }
    }

    /// The effect of a key while a deletion waits for confirmation: `y` or
    /// Enter deletes and a full refresh follows, `n` or Esc cancels.
    pub open spec fn after_confirm_key(
        self,
        pre: App,
        key: Key,
        cmds: Seq<Seq<Seq<char>>>,
        next: Option<(FocusArea, Seq<Seq<char>>)>,
    ) -> bool {
        match key {
            Key::Char('y') | Key::Enter => {
                &&& self.shows(pre, AppState::Normal, pre.input_buffer@, pre.should_quit, pre.target_view())
                &&& cmds == pre.confirmation()
                &&& next == Some((FocusArea::Sessions, list_sessions_cmd()))
            },
            Key::Char('n') | Key::Esc => {
                &&& self.shows(pre, AppState::Normal, pre.input_buffer@, pre.should_quit, pre.target_view())
                &&& cmds.len() == 0
                &&& next is None
            },
            _ => self.unchanged(pre) && cmds.len() == 0 && next is None,
        }
    }

    pub open spec fn is_input_state(st: AppState) -> bool {
        ||| st == AppState::InputNewSession
        ||| st == AppState::InputRenameSession
        ||| st == AppState::InputNewWindow
        ||| st == AppState::InputRenameWindow
    }

    /// The effect of a key in the current state.
    pub open spec fn after_key(
        self,
        pre: App,
        key: Key,
        cmds: Seq<Seq<Seq<char>>>,
        next: Option<(FocusArea, Seq<Seq<char>>)>,
    ) -> bool {
        if pre.state == AppState::Normal {
            self.after_normal_key(pre, key, cmds, next)
        } else if App::is_input_state(pre.state) {
            self.after_input_key(pre, key, cmds, next)
        } else {
            self.after_confirm_key(pre, key, cmds, next)
        }
    }

    fn handle_normal_key(&mut self, key: Key) -> (r: Reaction)
        requires
            old(self).wf(),
        ensures
            final(self).wf(),
            final(self).after_normal_key(*old(self), key, commands_view(r.commands@), fetch_view(r.fetch)),
    {
        match key {
            Key::Char('q') => {
                self.should_quit = true;
                Reaction { commands: no_commands(), fetch: None }
            },
            Key::Char('r') => Reaction { commands: no_commands(), fetch: Some(self.refresh_all()) },
            Key::Down | Key::Char('j') => Reaction { commands: no_commands(), fetch: self.nav_down() },
            Key::Up | Key::Char('k') => Reaction { commands: no_commands(), fetch: self.nav_up() },
            Key::Right | Key::Tab => {
                self.cycle_focus();
                Reaction { commands: no_commands(), fetch: None }
            },
            Key::Left | Key::BackTab => {
                self.cycle_focus_back();
                Reaction { commands: no_commands(), fetch: None }
            },
            Key::Char('n') => self.on_new(),
            Key::Char('R') => {
                self.on_rename();
                Reaction { commands: no_commands(), fetch: None }
            },
            Key::Char('d') => {
                self.on_delete();
                Reaction { commands: no_commands(), fetch: None }
            },
            Key::Enter => Reaction { commands: self.on_attach(), fetch: None },
            _ => Reaction { commands: no_commands(), fetch: None },
        }
    }

    fn handle_input_key(&mut self, key: Key) -> (r: Reaction)
        ensures
            final(self).after_input_key(*old(self), key, commands_view(r.commands@), fetch_view(r.fetch)),
    {
        match key {
            Key::Enter => {
                let commands = self.handle_input_submission();
                self.state = AppState::Normal;
                Reaction { commands, fetch: Some(self.refresh_all()) }
            },
            Key::Esc => {
                self.state = AppState::Normal;
                Reaction { commands: no_commands(), fetch: None }
            },
            Key::Char(c) => {
                push_char(&mut self.input_buffer, c);
                Reaction { commands: no_commands(), fetch: None }
            },
            Key::Backspace => {
                pop_char(&mut self.input_buffer);
                Reaction { commands: no_commands(), fetch: None }
            },
            _ => Reaction { commands: no_commands(), fetch: None },
        }
    }

    fn handle_confirm_key(&mut self, key: Key) -> (r: Reaction)
        ensures
            final(self).after_confirm_key(*old(self), key, commands_view(r.commands@), fetch_view(r.fetch)),
    {
        match key {
            Key::Char('y') | Key::Enter => {
                let commands = self.handle_confirmation();
                self.state = AppState::Normal;
                Reaction { commands, fetch: Some(self.refresh_all()) }
            },
            Key::Char('n') | Key::Esc => {
                self.state = AppState::Normal;
                Reaction { commands: no_commands(), fetch: None }
            },
            _ => Reaction { commands: no_commands(), fetch: None },
        }
    }

    /// Applies one key press and says what the loop runs next.
    pub fn handle_key(&mut self, key: Key) -> (r: Reaction)
        requires
            old(self).wf(),
        ensures
            final(self).wf(),
            final(self).after_key(*old(self), key, commands_view(r.commands@), fetch_view(r.fetch)),
    {
        match self.state {
            AppState::Normal => self.handle_normal_key(key),
            AppState::InputNewSession
            | AppState::InputRenameSession
            | AppState::InputNewWindow
            | AppState::InputRenameWindow => self.handle_input_key(key),
            AppState::ConfirmDeleteSession
            | AppState::ConfirmDeleteWindow
            | AppState::ConfirmDeletePane => self.handle_confirm_key(key),
        }
    }
}

} // verus!
