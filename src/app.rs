use vstd::prelude::*;
use crate::models::{Pane, Session, Window, pane_views, session_views, window_views};
use crate::selection::{Selection, next_cursor, prev_cursor, repaired_cursor};
use crate::text::views;
use crate::tmux::{
    get_panes,
    get_sessions,
    get_windows,
    list_panes_args,
    list_panes_cmd,
    list_sessions_args,
    list_sessions_cmd,
    list_windows_args,
    list_windows_cmd,
    listed_panes,
    listed_sessions,
    listed_windows,
    output_view,
};

verus! {

/// What the keys currently do: navigate, edit a name, or confirm a deletion.
#[derive(Clone, Copy, Debug, PartialEq, Eq, Structural)]
pub enum AppState {
    Normal,
    InputNewSession,
    InputRenameSession,
    ConfirmDeleteSession,
    InputNewWindow,
    InputRenameWindow,
    ConfirmDeleteWindow,
    ConfirmDeletePane,
}

/// The list that receives navigation and action keys.
#[derive(Clone, Copy, Debug, PartialEq, Eq, Structural)]
pub enum FocusArea {
    Sessions,
    Windows,
    Panes,
}

/// A listing to run next: the level whose list it replaces, and the command.
#[derive(Debug)]
pub struct Fetch {
    pub level: FocusArea,
    pub args: Vec<String>,
}

pub open spec fn fetch_view(f: Option<Fetch>) -> Option<(FocusArea, Seq<Seq<char>>)> {
    match f {
        Some(f) => Some((f.level, views(f.args@))),
        None => None,
    }
}

/// The entry of `v` under the cursor, if any.
pub open spec fn picked<T>(v: Seq<T>, sel: Selection) -> Option<T> {
    match sel.cursor {
        Some(i) => if i < v.len() { Some(v[i as int]) } else { None },
        None => None,
    }
}

/// `r` refers to the entry `e`, or both are empty.
pub open spec fn same_entry<T>(r: Option<&T>, e: Option<T>) -> bool {
    match r {
        Some(x) => e == Some(*x),
        None => e is None,
    }
}

/// The list after `f` in the cycle sessions, windows, panes.
pub open spec fn next_focus(f: FocusArea) -> FocusArea {
    match f {
        FocusArea::Sessions => FocusArea::Windows,
        FocusArea::Windows => FocusArea::Panes,
        FocusArea::Panes => FocusArea::Sessions,
    }
}

/// The list before `f` in the cycle sessions, windows, panes.
pub open spec fn prev_focus(f: FocusArea) -> FocusArea {
    match f {
        FocusArea::Sessions => FocusArea::Panes,
        FocusArea::Windows => FocusArea::Sessions,
        FocusArea::Panes => FocusArea::Windows,
    }
}

/// The three lists with their cursors, and the state of the keys.
pub struct App {
    pub sessions: Vec<Session>,
    pub windows: Vec<Window>,
    pub panes: Vec<Pane>,
    pub session_list_state: Selection,
    pub window_list_state: Selection,
    pub pane_list_state: Selection,
    pub focus: FocusArea,
    pub state: AppState,
    pub input_buffer: String,
    pub should_quit: bool,
    /// The session to attach to once the interactive loop ends.
    pub target_attach: Option<String>,
}

impl App {
    /// Each cursor fits its list, and a list below a level with nothing
    /// selected is empty: windows exist only under a selected session, panes
    /// only under a selected window.
    pub open spec fn wf(self) -> bool {
        &&& self.session_list_state.fits(self.sessions@.len())
        &&& self.window_list_state.fits(self.windows@.len())
        &&& self.pane_list_state.fits(self.panes@.len())
        &&& self.session_list_state.cursor is None ==> self.windows@.len() == 0
        &&& self.window_list_state.cursor is None ==> self.panes@.len() == 0
    }

    /// The lists and cursors are those of `other`.
    pub open spec fn same_lists(self, other: App) -> bool {
        &&& self.sessions@ == other.sessions@
        &&& self.windows@ == other.windows@
        &&& self.panes@ == other.panes@
        &&& self.session_list_state == other.session_list_state
        &&& self.window_list_state == other.window_list_state
        &&& self.pane_list_state == other.pane_list_state
    }

    /// The focus and the state of the keys are those of `other`.
    pub open spec fn same_controls(self, other: App) -> bool {
        &&& self.focus == other.focus
        &&& self.state == other.state
        &&& self.input_buffer@ == other.input_buffer@
        &&& self.should_quit == other.should_quit
        &&& self.target_attach == other.target_attach
    }

    pub open spec fn target_view(self) -> Option<Seq<char>> {
        match self.target_attach {
            Some(t) => Some(t@),
            None => None,
        }
    }

    /// Only the focus changed, to `f`.
    pub open spec fn refocused(self, pre: App, f: FocusArea) -> bool {
        &&& self.same_lists(pre)
        &&& self.focus == f
        &&& self.state == pre.state
        &&& self.input_buffer@ == pre.input_buffer@
        &&& self.should_quit == pre.should_quit
        &&& self.target_view() == pre.target_view()
    }

    /// The listing that re-fetches the panes of the selected window, if one
    /// is selected.
    pub open spec fn panes_fetch(self) -> Option<(FocusArea, Seq<Seq<char>>)> {
        match picked(self.windows@, self.window_list_state) {
            Some(w) => Some((FocusArea::Panes, list_panes_cmd(w.id@))),
            None => None,
        }
    }

    /// The state after a sessions listing came in: the sessions are replaced
    /// and their cursor repaired; the windows of the selected session are
    /// fetched next, or, with none selected, windows and panes are cleared.
    pub open spec fn after_sessions(
        self,
        pre: App,
        output: Option<Seq<char>>,
        next: Option<(FocusArea, Seq<Seq<char>>)>,
    ) -> bool {
        &&& session_views(self.sessions@) == listed_sessions(output)
        &&& self.session_list_state.cursor == repaired_cursor(
            pre.session_list_state.cursor,
            self.sessions@.len(),
        )
        &&& match picked(self.sessions@, self.session_list_state) {
            Some(s) => {
                &&& next == Some((FocusArea::Windows, list_windows_cmd(s.id@)))
                &&& self.windows@ == pre.windows@
                &&& self.window_list_state == pre.window_list_state
                &&& self.panes@ == pre.panes@
                &&& self.pane_list_state == pre.pane_list_state
            },
            None => {
                &&& next is None
                &&& self.windows@.len() == 0
                &&& self.window_list_state.cursor is None
                &&& self.panes@.len() == 0
                &&& self.pane_list_state.cursor is None
            },
        }
    }

    /// The state after a windows listing came in. With no session selected
    /// the listing belongs to none, so windows and panes are cleared.
    /// Otherwise the windows are replaced and their cursor repaired; the
    /// panes of the selected window are fetched next, or, with none
    /// selected, the panes are cleared.
    pub open spec fn after_windows(
        self,
        pre: App,
        output: Option<Seq<char>>,
        next: Option<(FocusArea, Seq<Seq<char>>)>,
    ) -> bool {
        &&& self.sessions@ == pre.sessions@
        &&& self.session_list_state == pre.session_list_state
        &&& if picked(pre.sessions@, pre.session_list_state) is None {
            &&& self.windows@.len() == 0
            &&& self.window_list_state.cursor is None
            &&& self.panes@.len() == 0
            &&& self.pane_list_state.cursor is None
            &&& next is None
        } else {
            &&& window_views(self.windows@) == listed_windows(output)
            &&& self.window_list_state.cursor == repaired_cursor(
                pre.window_list_state.cursor,
                self.windows@.len(),
            )
            &&& match picked(self.windows@, self.window_list_state) {
                Some(w) => {
                    &&& next == Some((FocusArea::Panes, list_panes_cmd(w.id@)))
                    &&& self.panes@ == pre.panes@
                    &&& self.pane_list_state == pre.pane_list_state
                },
                None => {
                    &&& next is None
                    &&& self.panes@.len() == 0
                    &&& self.pane_list_state.cursor is None
                },
            }
        }
    }

    /// The state after a panes listing came in. With no window selected the
    /// listing belongs to none, so the panes are cleared; otherwise they are
    /// replaced and their cursor repaired. Nothing is fetched next.
    pub open spec fn after_panes(
        self,
        pre: App,
        output: Option<Seq<char>>,
        next: Option<(FocusArea, Seq<Seq<char>>)>,
    ) -> bool {
        &&& self.sessions@ == pre.sessions@
        &&& self.session_list_state == pre.session_list_state
        &&& self.windows@ == pre.windows@
        &&& self.window_list_state == pre.window_list_state
        &&& if picked(pre.windows@, pre.window_list_state) is None {
            &&& self.panes@.len() == 0
            &&& self.pane_list_state.cursor is None
        } else {
            &&& pane_views(self.panes@) == listed_panes(output)
            &&& self.pane_list_state.cursor == repaired_cursor(
                pre.pane_list_state.cursor,
                self.panes@.len(),
            )
        }
        &&& next is None
    }

    /// An application with empty lists, nothing selected, and the sessions
    /// list focused, together with the first listing of the full refresh
    /// that fills it.
    pub fn new() -> (r: (App, Fetch))
        ensures
            r.0.wf(),
            r.0.sessions@.len() == 0,
            r.0.windows@.len() == 0,
            r.0.panes@.len() == 0,
            r.0.session_list_state.cursor is None,
            r.0.window_list_state.cursor is None,
            r.0.pane_list_state.cursor is None,
            r.0.focus == FocusArea::Sessions,
            r.0.state == AppState::Normal,
            r.0.input_buffer@.len() == 0,
            !r.0.should_quit,
            r.0.target_attach is None,
            fetch_view(Some(r.1)) == Some((FocusArea::Sessions, list_sessions_cmd())),
    {
        let app = App {
            sessions: Vec::new(),
            windows: Vec::new(),
            panes: Vec::new(),
            session_list_state: Selection::new(),
            window_list_state: Selection::new(),
            pane_list_state: Selection::new(),
            focus: FocusArea::Sessions,
            state: AppState::Normal,
            input_buffer: String::new(),
            should_quit: false,
            target_attach: None,
        };
        let first = app.refresh_all();
        (app, first)
    }

    /// The first listing of a full refresh: the sessions. Each listing's
    /// output goes to `receive`, which names the next one.
    pub fn refresh_all(&self) -> (r: Fetch)
        ensures
            fetch_view(Some(r)) == Some((FocusArea::Sessions, list_sessions_cmd())),
    {
        Fetch { level: FocusArea::Sessions, args: list_sessions_args() }
    }

    /// The listing that re-fetches the panes of the selected window, if a
    /// window is selected.
    pub fn refresh_panes_only(&self) -> (r: Option<Fetch>)
        requires
            self.wf(),
        ensures
            fetch_view(r) == self.panes_fetch(),
            r is None ==> self.panes@.len() == 0 && self.pane_list_state.cursor is None,
    {
        match self.window_list_state.cursor {
            Some(i) => {
                if i < self.windows.len() {
                    Some(Fetch { level: FocusArea::Panes, args: list_panes_args(self.windows[i].id.as_str()) })
                } else {
                    None
                }
            },
            None => None,
        }
    }

    /// Takes in what the listing for `level` printed (`None` when it failed),
    /// replaces that level's list, repairs its cursor, and names the listing
    /// to run next, if any: replacing the sessions leads to the windows of
    /// the selected session, replacing the windows to the panes of the
    /// selected window. A listing for a level whose parent has nothing
    /// selected belongs to no entry: that level and those below are cleared.
    pub fn receive(&mut self, level: FocusArea, output: Option<&str>) -> (r: Option<Fetch>)
        requires
            old(self).wf(),
        ensures
            final(self).wf(),
            final(self).same_controls(*old(self)),
            level == FocusArea::Sessions ==> final(self).after_sessions(*old(self), output_view(output), fetch_view(r)),
            level == FocusArea::Windows ==> final(self).after_windows(*old(self), output_view(output), fetch_view(r)),
            level == FocusArea::Panes ==> final(self).after_panes(*old(self), output_view(output), fetch_view(r)),
    {
        match level {
            FocusArea::Sessions => {
                self.sessions = get_sessions(output);
                self.session_list_state.repair(self.sessions.len());
                proof {
                    assert(session_views(self.sessions@).len() == self.sessions@.len());
                }
                match self.session_list_state.cursor {
                    Some(i) => {
                        Some(Fetch { level: FocusArea::Windows, args: list_windows_args(self.sessions[i].id.as_str()) })
                    },
                    None => {
                        self.windows = Vec::new();
                        self.window_list_state.repair(0);
                        self.panes = Vec::new();
                        self.pane_list_state.repair(0);
                        None
                    },
                }
            },
            FocusArea::Windows => {
                if self.get_selected_session().is_none() {
                    self.windows = Vec::new();
                    self.window_list_state.repair(0);
                    self.panes = Vec::new();
                    self.pane_list_state.repair(0);
                    return None;
                }
                self.windows = get_windows(output);
                self.window_list_state.repair(self.windows.len());
                match self.window_list_state.cursor {
                    Some(i) => {
                        Some(Fetch { level: FocusArea::Panes, args: list_panes_args(self.windows[i].id.as_str()) })
                    },
                    None => {
                        self.panes = Vec::new();
                        self.pane_list_state.repair(0);
                        None
                    },
                }
            },
            FocusArea::Panes => {
                if self.get_selected_window().is_none() {
                    self.panes = Vec::new();
                    self.pane_list_state.repair(0);
                    return None;
                }
                self.panes = get_panes(output);
                self.pane_list_state.repair(self.panes.len());
                None
            },
        }
    }

    pub fn get_selected_session(&self) -> (r: Option<&Session>)
        ensures
            same_entry(r, picked(self.sessions@, self.session_list_state)),
    {
        match self.session_list_state.cursor {
            Some(i) => if i < self.sessions.len() { Some(&self.sessions[i]) } else { None },
            None => None,
        }
    }

    pub fn get_selected_window(&self) -> (r: Option<&Window>)
        ensures
            same_entry(r, picked(self.windows@, self.window_list_state)),
    {
        match self.window_list_state.cursor {
            Some(i) => if i < self.windows.len() { Some(&self.windows[i]) } else { None },
            None => None,
        }
    }

    pub fn get_selected_pane(&self) -> (r: Option<&Pane>)
        ensures
            same_entry(r, picked(self.panes@, self.pane_list_state)),
    {
        match self.pane_list_state.cursor {
            Some(i) => if i < self.panes.len() { Some(&self.panes[i]) } else { None },
            None => None,
        }
    }

    /// The state after the focused cursor moved to `cursor`: the lists stand,
    /// the other cursors too, and the listing that follows is a full refresh
    /// for the sessions, the panes of the new window for the windows, and
    /// none for the panes.
    pub open spec fn moved(
        self,
        pre: App,
        cursor: Option<usize>,
        next: Option<(FocusArea, Seq<Seq<char>>)>,
    ) -> bool {
        &&& self.sessions@ == pre.sessions@
        &&& self.windows@ == pre.windows@
        &&& self.panes@ == pre.panes@
        &&& match pre.focus {
            FocusArea::Sessions => {
                &&& self.session_list_state.cursor == cursor
                &&& self.window_list_state == pre.window_list_state
                &&& self.pane_list_state == pre.pane_list_state
                &&& next == Some((FocusArea::Sessions, list_sessions_cmd()))
            },
            FocusArea::Windows => {
                &&& self.session_list_state == pre.session_list_state
                &&& self.window_list_state.cursor == cursor
                &&& self.pane_list_state == pre.pane_list_state
                &&& next == self.panes_fetch()
            },
            FocusArea::Panes => {
                &&& self.session_list_state == pre.session_list_state
                &&& self.window_list_state == pre.window_list_state
                &&& self.pane_list_state.cursor == cursor
                &&& next is None
            },
        }
    }

    /// The cursor of the focused list and that list's length.
    pub open spec fn focused(self) -> (Option<usize>, nat) {
        match self.focus {
            FocusArea::Sessions => (self.session_list_state.cursor, self.sessions@.len()),
            FocusArea::Windows => (self.window_list_state.cursor, self.windows@.len()),
            FocusArea::Panes => (self.pane_list_state.cursor, self.panes@.len()),
        }
    }

    /// Moves the focused cursor down, wrapping to the top, and names the
    /// listing that the move makes stale.
    pub fn nav_down(&mut self) -> (r: Option<Fetch>)
        requires
            old(self).wf(),
        ensures
            final(self).wf(),
            final(self).same_controls(*old(self)),
            final(self).moved(
                *old(self),
                next_cursor(old(self).focused().0, old(self).focused().1),
                fetch_view(r),
            ),
    {
        match self.focus {
            FocusArea::Sessions => {
                self.session_list_state.next(self.sessions.len());
                Some(self.refresh_all())
            },
            FocusArea::Windows => {
                self.window_list_state.next(self.windows.len());
                self.refresh_panes_only()
            },
            FocusArea::Panes => {
                self.pane_list_state.next(self.panes.len());
                None
            },
        }
    }

    /// Moves the focused cursor up, wrapping to the bottom, and names the
    /// listing that the move makes stale.
    pub fn nav_up(&mut self) -> (r: Option<Fetch>)
        requires
            old(self).wf(),
        ensures
            final(self).wf(),
            final(self).same_controls(*old(self)),
            final(self).moved(
                *old(self),
                prev_cursor(old(self).focused().0, old(self).focused().1),
                fetch_view(r),
            ),
    {
        match self.focus {
            FocusArea::Sessions => {
                self.session_list_state.prev(self.sessions.len());
                Some(self.refresh_all())
            },
            FocusArea::Windows => {
                self.window_list_state.prev(self.windows.len());
                self.refresh_panes_only()
            },
            FocusArea::Panes => {
                self.pane_list_state.prev(self.panes.len());
                None
            },
        }
    }

    /// Moves the focus to the next list: sessions, windows, panes, sessions.
    pub fn cycle_focus(&mut self)
        ensures
            final(self).refocused(*old(self), next_focus(old(self).focus)),
    {
        self.focus = match self.focus {
            FocusArea::Sessions => FocusArea::Windows,
            FocusArea::Windows => FocusArea::Panes,
            FocusArea::Panes => FocusArea::Sessions,
        };
    }

    /// Moves the focus to the previous list: sessions, panes, windows,
    /// sessions.
    pub fn cycle_focus_back(&mut self)
        ensures
            final(self).refocused(*old(self), prev_focus(old(self).focus)),
    {
        self.focus = match self.focus {
            FocusArea::Sessions => FocusArea::Panes,
            FocusArea::Windows => FocusArea::Sessions,
            FocusArea::Panes => FocusArea::Windows,
        };
    }
}

/// Moving the sessions cursor re-fetches from the root: the listing that
/// follows is the sessions, and once they are in, the windows are fetched
/// anew for the selected session, or cleared together with the panes.
pub proof fn lemma_session_move_refetches_children(
    pre: App,
    mid: App,
    post: App,
    cursor: Option<usize>,
    next: Option<(FocusArea, Seq<Seq<char>>)>,
    output: Option<Seq<char>>,
    then: Option<(FocusArea, Seq<Seq<char>>)>,
)
    requires
        pre.focus == FocusArea::Sessions,
        mid.moved(pre, cursor, next),
        post.after_sessions(mid, output, then),
    ensures
        next == Some((FocusArea::Sessions, list_sessions_cmd())),
        match picked(post.sessions@, post.session_list_state) {
            Some(s) => then == Some((FocusArea::Windows, list_windows_cmd(s.id@))),
            None => post.windows@.len() == 0 && post.panes@.len() == 0 && then is None,
        },
{
}

/// Moving the windows cursor leaves the sessions and the windows as they
/// are and re-fetches only the panes, those of the newly selected window.
pub proof fn lemma_window_move_refetches_panes_only(
    pre: App,
    post: App,
    cursor: Option<usize>,
    next: Option<(FocusArea, Seq<Seq<char>>)>,
)
    requires
        pre.focus == FocusArea::Windows,
        post.moved(pre, cursor, next),
    ensures
        post.sessions@ == pre.sessions@,
        post.session_list_state == pre.session_list_state,
        post.windows@ == pre.windows@,
        post.window_list_state.cursor == cursor,
        next == match picked(post.windows@, post.window_list_state) {
            Some(w) => Some((FocusArea::Panes, list_panes_cmd(w.id@))),
            None => None,
        },
{
}

} // verus!
