use vstd::prelude::*;

verus! {

/// One session as the multiplexer lists it.
#[derive(Clone, Debug)]
pub struct Session {
    pub id: String,
    pub name: String,
    pub count: String,
    pub created: String,
}

/// One window of a session.
#[derive(Clone, Debug)]
pub struct Window {
    pub id: String,
    pub name: String,
    pub active: bool,
    pub layout: String,
}

/// One pane of a window.
#[derive(Clone, Debug)]
pub struct Pane {
    pub id: String,
    pub width: String,
    pub height: String,
    pub current_path: String,
    pub current_command: String,
    pub active: bool,
}

pub struct SessionView {
    pub id: Seq<char>,
    pub name: Seq<char>,
    pub count: Seq<char>,
    pub created: Seq<char>,
}

pub struct WindowView {
    pub id: Seq<char>,
    pub name: Seq<char>,
    pub active: bool,
    pub layout: Seq<char>,
}

pub struct PaneView {
    pub id: Seq<char>,
    pub width: Seq<char>,
    pub height: Seq<char>,
    pub current_path: Seq<char>,
    pub current_command: Seq<char>,
    pub active: bool,
}

impl View for Session {
    type V = SessionView;

    open spec fn view(&self) -> SessionView {
        SessionView {
            id: self.id@,
            name: self.name@,
            count: self.count@,
            created: self.created@,
        }
    }
}

impl View for Window {
    type V = WindowView;

    open spec fn view(&self) -> WindowView {
        WindowView { id: self.id@, name: self.name@, active: self.active, layout: self.layout@ }
    }
}

impl View for Pane {
    type V = PaneView;

    open spec fn view(&self) -> PaneView {
        PaneView {
            id: self.id@,
            width: self.width@,
            height: self.height@,
            current_path: self.current_path@,
            current_command: self.current_command@,
            active: self.active,
        }
    }
}

pub open spec fn session_views(v: Seq<Session>) -> Seq<SessionView> {
    v.map_values(|x: Session| x@)
}

pub open spec fn window_views(v: Seq<Window>) -> Seq<WindowView> {
    v.map_values(|x: Window| x@)
}

pub open spec fn pane_views(v: Seq<Pane>) -> Seq<PaneView> {
    v.map_values(|x: Pane| x@)
}

} // verus!
