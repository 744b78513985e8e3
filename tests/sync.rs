use tmux_manager::app::{App, Fetch, FocusArea};

/// A multiplexer with sessions A ($1: windows @1, @2) and B ($2: window @3).
fn two_sessions(args: &[String]) -> Option<String> {
    let a: Vec<&str> = args.iter().map(|s| s.as_str()).collect();
    match a.as_slice() {
        ["list-sessions", ..] => Some("$1|A|2|t\n$2|B|1|t".to_string()),
        ["list-windows", "-t", "$1", ..] => Some("@1|one|1|l\n@2|two|0|l".to_string()),
        ["list-windows", "-t", "$2", ..] => Some("@3|three|1|l".to_string()),
        ["list-panes", "-t", "@1", ..] => Some("%1|80|24|/|sh|1\n%2|80|24|/|vim|0".to_string()),
        ["list-panes", "-t", "@2", ..] => Some("%3|80|24|/|top|1".to_string()),
        ["list-panes", "-t", "@3", ..] => Some("%4|80|24|/|sh|1".to_string()),
        _ => None,
    }
}

/// Runs a chain of listings against `answer`, returning the commands run.
fn run(app: &mut App, first: Option<Fetch>, answer: &dyn Fn(&[String]) -> Option<String>) -> Vec<String> {
    let mut log = Vec::new();
    let mut next = first;
    while let Some(f) = next {
        log.push(f.args[0].clone() + " " + f.args.get(2).map(|s| s.as_str()).unwrap_or(""));
        let out = answer(&f.args);
        next = app.receive(f.level, out.as_deref());
    }
    log
}

fn loaded() -> App {
    let (mut app, first) = App::new();
    run(&mut app, Some(first), &two_sessions);
    app
}

#[test]
fn full_refresh_fills_all_levels() {
    let app = loaded();
    assert_eq!(app.sessions.len(), 2);
    assert_eq!(app.windows.len(), 2);
    assert_eq!(app.panes.len(), 2);
    assert_eq!(app.session_list_state.cursor, Some(0));
    assert_eq!(app.window_list_state.cursor, Some(0));
    assert_eq!(app.pane_list_state.cursor, Some(0));
    assert_eq!(app.get_selected_session().unwrap().name, "A");
    assert_eq!(app.get_selected_window().unwrap().id, "@1");
    assert_eq!(app.get_selected_pane().unwrap().id, "%1");
}

#[test]
fn session_moves_refetch_windows_with_wrap() {
    let mut app = loaded();
    let f = app.nav_down();
    assert_eq!(app.session_list_state.cursor, Some(1));
    let log = run(&mut app, f, &two_sessions);
    assert_eq!(log, vec!["list-sessions #{session_id}|#{session_name}|#{session_windows}|#{session_created_string}", "list-windows $2", "list-panes @3"]);
    assert_eq!(app.windows.len(), 1);
    assert_eq!(app.windows[0].id, "@3");
    assert_eq!(app.panes[0].id, "%4");
    let f = app.nav_down();
    assert_eq!(app.session_list_state.cursor, Some(0));
    let log = run(&mut app, f, &two_sessions);
    assert_eq!(log[1], "list-windows $1");
    assert_eq!(app.windows.len(), 2);
    assert_eq!(app.windows[0].id, "@1");
}

#[test]
fn window_moves_refetch_only_panes() {
    let mut app = loaded();
    app.cycle_focus();
    assert_eq!(app.focus, FocusArea::Windows);
    let f = app.nav_down();
    let log = run(&mut app, f, &two_sessions);
    assert_eq!(log, vec!["list-panes @2"]);
    assert_eq!(app.window_list_state.cursor, Some(1));
    assert_eq!(app.windows.len(), 2);
    assert_eq!(app.panes.len(), 1);
    assert_eq!(app.panes[0].id, "%3");
}

#[test]
fn pane_moves_fetch_nothing() {
    let mut app = loaded();
    app.cycle_focus_back();
    assert_eq!(app.focus, FocusArea::Panes);
    assert!(app.nav_up().is_none());
    assert_eq!(app.pane_list_state.cursor, Some(1));
}

#[test]
fn deleted_last_pane_moves_cursor_to_new_last() {
    let mut app = loaded();
    let three = |args: &[String]| -> Option<String> {
        if args[0] == "list-panes" {
            Some("%1|1|1|/|sh|1\n%2|1|1|/|sh|0\n%5|1|1|/|sh|0".to_string())
        } else {
            two_sessions(args)
        }
    };
    let f = app.refresh_panes_only();
    run(&mut app, f, &three);
    assert_eq!(app.panes.len(), 3);
    app.focus = FocusArea::Panes;
    app.nav_up();
    assert_eq!(app.pane_list_state.cursor, Some(2));
    let f = app.refresh_panes_only();
    run(&mut app, f, &two_sessions);
    assert_eq!(app.panes.len(), 2);
    assert_eq!(app.pane_list_state.cursor, Some(1));
}

#[test]
fn no_sessions_clears_windows_and_panes() {
    let mut app = loaded();
    let none = |args: &[String]| -> Option<String> {
        if args[0] == "list-sessions" { Some(String::new()) } else { two_sessions(args) }
    };
    let f = app.refresh_all();
    let log = run(&mut app, Some(f), &none);
    assert_eq!(log.len(), 1);
    assert!(app.sessions.is_empty());
    assert!(app.windows.is_empty());
    assert!(app.panes.is_empty());
    assert_eq!(app.session_list_state.cursor, None);
    assert_eq!(app.window_list_state.cursor, None);
    assert_eq!(app.pane_list_state.cursor, None);
}

#[test]
fn failed_listing_degrades_to_empty() {
    let mut app = loaded();
    let down = |_: &[String]| -> Option<String> { None };
    let f = app.refresh_all();
    run(&mut app, Some(f), &down);
    assert!(app.sessions.is_empty());
    assert!(app.windows.is_empty());
    assert!(app.panes.is_empty());
}

#[test]
fn panes_only_refresh_without_window_does_nothing() {
    let (app, _) = App::new();
    assert!(app.refresh_panes_only().is_none());
}

#[test]
fn new_app_starts_with_sessions_listing() {
    let (app, first) = App::new();
    assert_eq!(first.level, FocusArea::Sessions);
    assert_eq!(first.args[0], "list-sessions");
    assert!(app.sessions.is_empty());
    assert_eq!(app.focus, FocusArea::Sessions);
}

#[test]
fn windows_listing_without_selected_session_is_dropped() {
    let (mut app, _) = App::new();
    let next = app.receive(FocusArea::Windows, Some("@1|one|1|l"));
    assert!(next.is_none());
    assert!(app.windows.is_empty());
    assert_eq!(app.window_list_state.cursor, None);
}

#[test]
fn panes_listing_without_selected_window_is_dropped() {
    let (mut app, _) = App::new();
    let next = app.receive(FocusArea::Panes, Some("%1|1|1|/|sh|1"));
    assert!(next.is_none());
    assert!(app.panes.is_empty());
    assert_eq!(app.pane_list_state.cursor, None);
}
