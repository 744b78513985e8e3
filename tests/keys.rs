use tmux_manager::app::{App, AppState, Fetch, FocusArea};
use tmux_manager::dispatch::Key;

fn answer(args: &[String]) -> Option<String> {
    let a: Vec<&str> = args.iter().map(|s| s.as_str()).collect();
    match a.as_slice() {
        ["list-sessions", ..] => Some("$1|main|1|t".to_string()),
        ["list-windows", "-t", "$1", ..] => Some("@1|edit|1|l".to_string()),
        ["list-panes", "-t", "@1", ..] => Some("%1|80|24|/|sh|1".to_string()),
        _ => None,
    }
}

fn run(app: &mut App, first: Option<Fetch>) {
    let mut next = first;
    while let Some(f) = next {
        let out = answer(&f.args);
        next = app.receive(f.level, out.as_deref());
    }
}

fn loaded() -> App {
    let (mut app, first) = App::new();
    run(&mut app, Some(first));
    app
}

fn strs(v: &[&str]) -> Vec<String> {
    v.iter().map(|s| s.to_string()).collect()
}

fn type_text(app: &mut App, text: &str) {
    for c in text.chars() {
        let r = app.handle_key(Key::Char(c));
        assert!(r.commands.is_empty());
    }
}

#[test]
fn new_session_submits_trimmed_name() {
    let mut app = loaded();
    app.handle_key(Key::Char('n'));
    assert_eq!(app.state, AppState::InputNewSession);
    assert_eq!(app.input_buffer, "");
    type_text(&mut app, "  dev x");
    app.handle_key(Key::Backspace);
    app.handle_key(Key::Backspace);
    type_text(&mut app, " ");
    let r = app.handle_key(Key::Enter);
    assert_eq!(app.state, AppState::Normal);
    assert_eq!(r.commands, vec![strs(&["new-session", "-d", "-s", "dev"])]);
    assert_eq!(r.fetch.unwrap().level, FocusArea::Sessions);
}

#[test]
fn blank_name_submits_nothing() {
    let mut app = loaded();
    app.handle_key(Key::Char('n'));
    type_text(&mut app, "   ");
    let r = app.handle_key(Key::Enter);
    assert!(r.commands.is_empty());
    assert_eq!(app.state, AppState::Normal);
    assert!(r.fetch.is_some());
}

#[test]
fn rename_session_starts_from_current_name() {
    let mut app = loaded();
    app.handle_key(Key::Char('R'));
    assert_eq!(app.state, AppState::InputRenameSession);
    assert_eq!(app.input_buffer, "main");
    type_text(&mut app, "2");
    let r = app.handle_key(Key::Enter);
    assert_eq!(r.commands, vec![strs(&["rename-session", "-t", "main", "main2"])]);
}

#[test]
fn new_and_rename_window() {
    let mut app = loaded();
    app.handle_key(Key::Tab);
    app.handle_key(Key::Char('n'));
    assert_eq!(app.state, AppState::InputNewWindow);
    type_text(&mut app, "logs");
    let r = app.handle_key(Key::Enter);
    assert_eq!(r.commands, vec![strs(&["new-window", "-t", "$1", "-n", "logs"])]);
    app.handle_key(Key::Char('R'));
    assert_eq!(app.input_buffer, "edit");
    app.handle_key(Key::Esc);
    assert_eq!(app.state, AppState::Normal);
}

#[test]
fn new_window_needs_a_session() {
    let (mut app, _) = App::new();
    app.handle_key(Key::Right);
    let r = app.handle_key(Key::Char('n'));
    assert_eq!(app.state, AppState::Normal);
    assert!(r.commands.is_empty());
}

#[test]
fn new_pane_splits_selected_window() {
    let mut app = loaded();
    app.handle_key(Key::BackTab);
    assert_eq!(app.focus, FocusArea::Panes);
    let r = app.handle_key(Key::Char('n'));
    assert_eq!(r.commands, vec![strs(&["split-window", "-t", "@1"])]);
    assert!(r.fetch.is_some());
}

#[test]
fn delete_asks_then_kills() {
    let mut app = loaded();
    app.handle_key(Key::Char('d'));
    assert_eq!(app.state, AppState::ConfirmDeleteSession);
    let r = app.handle_key(Key::Char('y'));
    assert_eq!(r.commands, vec![strs(&["kill-session", "-t", "main"])]);
    assert_eq!(app.state, AppState::Normal);

    app.handle_key(Key::Tab);
    app.handle_key(Key::Char('d'));
    assert_eq!(app.state, AppState::ConfirmDeleteWindow);
    let r = app.handle_key(Key::Enter);
    assert_eq!(r.commands, vec![strs(&["kill-window", "-t", "@1"])]);

    app.handle_key(Key::Tab);
    app.handle_key(Key::Char('d'));
    assert_eq!(app.state, AppState::ConfirmDeletePane);
    let r = app.handle_key(Key::Char('n'));
    assert!(r.commands.is_empty());
    assert_eq!(app.state, AppState::Normal);
}

#[test]
fn delete_with_nothing_selected_is_prevented() {
    let (mut app, _) = App::new();
    app.handle_key(Key::Char('d'));
    assert_eq!(app.state, AppState::Normal);
}

#[test]
fn attach_from_each_level() {
    let mut app = loaded();
    let r = app.handle_key(Key::Enter);
    assert!(r.commands.is_empty());
    assert!(app.should_quit);
    assert_eq!(app.target_attach.as_deref(), Some("main"));

    let mut app = loaded();
    app.handle_key(Key::Tab);
    let r = app.handle_key(Key::Enter);
    assert_eq!(r.commands, vec![strs(&["select-window", "-t", "@1"])]);
    assert_eq!(app.target_attach.as_deref(), Some("main"));

    let mut app = loaded();
    app.handle_key(Key::Left);
    let r = app.handle_key(Key::Enter);
    assert_eq!(
        r.commands,
        vec![strs(&["select-window", "-t", "@1"]), strs(&["select-pane", "-t", "%1"])]
    );
    assert!(app.should_quit);
}

#[test]
fn quit_and_refresh_keys() {
    let mut app = loaded();
    let r = app.handle_key(Key::Char('r'));
    assert_eq!(r.fetch.unwrap().level, FocusArea::Sessions);
    assert!(!app.should_quit);
    app.handle_key(Key::Char('q'));
    assert!(app.should_quit);
    assert!(app.target_attach.is_none());
}

#[test]
fn submission_commands_take_given_text() {
    let mut app = loaded();
    app.state = AppState::InputRenameWindow;
    assert_eq!(app.submission_commands("x"), vec![strs(&["rename-window", "-t", "@1", "x"])]);
    assert!(app.submission_commands("").is_empty());
    app.input_buffer = " y\t".to_string();
    assert_eq!(app.handle_input_submission(), vec![strs(&["rename-window", "-t", "@1", "y"])]);
}

#[test]
fn blank_name_of_tabs_submits_nothing() {
    let mut app = loaded();
    app.state = AppState::InputNewSession;
    app.input_buffer = "\t \t".to_string();
    assert!(app.handle_input_submission().is_empty());
}
