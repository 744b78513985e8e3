use tmux_manager::text::{non_empty_lines, split_on};
use tmux_manager::tmux::{
    create_pane, create_session, create_window, get_panes, get_sessions, get_windows, kill_pane,
    kill_session, kill_window, list_panes_args, list_sessions_args, list_windows_args,
    parse_pane, parse_session, parse_window, rename_session, rename_window, select_pane,
    select_window,
};

fn strs(v: &[&str]) -> Vec<String> {
    v.iter().map(|s| s.to_string()).collect()
}

#[test]
fn split_keeps_empty_pieces() {
    assert_eq!(split_on("a||b|", '|'), strs(&["a", "", "b", ""]));
    assert_eq!(split_on("", '|'), strs(&[""]));
    assert_eq!(split_on("abc", '|'), strs(&["abc"]));
}

#[test]
fn lines_skip_empty_and_strip_cr() {
    assert_eq!(non_empty_lines("a\r\n\nb\n\r\nc"), strs(&["a", "b", "c"]));
    assert_eq!(non_empty_lines(""), Vec::<String>::new());
    assert_eq!(non_empty_lines("x\n"), strs(&["x"]));
}

#[test]
fn session_line_full() {
    let s = parse_session("$1|work|3|Mon Jan  1 10:00:00 2024");
    assert_eq!(s.id, "$1");
    assert_eq!(s.name, "work");
    assert_eq!(s.count, "3");
    assert_eq!(s.created, "Mon Jan  1 10:00:00 2024");
}

#[test]
fn session_line_short_defaults() {
    let s = parse_session("$2|solo");
    assert_eq!(s.id, "$2");
    assert_eq!(s.name, "solo");
    assert_eq!(s.count, "0");
    assert_eq!(s.created, "");
    let s = parse_session("$3");
    assert_eq!(s.name, "");
    assert_eq!(s.count, "0");
}

#[test]
fn window_line_flags() {
    let w = parse_window("@1|editor|1|b25f,80x24,0,0,1");
    assert_eq!(w.id, "@1");
    assert_eq!(w.name, "editor");
    assert!(w.active);
    assert_eq!(w.layout, "b25f,80x24,0,0,1");
    let w = parse_window("@2|shell|0|x");
    assert!(!w.active);
    let w = parse_window("@3|short");
    assert!(!w.active);
    assert_eq!(w.layout, "");
}

#[test]
fn pane_line_full_and_short() {
    let p = parse_pane("%4|80|24|/home/u|vim|1");
    assert_eq!(p.id, "%4");
    assert_eq!(p.width, "80");
    assert_eq!(p.height, "24");
    assert_eq!(p.current_path, "/home/u");
    assert_eq!(p.current_command, "vim");
    assert!(p.active);
    let p = parse_pane("%5|10");
    assert_eq!(p.width, "10");
    assert_eq!(p.height, "");
    assert_eq!(p.current_path, "");
    assert_eq!(p.current_command, "");
    assert!(!p.active);
}

#[test]
fn listings_keep_order_and_skip_blank_lines() {
    let s = get_sessions(Some("$1|a|1|t1\n\n$2|b|2|t2"));
    assert_eq!(s.len(), 2);
    assert_eq!(s[0].name, "a");
    assert_eq!(s[1].name, "b");
    let w = get_windows(Some("@1|w|1|l\n@2|v|0|m\n"));
    assert_eq!(w.len(), 2);
    assert_eq!(w[1].id, "@2");
    let p = get_panes(Some("%1|1|2|/|sh|1"));
    assert_eq!(p.len(), 1);
    assert_eq!(p[0].current_command, "sh");
}

#[test]
fn failed_listings_are_empty() {
    assert!(get_sessions(None).is_empty());
    assert!(get_windows(None).is_empty());
    assert!(get_panes(None).is_empty());
    assert!(get_sessions(Some("")).is_empty());
}

#[test]
fn listing_commands() {
    assert_eq!(
        list_sessions_args(),
        strs(&["list-sessions", "-F", "#{session_id}|#{session_name}|#{session_windows}|#{session_created_string}"])
    );
    assert_eq!(
        list_windows_args("$1"),
        strs(&["list-windows", "-t", "$1", "-F", "#{window_id}|#{window_name}|#{window_active}|#{window_layout}"])
    );
    assert_eq!(
        list_panes_args("@2"),
        strs(&[
            "list-panes",
            "-t",
            "@2",
            "-F",
            "#{pane_id}|#{pane_width}|#{pane_height}|#{pane_current_path}|#{pane_current_command}|#{pane_active}"
        ])
    );
}

#[test]
fn write_commands() {
    assert_eq!(create_session("dev"), strs(&["new-session", "-d", "-s", "dev"]));
    assert_eq!(rename_session("dev", "ops"), strs(&["rename-session", "-t", "dev", "ops"]));
    assert_eq!(kill_session("dev"), strs(&["kill-session", "-t", "dev"]));
    assert_eq!(create_window("$1", "logs"), strs(&["new-window", "-t", "$1", "-n", "logs"]));
    assert_eq!(rename_window("@1", "build"), strs(&["rename-window", "-t", "@1", "build"]));
    assert_eq!(kill_window("@1"), strs(&["kill-window", "-t", "@1"]));
    assert_eq!(select_window("@1"), strs(&["select-window", "-t", "@1"]));
    assert_eq!(create_pane("@1"), strs(&["split-window", "-t", "@1"]));
    assert_eq!(kill_pane("%3"), strs(&["kill-pane", "-t", "%3"]));
    assert_eq!(select_pane("%3"), strs(&["select-pane", "-t", "%3"]));
}

#[test]
fn short_lines_in_listings_take_defaults() {
    let s = get_sessions(Some("$1|main"));
    assert_eq!(s.len(), 1);
    assert_eq!((s[0].id.as_str(), s[0].name.as_str(), s[0].count.as_str(), s[0].created.as_str()), ("$1", "main", "0", ""));
    let w = get_windows(Some("@3|editor"));
    assert_eq!(w.len(), 1);
    assert_eq!((w[0].id.as_str(), w[0].name.as_str(), w[0].active, w[0].layout.as_str()), ("@3", "editor", false, ""));
    let p = get_panes(Some("%5|80"));
    assert_eq!(p.len(), 1);
    assert_eq!(p[0].id, "%5");
    assert_eq!(p[0].width, "80");
    assert_eq!(p[0].height, "");
    assert_eq!(p[0].current_path, "");
    assert_eq!(p[0].current_command, "");
    assert!(!p[0].active);
}
