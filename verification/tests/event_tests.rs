//! Tests for the action resolver and text helpers.

use sesh::event::{key_to_action, mouse_to_action, Action, Key, KeyPress, MouseKind, MousePress};
use sesh::text::{format_session_count, format_time_ago, format_window_count, truncate_str};

fn key(code: Key) -> KeyPress {
    KeyPress { code, ctrl: false }
}

#[test]
fn test_normal_mode_navigation() {
    assert_eq!(key_to_action(key(Key::Char('j')), false, false), Action::Down);

    assert_eq!(key_to_action(key(Key::Char('k')), false, false), Action::Up);

    assert_eq!(key_to_action(key(Key::Char('q')), false, false), Action::Quit);
}

#[test]
fn test_input_mode() {
    assert_eq!(
        key_to_action(key(Key::Char('a')), true, false),
        Action::InputChar('a')
    );

    assert_eq!(key_to_action(key(Key::Esc), true, false), Action::InputCancel);
}

#[test]
fn test_search_mode() {
    assert_eq!(
        key_to_action(key(Key::Char('x')), false, true),
        Action::InputChar('x')
    );

    assert_eq!(key_to_action(key(Key::Esc), false, true), Action::ClearSearch);
}

#[test]
fn test_force_quit_needs_control() {
    assert_eq!(
        key_to_action(KeyPress { code: Key::Char('c'), ctrl: true }, false, false),
        Action::ForceQuit
    );
    assert_eq!(
        key_to_action(KeyPress { code: Key::Char('c'), ctrl: false }, false, false),
        Action::Noop
    );
}

#[test]
fn test_mouse_to_action() {
    let bounds = (2, 3, 10, 5);
    let click = MousePress { kind: MouseKind::LeftDown, column: 4, row: 6 };
    assert_eq!(mouse_to_action(click, bounds), Some((Action::Select, 3)));

    let outside = MousePress { kind: MouseKind::LeftDown, column: 1, row: 6 };
    assert_eq!(mouse_to_action(outside, bounds), None);

    let scroll = MousePress { kind: MouseKind::ScrollUp, column: 2, row: 3 };
    assert_eq!(mouse_to_action(scroll, bounds), Some((Action::Up, 0)));
}

#[test]
fn test_format_session_count() {
    assert_eq!(format_session_count(3, 0), "3");
    assert_eq!(format_session_count(3, 2), "3 local, 2 remote");
}

#[test]
fn test_format_window_count() {
    assert_eq!(format_window_count(1), "1 win");
    assert_eq!(format_window_count(5), "5 win");
}

#[test]
fn test_format_time_ago() {
    assert_eq!(format_time_ago("3d"), "3d");
}

#[test]
fn test_truncate_str() {
    assert_eq!(truncate_str("short", 10), "short");
    assert_eq!(truncate_str("a-very-long-name", 10), "a-very-...");
    assert_eq!(truncate_str("abcdef", 6), "abcdef");
}
