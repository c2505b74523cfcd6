//! Tests for the session, window and preview model.

use sesh::model::{Preview, Session, SessionStatus, Window, WindowActivity};

#[test]
fn test_session_creation() {
    let session = Session::new(
        "12345.test".to_string(),
        "test".to_string(),
        12345,
        SessionStatus::Detached,
    );

    assert_eq!(session.name, "test");
    assert_eq!(session.pid, 12345);
    assert!(session.is_local());
    assert!(!session.is_attached());
}

#[test]
fn test_session_remote() {
    let mut session = Session::new(
        "12345.remote".to_string(),
        "remote".to_string(),
        12345,
        SessionStatus::Attached,
    );
    session.host = Some("server.example.com".to_string());

    assert!(!session.is_local());
    assert!(session.is_attached());
    assert_eq!(session.display_name(), "remote@server.example.com");
}

#[test]
fn test_window_creation() {
    let window = Window::new(0, "bash".to_string());

    assert_eq!(window.number, 0);
    assert_eq!(window.name, "bash");
    assert!(!window.active);
    assert_eq!(window.activity, WindowActivity::Idle);
}

#[test]
fn test_session_status_variants() {
    let statuses = vec![
        (SessionStatus::Detached, false),
        (SessionStatus::Attached, true),
        (SessionStatus::Multi, true),
        (SessionStatus::Unknown, false),
    ];

    for (status, expected_attached) in statuses {
        let session = Session::new("1.test".to_string(), "test".to_string(), 1, status);
        assert_eq!(
            session.is_attached(),
            expected_attached,
            "Status {:?} should return {} for is_attached",
            status,
            expected_attached
        );
    }
}

#[test]
fn test_session_display_name() {
    let mut session = Session::new(
        "12345.dev".to_string(),
        "dev".to_string(),
        12345,
        SessionStatus::Detached,
    );

    assert_eq!(session.display_name(), "dev");

    session.host = Some("server.example.com".to_string());
    assert_eq!(session.display_name(), "dev@server.example.com");
}

#[test]
fn test_session_status_display() {
    assert_eq!(SessionStatus::Detached.as_str(), "detached");
    assert_eq!(SessionStatus::Attached.as_str(), "attached");
    assert_eq!(SessionStatus::Multi.as_str(), "multi");
}

#[test]
fn test_window_activity_display() {
    assert_eq!(WindowActivity::Idle.as_str(), "idle");
    assert_eq!(WindowActivity::Active.as_str(), "active");
    assert_eq!(WindowActivity::Bell.as_str(), "bell");
    assert_eq!(WindowActivity::Running.as_str(), "running");
}

#[test]
fn test_session_age_string() {
    let mut session = Session::new("1.a".to_string(), "a".to_string(), 1, SessionStatus::Detached);
    session.created = 1000;
    assert_eq!(session.age_string(1000 + 3 * 86400), "3d");
    assert_eq!(session.age_string(1000 + 2 * 3600), "2h");
    assert_eq!(session.age_string(1000 + 5 * 60), "5m");
    assert_eq!(session.age_string(1000 + 30), "now");
    assert_eq!(session.age_string(500), "now");
}

#[test]
fn test_preview_scrolling() {
    let mut preview = Preview {
        lines: (0..100).map(|i| format!("Line {}", i)).collect(),
        total_lines: 100,
        scroll_offset: 0,
        updating: false,
    };

    assert_eq!(preview.scroll_offset, 0);

    preview.scroll_down(10, 20);
    assert_eq!(preview.scroll_offset, 10);

    preview.scroll_up(5);
    assert_eq!(preview.scroll_offset, 5);

    // Can't scroll past beginning
    preview.scroll_up(100);
    assert_eq!(preview.scroll_offset, 0);

    // Can't scroll past end
    preview.scroll_down(200, 20);
    assert_eq!(preview.scroll_offset, 80); // 100 - 20
}

#[test]
fn test_preview_empty() {
    let preview = Preview::new();
    assert!(preview.lines.is_empty());
    assert_eq!(preview.total_lines, 0);
    assert_eq!(preview.scroll_offset, 0);
}

#[test]
fn test_preview_visible_lines() {
    let preview = Preview {
        lines: vec![
            "Line 1".to_string(),
            "Line 2".to_string(),
            "Line 3".to_string(),
            "Line 4".to_string(),
            "Line 5".to_string(),
        ],
        total_lines: 5,
        scroll_offset: 0,
        updating: false,
    };

    let visible = preview.visible_lines(3);
    assert_eq!(visible.len(), 3);
    assert_eq!(visible[0], (1, "Line 1".to_string()));
    assert_eq!(visible[1], (2, "Line 2".to_string()));
    assert_eq!(visible[2], (3, "Line 3".to_string()));
}

#[test]
fn test_preview_scroll() {
    let mut preview = Preview {
        lines: (1..=20).map(|i| format!("Line {}", i)).collect(),
        total_lines: 20,
        scroll_offset: 0,
        updating: false,
    };

    // Scroll down
    preview.scroll_down(5, 10);
    assert_eq!(preview.scroll_offset, 5);

    // Scroll up
    preview.scroll_up(2);
    assert_eq!(preview.scroll_offset, 3);

    // Check visible lines after scroll
    let visible = preview.visible_lines(5);
    assert_eq!(visible[0], (4, "Line 4".to_string()));
}

#[test]
fn test_preview_scroll_clamps() {
    // Twenty lines in a ten-line viewport: down five lands on five, a
    // large scroll up stops at the top, a large scroll down stops where
    // the last ten lines begin.
    let mut preview = Preview {
        lines: (0..20).map(|i| format!("l{}", i)).collect(),
        total_lines: 20,
        scroll_offset: 0,
        updating: false,
    };
    preview.scroll_down(5, 10);
    assert_eq!(preview.scroll_offset, 5);
    preview.scroll_up(20);
    assert_eq!(preview.scroll_offset, 0);
    preview.scroll_down(100, 10);
    assert_eq!(preview.scroll_offset, 10);
}
