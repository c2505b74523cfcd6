//! Tests for the listing parsers.

use sesh::model::{SessionStatus, WindowActivity};
use sesh::parser::{
    is_no_sessions, parse_hardcopy, parse_query_response, parse_session_list, parse_socket_dir,
    parse_status, parse_window_flags, parse_window_list,
};

#[test]
fn test_parse_session_list() {
    let output = "There are screens on:\n\t12345.dev-server\t(01/15/2024 10:30:45 AM)\t(Attached)\n\t67890.build\t(01/14/2024 09:00:00 AM)\t(Detached)\n2 Sockets in /run/screen/S-user.\n";

    let sessions = parse_session_list(output, None);
    assert_eq!(sessions.len(), 2);

    assert_eq!(sessions[0].name, "dev-server");
    assert_eq!(sessions[0].pid, 12345);
    assert_eq!(sessions[0].status, SessionStatus::Attached);

    assert_eq!(sessions[1].name, "build");
    assert_eq!(sessions[1].pid, 67890);
    assert_eq!(sessions[1].status, SessionStatus::Detached);
}

#[test]
fn test_parse_session_list_with_host() {
    let output = "There is a screen on:\n\t11111.remote-session\t(01/10/2024 08:00:00 AM)\t(Detached)\n1 Socket in /run/screen/S-deploy.\n";

    let sessions = parse_session_list(output, Some("server.example.com"));
    assert_eq!(sessions.len(), 1);
    assert_eq!(sessions[0].host, Some("server.example.com".to_string()));
}

#[test]
fn test_parse_session_list_empty() {
    let output = "No Sockets found in /run/screen/S-user.\n";
    let sessions = parse_session_list(output, None);
    assert!(sessions.is_empty());
}

#[test]
fn test_parse_session_list_multi_status() {
    let output = "There is a screen on:\n\t99999.shared-session\t(01/20/2024 12:00:00 PM)\t(Multi)\n1 Socket in /run/screen/S-user.\n";
    let sessions = parse_session_list(output, None);
    assert_eq!(sessions.len(), 1);
    assert_eq!(sessions[0].status, SessionStatus::Multi);
}

#[test]
fn test_parse_session_id_format() {
    let output = "\t12345.dev\t(01/15/2024 10:30:45 AM)\t(Attached)\n";
    let sessions = parse_session_list(output, None);
    assert_eq!(sessions.len(), 1);
    assert_eq!(sessions[0].id, "12345.dev");
    assert_eq!(sessions[0].window_count, 0);
}

#[test]
fn test_parse_window_list() {
    // Standard screen window format: number[flags] name
    let output = "0 bash  1 vim  2$ editor  3 shell";

    let windows = parse_window_list(output);
    assert_eq!(windows.len(), 4);

    assert_eq!(windows[0].number, 0);
    assert_eq!(windows[0].name, "bash");
    assert!(!windows[0].active);

    assert_eq!(windows[2].number, 2);
    assert_eq!(windows[2].name, "editor");
    assert!(windows[2].active);
}

#[test]
fn test_parse_window_list_with_flags() {
    // Window list with various flags
    let output = "0* bash  1- vim  2$ editor";
    let windows = parse_window_list(output);
    assert_eq!(windows.len(), 3);
    assert!(windows[0].active); // * = current
    assert_eq!(windows[1].flags, "-"); // - = previous
    assert!(windows[2].active); // $ = current
}

#[test]
fn test_parse_window_list_multiline() {
    let output = "0 bash\n1 vim\n2$ editor\n3 shell";
    let windows = parse_window_list(output);
    assert_eq!(windows.len(), 4);
    assert_eq!(windows[0].name, "bash");
    assert_eq!(windows[3].name, "shell");
}

#[test]
fn test_parse_window_list_with_bell() {
    let output = "0@ alert  1 normal";
    let windows = parse_window_list(output);
    assert_eq!(windows[0].activity, WindowActivity::Bell);
    assert_eq!(windows[1].activity, WindowActivity::Idle);
}

#[test]
fn test_parse_window_list_empty() {
    let output = "";
    let windows = parse_window_list(output);
    assert!(windows.is_empty());
}

#[test]
fn test_parse_window_list_sorted() {
    let output = "3 late  0 first  2 third  1 second";
    let windows = parse_window_list(output);
    assert_eq!(windows.len(), 4);
    assert_eq!(windows[0].number, 0);
    assert_eq!(windows[1].number, 1);
    assert_eq!(windows[2].number, 2);
    assert_eq!(windows[3].number, 3);
    assert_eq!(windows[0].name, "first");
    assert_eq!(windows[3].name, "late");
}

#[test]
fn test_parse_status() {
    assert_eq!(parse_status("Detached"), SessionStatus::Detached);
    assert_eq!(parse_status("Attached"), SessionStatus::Attached);
    assert_eq!(parse_status("Multi"), SessionStatus::Multi);
    assert_eq!(parse_status("detached"), SessionStatus::Detached);
    assert_eq!(parse_status("ATTACHED"), SessionStatus::Attached);
    assert_eq!(parse_status("unknown"), SessionStatus::Unknown);
}

#[test]
fn test_is_no_sessions() {
    assert!(is_no_sessions("No Sockets found in /run/screen/S-user."));
    assert!(is_no_sessions("No sessions found."));
    assert!(!is_no_sessions("There is a screen on:"));
    assert!(!is_no_sessions("There are screens on:"));
}

#[test]
fn test_parse_hardcopy() {
    let content = "Line 1   \nLine 2\n  Line 3  \n";
    let lines = parse_hardcopy(content);

    assert_eq!(lines.len(), 3);
    assert_eq!(lines[0], "Line 1");
    assert_eq!(lines[1], "Line 2");
    assert_eq!(lines[2], "  Line 3"); // Leading space preserved
}

#[test]
fn test_parse_hardcopy_empty() {
    let content = "";
    let lines = parse_hardcopy(content);
    assert!(lines.is_empty());
}

#[test]
fn test_parse_query_response() {
    assert_eq!(
        parse_query_response("  result  "),
        Some("result".to_string())
    );
    assert_eq!(parse_query_response("-1"), None);
    assert_eq!(parse_query_response(""), None);
    assert_eq!(parse_query_response("   "), None);
}

#[test]
fn test_parse_socket_dir() {
    let output = "No Sockets found in /run/screen/S-testuser.";
    assert_eq!(
        parse_socket_dir(output),
        Some("/run/screen/S-testuser".to_string())
    );

    let output2 = "There is a screen on:\n\t12345.test\nSocket in /run/screen/S-user.";
    assert_eq!(
        parse_socket_dir(output2),
        Some("/run/screen/S-user".to_string())
    );
}

#[test]
fn test_parse_socket_dir_none() {
    assert_eq!(parse_socket_dir("There is a screen on:"), None);
    assert_eq!(parse_socket_dir("Socket without a path"), None);
}

#[test]
fn test_window_flags_parsing() {
    assert_eq!(parse_window_flags("*$"), WindowActivity::Active);
    assert_eq!(parse_window_flags("+"), WindowActivity::Running);
    assert_eq!(parse_window_flags("@"), WindowActivity::Bell);
    assert_eq!(parse_window_flags("-"), WindowActivity::Idle);
    assert_eq!(parse_window_flags(""), WindowActivity::Idle);
}
