//! Tests for the application controller: scenarios driven through
//! `handle_action` and the `finish_*` handlers, exactly as the
//! surrounding binary drives it.

use sesh::app::{App, Command, ConfirmAction, InputMode, InputPurpose, View};
use sesh::event::Action;
use sesh::launch::{attach_spawn_args, get_ssh_args};
use sesh::model::{Session, SessionStatus};
use sesh::settings::Settings;

fn app_with_sessions(sessions: Vec<Session>) -> App {
    let mut app = App::new(Settings::default(), None);
    app.finish_refresh(Ok(sessions), Vec::new());
    app
}

fn session(id: &str, name: &str, pid: u32, status: SessionStatus) -> Session {
    Session::new(id.to_string(), name.to_string(), pid, status)
}

fn type_text(app: &mut App, text: &str) {
    for c in text.chars() {
        let cmds = app.handle_action(Action::InputChar(c));
        assert!(cmds.is_empty());
    }
}

#[test]
fn test_filter_matches_query() {
    // Session list [("12345.dev", Attached), ("999.build", Detached)] and
    // the query "dev": only index 0 survives the filter.
    let mut app = app_with_sessions(vec![
        session("12345.dev", "dev", 12345, SessionStatus::Attached),
        session("999.build", "build", 999, SessionStatus::Detached),
    ]);
    assert_eq!(app.filtered_sessions, vec![0, 1]);

    app.handle_action(Action::StartSearch);
    type_text(&mut app, "dev");
    assert_eq!(app.filtered_sessions, vec![0]);
    assert_eq!(app.session_index, 0);
}

#[test]
fn test_filter_idempotent_scenario() {
    // Re-applying the same query over the same sessions yields the same
    // filtered index list.
    let mut app = app_with_sessions(vec![
        session("1.alpha", "alpha", 1, SessionStatus::Detached),
        session("2.beta", "beta", 2, SessionStatus::Detached),
        session("3.alphabet", "alphabet", 3, SessionStatus::Detached),
    ]);
    app.handle_action(Action::StartSearch);
    type_text(&mut app, "alpha");
    let first = app.filtered_sessions.clone();
    // A refresh with the same sessions re-runs the same filter.
    let sessions = app.sessions.clone();
    app.finish_refresh(Ok(sessions), Vec::new());
    assert_eq!(app.filtered_sessions, first);
}

#[test]
fn test_new_session_flow() {
    // From (Sessions, Normal), the new-session key opens the input prompt;
    // typing "foo" and confirming issues exactly one create command and
    // returns to (Sessions, Normal) with an empty buffer.
    let mut app = app_with_sessions(Vec::new());
    assert_eq!(app.view, View::Sessions);
    assert_eq!(app.input_mode, InputMode::Normal);

    let cmds = app.handle_action(Action::NewSession);
    assert!(cmds.is_empty());
    match &app.input_mode {
        InputMode::Input { purpose, .. } => assert_eq!(*purpose, InputPurpose::NewSession),
        other => panic!("expected input mode, got {:?}", other),
    }

    type_text(&mut app, "foo");
    let cmds = app.handle_action(Action::InputConfirm);
    assert_eq!(
        cmds,
        vec![Command::CreateSession { name: "foo".to_string(), shell: None }]
    );
    assert_eq!(app.view, View::Sessions);
    assert_eq!(app.input_mode, InputMode::Normal);
    assert!(app.input_buffer.is_empty());
}

#[test]
fn test_refresh_partial_failure() {
    // The local listing fails and one of two remote hosts fails: the
    // session list holds only the surviving host's sessions, the local
    // failure is reported, and the remote failure leaves no message.
    let mut app = App::new(Settings::default(), None);
    let remote = session("42.webapp", "webapp", 42, SessionStatus::Detached);
    app.finish_refresh(
        Err("screen not installed".to_string()),
        vec![Err("connection timed out".to_string()), Ok(vec![remote])],
    );
    assert_eq!(app.sessions.len(), 1);
    assert_eq!(app.sessions[0].name, "webapp");
    assert_eq!(
        app.error_message,
        Some("Failed to list local sessions: screen not installed".to_string())
    );
    assert_eq!(app.status_message, None);
}

#[test]
fn test_confirm_kill_flow() {
    // Selecting "kill" binds the exact session id; confirming issues the
    // kill exactly once, and its success triggers exactly one refresh.
    let mut app = app_with_sessions(vec![
        session("7.doomed", "doomed", 7, SessionStatus::Detached),
    ]);
    let cmds = app.handle_action(Action::KillSession);
    assert!(cmds.is_empty());
    match &app.input_mode {
        InputMode::Confirm { action, .. } => {
            assert_eq!(*action, ConfirmAction::KillSession("7.doomed".to_string()));
        },
        other => panic!("expected confirm mode, got {:?}", other),
    }

    let cmds = app.handle_action(Action::Select);
    assert_eq!(cmds, vec![Command::KillSession { id: "7.doomed".to_string() }]);
    assert_eq!(app.input_mode, InputMode::Normal);

    let cmds = app.finish_kill_session(Ok(()));
    assert_eq!(cmds, vec![Command::RefreshSessions]);
}

#[test]
fn test_confirm_kill_cancelled() {
    // Cancelling the confirmation issues no kill and leaves the session
    // list untouched.
    let mut app = app_with_sessions(vec![
        session("7.kept", "kept", 7, SessionStatus::Detached),
    ]);
    let before = app.sessions.clone();
    app.handle_action(Action::KillSession);
    let cmds = app.handle_action(Action::Back);
    assert!(cmds.is_empty());
    assert_eq!(app.input_mode, InputMode::Normal);
    assert_eq!(app.sessions.len(), before.len());
    assert_eq!(app.sessions[0].id, before[0].id);
}

#[test]
fn test_detach_idempotent() {
    // A detach that finds the session already detached still succeeds;
    // doing it twice leaves the same single status message.
    let mut app = app_with_sessions(vec![
        session("5.idle", "idle", 5, SessionStatus::Detached),
    ]);
    let cmds = app.handle_action(Action::DetachSession);
    assert_eq!(
        cmds,
        vec![Command::DetachSession { id: "5.idle".to_string(), host: None }]
    );
    let cmds = app.finish_detach(Ok(()));
    assert_eq!(cmds, vec![Command::RefreshSessions]);
    assert_eq!(app.status_message, Some("Session detached".to_string()));

    let cmds = app.handle_action(Action::DetachSession);
    assert_eq!(
        cmds,
        vec![Command::DetachSession { id: "5.idle".to_string(), host: None }]
    );
    let cmds = app.finish_detach(Ok(()));
    assert_eq!(cmds, vec![Command::RefreshSessions]);
    assert_eq!(app.status_message, Some("Session detached".to_string()));
}

#[test]
fn test_add_then_remove_host_roundtrip() {
    // Adding a host and immediately removing it restores the host list to
    // its prior exact contents and ordering.
    let mut app = App::new(Settings::default(), None);
    let before: Vec<String> = app.config.hosts.iter().map(|h| h.name.clone()).collect();

    app.handle_action(Action::AddHost);
    type_text(&mut app, "prod");
    app.handle_action(Action::InputConfirm);
    type_text(&mut app, "example.com");
    app.handle_action(Action::InputConfirm);
    type_text(&mut app, "deploy");
    app.handle_action(Action::InputConfirm);
    // The port prompt comes pre-filled with the default; confirm it.
    assert_eq!(app.input_buffer, "22");
    app.handle_action(Action::InputConfirm);
    type_text(&mut app, "~/.ssh/id_ed25519");
    let cmds = app.handle_action(Action::InputConfirm);
    assert_eq!(cmds, vec![Command::SaveConfig]);

    assert_eq!(app.config.hosts.len(), before.len() + 1);
    assert_eq!(app.config.hosts.last().unwrap().name, "prod");
    assert_eq!(app.config.hosts.last().unwrap().port, Some(22));
    assert_eq!(app.status_message, Some("Added host 'prod'".to_string()));

    // Move to the hosts category and delete the new entry.
    app.handle_action(Action::ViewSettings);
    app.handle_action(Action::Right);
    app.handle_action(Action::Right);
    app.handle_action(Action::Right);
    app.handle_action(Action::Bottom);
    let cmds = app.handle_action(Action::DeleteHost);
    assert_eq!(cmds, vec![Command::SaveConfig]);

    let after: Vec<String> = app.config.hosts.iter().map(|h| h.name.clone()).collect();
    assert_eq!(after, before);
    assert_eq!(app.status_message, Some("Host deleted".to_string()));
}

#[test]
fn test_navigation_stays_in_bounds() {
    // The selection index stays below max(1, list length) through every
    // navigation action, on a list of three and on an empty one.
    let mut app = app_with_sessions(vec![
        session("1.a", "a", 1, SessionStatus::Detached),
        session("2.b", "b", 2, SessionStatus::Detached),
        session("3.c", "c", 3, SessionStatus::Detached),
    ]);
    app.handle_action(Action::Down);
    app.handle_action(Action::Down);
    app.handle_action(Action::Down);
    assert_eq!(app.session_index, 2);
    app.handle_action(Action::PageDown);
    assert_eq!(app.session_index, 2);
    app.handle_action(Action::Top);
    assert_eq!(app.session_index, 0);
    app.handle_action(Action::Up);
    assert_eq!(app.session_index, 0);
    app.handle_action(Action::Bottom);
    assert_eq!(app.session_index, 2);
    app.handle_action(Action::PageUp);
    assert_eq!(app.session_index, 0);

    let mut empty = app_with_sessions(Vec::new());
    empty.handle_action(Action::Down);
    empty.handle_action(Action::Bottom);
    empty.handle_action(Action::PageDown);
    assert_eq!(empty.session_index, 0);
}

#[test]
fn test_selection_clamped_after_refresh() {
    let mut app = app_with_sessions(vec![
        session("1.a", "a", 1, SessionStatus::Detached),
        session("2.b", "b", 2, SessionStatus::Detached),
        session("3.c", "c", 3, SessionStatus::Detached),
    ]);
    app.handle_action(Action::Bottom);
    assert_eq!(app.session_index, 2);
    // The list shrinks to one session; the selection is re-clamped.
    app.finish_refresh(
        Ok(vec![session("1.a", "a", 1, SessionStatus::Detached)]),
        Vec::new(),
    );
    assert_eq!(app.session_index, 0);
}

#[test]
fn test_quit_and_force_quit() {
    let mut app = app_with_sessions(Vec::new());
    app.handle_action(Action::Quit);
    assert!(app.should_quit);

    let mut app2 = app_with_sessions(Vec::new());
    app2.handle_action(Action::ViewTemplates);
    app2.handle_action(Action::Quit);
    // Not at the top level: quit backs out instead.
    assert!(!app2.should_quit);
    assert_eq!(app2.view, View::Sessions);
    app2.handle_action(Action::ForceQuit);
    assert!(app2.should_quit);
}

#[test]
fn test_search_clear_restores_all() {
    let mut app = app_with_sessions(vec![
        session("1.dev", "dev", 1, SessionStatus::Detached),
        session("2.build", "build", 2, SessionStatus::Detached),
    ]);
    app.handle_action(Action::StartSearch);
    type_text(&mut app, "dev");
    assert_eq!(app.filtered_sessions, vec![0]);
    app.handle_action(Action::ClearSearch);
    assert_eq!(app.filtered_sessions, vec![0, 1]);
    assert!(app.search_query.is_empty());
    assert_eq!(app.input_mode, InputMode::Normal);
}

#[test]
fn test_visible_sessions_by_host() {
    let mut remote = session("9.far", "far", 9, SessionStatus::Detached);
    remote.host = Some("web01".to_string());
    let mut app = app_with_sessions(vec![
        session("1.near", "near", 1, SessionStatus::Detached),
        remote,
    ]);
    // Local selection shows everything.
    let all = app.get_visible_sessions();
    assert_eq!(all.len(), 2);
    // A named host shows only its own sessions.
    app.selected_host = Some("web01".to_string());
    let filtered = app.get_visible_sessions();
    assert_eq!(filtered.len(), 1);
    assert_eq!(filtered[0].name, "far");
}

#[test]
fn test_attach_commands() {
    let mut remote = session("9.far", "far", 9, SessionStatus::Attached);
    remote.host = Some("web01".to_string());
    let mut app = app_with_sessions(vec![remote]);
    let cmds = app.handle_action(Action::AttachSession);
    assert_eq!(
        cmds,
        vec![Command::AttachExec {
            id: "9.far".to_string(),
            host: Some("web01".to_string()),
        }]
    );
    let cmds = app.handle_action(Action::AttachSpawn);
    assert_eq!(
        cmds,
        vec![Command::AttachSpawn {
            id: "9.far".to_string(),
            host: Some("web01".to_string()),
        }]
    );
}

#[test]
fn test_attach_spawn_args() {
    assert_eq!(
        attach_spawn_args("alacritty", "dev", None),
        vec!["--title", "sesh: dev", "-e", "screen", "-r", "dev"]
    );
    assert_eq!(
        attach_spawn_args("kitty", "dev", Some("web01")),
        vec!["--title", "sesh: dev", "ssh", "-t", "web01", "screen", "-r", "dev"]
    );
    assert_eq!(
        attach_spawn_args("konsole", "dev", Some("web01")),
        vec!["-e", "sh", "-c", "ssh -t web01 screen -r dev"]
    );
    assert_eq!(
        attach_spawn_args("st", "dev", None),
        vec!["-e", "sh", "-c", "screen -r dev"]
    );
}

#[test]
fn test_get_ssh_args() {
    let mut settings = Settings::default();
    settings.hosts.push(
        sesh::hosts::HostConfig::new("web01", "web01.example.com")
            .with_user("admin")
            .with_port(2222),
    );
    let (conn, args) = get_ssh_args(&settings, "web01").unwrap();
    assert_eq!(conn, "admin@web01.example.com");
    assert_eq!(args, vec!["-p", "2222"]);

    let err = get_ssh_args(&settings, "nope").unwrap_err();
    assert_eq!(err, "Host 'nope' not found in configuration");
}
