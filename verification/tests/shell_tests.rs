//! Tests for the shell integration scripts and helpers.

use sesh::shell::{
    bash_integration, fish_integration, get_integration_script, get_suggested_session_name,
    zsh_integration,
};

#[test]
fn test_integration_scripts() {
    assert!(!bash_integration().is_empty());
    assert!(!zsh_integration().is_empty());
    assert!(!fish_integration().is_empty());
}

#[test]
fn test_bash_integration_not_empty() {
    let script = bash_integration();
    assert!(!script.is_empty());
    assert!(script.contains("sesh"));
    assert!(script.contains("_sesh_completions"));
}

#[test]
fn test_zsh_integration_not_empty() {
    let script = zsh_integration();
    assert!(!script.is_empty());
    assert!(script.contains("sesh"));
    assert!(script.contains("compdef"));
}

#[test]
fn test_fish_integration_not_empty() {
    let script = fish_integration();
    assert!(!script.is_empty());
    assert!(script.contains("sesh"));
    assert!(script.contains("abbr"));
    assert!(script.contains("complete"));
}

#[test]
fn test_fish_integration_has_abbreviations() {
    let script = fish_integration();
    // Check for fish abbreviations
    assert!(script.contains("abbr --add ss"));
    assert!(script.contains("abbr --add sl"));
    assert!(script.contains("abbr --add sn"));
}

#[test]
fn test_fish_integration_has_functions() {
    let script = fish_integration();
    // Check for fish functions
    assert!(script.contains("function sesh-attach"));
    assert!(script.contains("function sesh-new"));
    assert!(script.contains("function sesh-here"));
}

#[test]
fn test_fish_integration_has_keybinding() {
    let script = fish_integration();
    // Check for Ctrl+S keybinding
    assert!(script.contains("bind \\cs"));
}

#[test]
fn test_get_integration_script() {
    assert!(get_integration_script("bash").is_some());
    assert!(get_integration_script("zsh").is_some());
    assert!(get_integration_script("fish").is_some());
    assert!(get_integration_script("tcsh").is_none());
    assert!(get_integration_script("").is_none());
}

#[test]
fn test_get_suggested_session_name() {
    assert_eq!(
        get_suggested_session_name("/home/user/projects/myapp"),
        Some("myapp".to_string())
    );
    assert_eq!(
        get_suggested_session_name("/home/user/projects/myapp/"),
        Some("myapp".to_string())
    );
    assert_eq!(get_suggested_session_name("plain"), Some("plain".to_string()));
    assert_eq!(get_suggested_session_name("/"), None);
    assert_eq!(get_suggested_session_name(""), None);
}
