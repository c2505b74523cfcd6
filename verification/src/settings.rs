//! Application settings: the mutable configuration record the controller
//! reads defaults and hosts from. Loading and saving the record is left to
//! the surrounding binary; the library only defines the values and their
//! defaults.

use vstd::prelude::*;

use crate::hosts::HostConfig;

verus! {

/// UI settings.
#[derive(Debug, Clone)]
pub struct UiSettings {
    /// Theme name.
    pub theme: String,
    /// Whether the preview panel is shown.
    pub show_preview: bool,
    /// Number of preview lines.
    pub preview_lines: usize,
    /// Refresh interval in milliseconds.
    pub refresh_interval_ms: u32,
}

impl Default for UiSettings {
    /// The dark theme with a visible preview, refreshed once a second.
    fn default() -> (r: Self)
        ensures
            r.theme@ == "dark"@,
            r.show_preview,
            r.preview_lines == 8,
            r.refresh_interval_ms == 1000,
    {
        UiSettings {
            theme: "dark".to_owned(),
            show_preview: true,
            preview_lines: 8,
            refresh_interval_ms: 1000,
        }
    }
}

/// Navigation settings.
#[derive(Debug, Clone)]
pub struct NavigationSettings {
    /// Enable vim-style keys.
    pub vim_keys: bool,
    /// Enable arrow keys.
    pub arrow_keys: bool,
    /// Enable mouse support.
    pub mouse_enabled: bool,
}

impl Default for NavigationSettings {
    /// All navigation styles enabled.
    fn default() -> (r: Self)
        ensures
            r.vim_keys,
            r.arrow_keys,
            r.mouse_enabled,
    {
        NavigationSettings { vim_keys: true, arrow_keys: true, mouse_enabled: true }
    }
}

/// Screen backend settings.
#[derive(Debug, Clone)]
pub struct ScreenSettings {
    /// Custom screen socket directory.
    pub socket_dir: Option<String>,
    /// Default shell for new sessions.
    pub default_shell: Option<String>,
    /// Attach mode: `exec` replaces the process, `spawn` opens a terminal.
    pub attach_mode: String,
    /// Terminal emulator used in spawn mode.
    pub spawn_terminal: Option<String>,
}

impl Default for ScreenSettings {
    /// Attach by replacing the process; spawn into xterm when asked to.
    fn default() -> (r: Self)
        ensures
            r.socket_dir is None,
            r.default_shell is None,
            r.attach_mode@ == "exec"@,
            r.spawn_terminal matches Some(t) && t@ == "xterm"@,
    {
        ScreenSettings {
            socket_dir: None,
            default_shell: None,
            attach_mode: "exec".to_owned(),
            spawn_terminal: Some("xterm".to_owned()),
        }
    }
}

/// Integration settings.
#[derive(Debug, Clone)]
pub struct IntegrationSettings {
    /// Show git status.
    pub git_status: bool,
    /// Enable fzf integration.
    pub fzf_enabled: bool,
    /// Enable shell hooks.
    pub shell_hooks: bool,
}

impl Default for IntegrationSettings {
    /// Git and fzf on, shell hooks off.
    fn default() -> (r: Self)
        ensures
            r.git_status,
            r.fzf_enabled,
            !r.shell_hooks,
    {
        IntegrationSettings { git_status: true, fzf_enabled: true, shell_hooks: false }
    }
}

/// Key bindings, each action bound to one or more key names.
#[derive(Debug, Clone)]
pub struct KeyBindings {
    pub quit: Vec<String>,
    pub select: Vec<String>,
    pub back: Vec<String>,
    pub up: Vec<String>,
    pub down: Vec<String>,
    pub top: Vec<String>,
    pub bottom: Vec<String>,
    pub search: Vec<String>,
    pub new_session: Vec<String>,
    pub kill_session: Vec<String>,
    pub detach: Vec<String>,
    pub windows: Vec<String>,
    pub templates: Vec<String>,
    pub refresh: Vec<String>,
    pub help: Vec<String>,
}

impl Default for KeyBindings {
    /// The stock vim-flavoured bindings.
    fn default() -> (r: Self)
        ensures
            r.quit@.len() == 2 && r.quit@[0]@ == "q"@ && r.quit@[1]@ == "Ctrl-c"@,
            r.select@.len() == 2 && r.select@[0]@ == "Enter"@ && r.select@[1]@ == "l"@,
            r.back@.len() == 2 && r.back@[0]@ == "Esc"@ && r.back@[1]@ == "h"@,
            r.up@.len() == 2 && r.up@[0]@ == "k"@ && r.up@[1]@ == "Up"@,
            r.down@.len() == 2 && r.down@[0]@ == "j"@ && r.down@[1]@ == "Down"@,
            r.top@.len() == 2 && r.top@[0]@ == "g"@ && r.top@[1]@ == "Home"@,
            r.bottom@.len() == 2 && r.bottom@[0]@ == "G"@ && r.bottom@[1]@ == "End"@,
            r.search@.len() == 1 && r.search@[0]@ == "/"@,
            r.new_session@.len() == 1 && r.new_session@[0]@ == "n"@,
            r.kill_session@.len() == 1 && r.kill_session@[0]@ == "x"@,
            r.detach@.len() == 1 && r.detach@[0]@ == "d"@,
            r.windows@.len() == 1 && r.windows@[0]@ == "w"@,
            r.templates@.len() == 1 && r.templates@[0]@ == "t"@,
            r.refresh@.len() == 1 && r.refresh@[0]@ == "r"@,
            r.help@.len() == 1 && r.help@[0]@ == "?"@,
    {
        KeyBindings {
            quit: vec!["q".to_owned(), "Ctrl-c".to_owned()],
            select: vec!["Enter".to_owned(), "l".to_owned()],
            back: vec!["Esc".to_owned(), "h".to_owned()],
            up: vec!["k".to_owned(), "Up".to_owned()],
            down: vec!["j".to_owned(), "Down".to_owned()],
            top: vec!["g".to_owned(), "Home".to_owned()],
            bottom: vec!["G".to_owned(), "End".to_owned()],
            search: vec!["/".to_owned()],
            new_session: vec!["n".to_owned()],
            kill_session: vec!["x".to_owned()],
            detach: vec!["d".to_owned()],
            windows: vec!["w".to_owned()],
            templates: vec!["t".to_owned()],
            refresh: vec!["r".to_owned()],
            help: vec!["?".to_owned()],
        }
    }
}

/// The whole settings record.
#[derive(Debug, Clone)]
pub struct Settings {
    /// UI settings.
    pub ui: UiSettings,
    /// Navigation settings.
    pub navigation: NavigationSettings,
    /// Screen backend settings.
    pub screen: ScreenSettings,
    /// Integration settings.
    pub integrations: IntegrationSettings,
    /// Key bindings.
    pub keybindings: KeyBindings,
    /// Configured SSH hosts.
    pub hosts: Vec<HostConfig>,
}

impl Default for Settings {
    /// All sections at their defaults, with no hosts configured.
    fn default() -> (r: Self)
        ensures
            r.ui.theme@ == "dark"@,
            r.ui.show_preview,
            r.ui.preview_lines == 8,
            r.ui.refresh_interval_ms == 1000,
            r.navigation.vim_keys,
            r.navigation.arrow_keys,
            r.navigation.mouse_enabled,
            r.screen.socket_dir is None,
            r.screen.default_shell is None,
            r.screen.attach_mode@ == "exec"@,
            r.screen.spawn_terminal matches Some(t) && t@ == "xterm"@,
            r.integrations.git_status,
            r.integrations.fzf_enabled,
            !r.integrations.shell_hooks,
            r.hosts@.len() == 0,
    {
        Settings {
            ui: UiSettings::default(),
            navigation: NavigationSettings::default(),
            screen: ScreenSettings::default(),
            integrations: IntegrationSettings::default(),
            keybindings: KeyBindings::default(),
            hosts: Vec::new(),
        }
    }
}

} // verus!
