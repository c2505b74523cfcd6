//! The settings menu: categories, the editable items each category shows,
//! and the application of an edited value back onto the settings record.

use vstd::prelude::*;

use crate::settings::Settings;
use crate::text::{dec_rep_signed, i64_to_string, str_eq};

verus! {

/// The categories of the settings screen.
#[derive(Debug, Clone, Copy, PartialEq, Eq, Structural)]
pub enum SettingsCategory {
    General,
    Screen,
    Navigation,
    Hosts,
    Keybindings,
}

impl SettingsCategory {
    /// All categories, in display order.
    pub fn all() -> (r: Vec<SettingsCategory>)
        ensures
            r@ == seq![
                SettingsCategory::General,
                SettingsCategory::Screen,
                SettingsCategory::Navigation,
                SettingsCategory::Hosts,
                SettingsCategory::Keybindings,
            ],
    {
        let r = vec![
            SettingsCategory::General,
            SettingsCategory::Screen,
            SettingsCategory::Navigation,
            SettingsCategory::Hosts,
            SettingsCategory::Keybindings,
        ];
        proof {
            assert(r@ =~= seq![
                SettingsCategory::General,
                SettingsCategory::Screen,
                SettingsCategory::Navigation,
                SettingsCategory::Hosts,
                SettingsCategory::Keybindings,
            ]);
        }
        r
    }

    /// Display name of the category.
    pub fn name(&self) -> (r: &'static str)
        ensures
            r@ == match *self {
                SettingsCategory::General => "General"@,
                SettingsCategory::Screen => "Screen"@,
                SettingsCategory::Navigation => "Navigation"@,
                SettingsCategory::Hosts => "SSH Hosts"@,
                SettingsCategory::Keybindings => "Keybindings"@,
            },
    {
        match self {
            SettingsCategory::General => "General",
            SettingsCategory::Screen => "Screen",
            SettingsCategory::Navigation => "Navigation",
            SettingsCategory::Hosts => "SSH Hosts",
            SettingsCategory::Keybindings => "Keybindings",
        }
    }
}

/// The value of one editable setting.
#[derive(Debug, Clone)]
pub enum SettingValue {
    /// A yes/no switch.
    Bool(bool),
    /// Free text.
    Text(String),
    /// A number.
    Number(i64),
    /// One choice out of a fixed list: the current value and the options.
    Choice(String, Vec<String>),
}

/// Display text of a setting value.
pub open spec fn value_display_spec(v: SettingValue) -> Seq<char> {
    match v {
        SettingValue::Bool(b) => if b {
            "Yes"@
        } else {
            "No"@
        },
        SettingValue::Text(s) => if s@.len() == 0 {
            "(not set)"@
        } else {
            s@
        },
        SettingValue::Number(n) => dec_rep_signed(n as int),
        SettingValue::Choice(current, _) => current@,
    }
}

/// First index of `needle` in `options`, or -1 when it is absent.
pub open spec fn pos_of(options: Seq<String>, needle: Seq<char>, i: int) -> int
    decreases options.len() - i,
{
    if i < 0 || i >= options.len() {
        -1
    } else if options[i]@ == needle {
        i
    } else {
        pos_of(options, needle, i + 1)
    }
}

/// The relation of a value to its state one toggle later: switches flip, a
/// choice advances to the next option (cyclically, when the current value
/// is one of the options), and everything else stays.
pub open spec fn toggle_rel(old_v: SettingValue, new_v: SettingValue) -> bool {
    match old_v {
        SettingValue::Bool(b) => new_v == SettingValue::Bool(!b),
        SettingValue::Choice(current, options) => {
            let p = pos_of(options@, current@, 0);
            &&& new_v matches SettingValue::Choice(c2, o2)
            &&& o2@.map_values(|x: String| x@) == options@.map_values(|x: String| x@)
            &&& if p >= 0 {
                c2@ == options@[(p + 1) % options@.len() as int]@
            } else {
                c2@ == current@
            }
        },
        _ => new_v == old_v,
    }
}

/// First index of an option equal to the needle.
fn find_pos(options: &Vec<String>, needle: &str) -> (r: Option<usize>)
    ensures
        r matches Some(p) ==> 0 <= p < options@.len() && pos_of(options@, needle@, 0) == p,
        r is None ==> pos_of(options@, needle@, 0) == -1,
{
    let len = options.len();
    let mut i: usize = 0;
    while i < len
        invariant
            i <= len,
            len == options@.len(),
            pos_of(options@, needle@, 0) == pos_of(options@, needle@, i as int),
        decreases len - i,
    {
        if str_eq(options[i].as_str(), needle) {
            return Some(i);
        }
        i += 1;
    }
    None
}

impl SettingValue {
    /// Render the value for the settings list.
    pub fn display(&self) -> (r: String)
        ensures
            r@ == value_display_spec(*self),
    {
        match self {
            SettingValue::Bool(b) => {
                if *b {
                    "Yes".to_owned()
                } else {
                    "No".to_owned()
                }
            },
            SettingValue::Text(s) => {
                if s.as_str().unicode_len() == 0 {
                    "(not set)".to_owned()
                } else {
                    s.clone()
                }
            },
            SettingValue::Number(n) => i64_to_string(*n),
            SettingValue::Choice(current, _) => current.clone(),
        }
    }

    /// Advance the value by one step.
    pub fn toggle(&mut self)
        ensures
            toggle_rel(*old(self), *final(self)),
    {
        let replacement: Option<SettingValue> = match &*self {
            SettingValue::Bool(b) => Some(SettingValue::Bool(!*b)),
            SettingValue::Choice(current, options) => {
                let len = options.len();
                let found = find_pos(options, current.as_str());
                match found {
                    Some(p) => {
                        let next = (p + 1) % len;
                        let new_current = options[next].clone();
                        let new_options = options.clone();
                        proof {
                            assert(new_options@.map_values(|x: String| x@) =~= options@.map_values(
                                |x: String| x@,
                            ));
                        }
                        Some(SettingValue::Choice(new_current, new_options))
                    },
                    None => None,
                }
            },
            _ => None,
        };
        match replacement {
            Some(v) => {
                *self = v;
            },
            None => {
            },
        }
    }
}

/// One editable setting as the menu shows it.
#[derive(Debug, Clone)]
pub struct SettingItem {
    /// The dotted key the value is applied back under.
    pub key: String,
    /// Short display label.
    pub label: String,
    /// The current value.
    pub value: SettingValue,
    /// One-line description.
    pub description: String,
}

/// View of an optional text setting: the text, or empty when unset.
pub open spec fn opt_text(o: Option<String>) -> Seq<char> {
    match o {
        Some(s) => s@,
        None => Seq::empty(),
    }
}

/// An item is a switch for `key` showing `v`.
pub open spec fn item_is_bool(it: SettingItem, key: Seq<char>, v: bool) -> bool {
    it.key@ == key && it.value == SettingValue::Bool(v)
}

/// An item is a number for `key` showing `v`.
pub open spec fn item_is_number(it: SettingItem, key: Seq<char>, v: int) -> bool {
    &&& it.key@ == key
    &&& it.value matches SettingValue::Number(n) && n == v
}

/// An item is free text for `key` showing `v`.
pub open spec fn item_is_text(it: SettingItem, key: Seq<char>, v: Seq<char>) -> bool {
    &&& it.key@ == key
    &&& it.value matches SettingValue::Text(s) && s@ == v
}

/// An item is a choice for `key`, currently `cur`, out of `opts`.
pub open spec fn item_is_choice(
    it: SettingItem,
    key: Seq<char>,
    cur: Seq<char>,
    opts: Seq<Seq<char>>,
) -> bool {
    &&& it.key@ == key
    &&& it.value matches SettingValue::Choice(c, o) && c@ == cur && o@.map_values(
        |x: String| x@,
    ) == opts
}

/// Joined key names, comma-separated, as the keybindings category shows a
/// binding list.
pub open spec fn join_comma(parts: Seq<Seq<char>>) -> Seq<char>
    decreases parts.len(),
{
    if parts.len() == 0 {
        Seq::empty()
    } else if parts.len() == 1 {
        parts[0]
    } else {
        join_comma(parts.drop_last()) + ", "@ + parts.last()
    }
}

/// Join strings with a comma and a space.
fn join_comma_exec(parts: &Vec<String>) -> (r: String)
    ensures
        r@ == join_comma(parts@.map_values(|x: String| x@)),
{
    let ghost views = parts@.map_values(|x: String| x@);
    let mut r = String::new();
    let mut i: usize = 0;
    while i < parts.len()
        invariant
            views == parts@.map_values(|x: String| x@),
            i <= parts@.len(),
            views.len() == parts@.len(),
            r@ == join_comma(views.take(i as int)),
        decreases parts@.len() - i,
    {
        if i > 0 {
            proof {
                reveal_strlit(", ");
            }
            r.append(", ");
        }
        r.append(parts[i].as_str());
        proof {
            assert(views.take(i + 1).drop_last() =~= views.take(i as int));
            assert(views.take(i + 1).last() == views[i as int]);
            if i == 0 {
                assert(views.take(1) =~= seq![views[0]]);
            }
        }
        i += 1;
    }
    proof {
        assert(views.take(parts@.len() as int) =~= views);
    }
    r
}

/// The items a category shows agree with the settings record: for each
/// item, its key and its current value. (Labels and descriptions are
/// display text and are not constrained.)
pub open spec fn settings_items_ok(
    items: Seq<SettingItem>,
    s: Settings,
    category: SettingsCategory,
) -> bool {
    match category {
        SettingsCategory::General => {
            &&& items.len() == 4
            &&& item_is_choice(items[0], "ui.theme"@, s.ui.theme@, seq!["dark"@, "light"@])
            &&& item_is_bool(items[1], "ui.show_preview"@, s.ui.show_preview)
            &&& item_is_number(items[2], "ui.preview_lines"@, (s.ui.preview_lines as i64) as int)
            &&& item_is_number(items[3], "ui.refresh_interval_ms"@, s.ui.refresh_interval_ms as int)
        },
        SettingsCategory::Screen => {
            &&& items.len() == 4
            &&& item_is_choice(
                items[0],
                "screen.attach_mode"@,
                s.screen.attach_mode@,
                seq!["exec"@, "spawn"@],
            )
            &&& item_is_choice(
                items[1],
                "screen.spawn_terminal"@,
                opt_text(s.screen.spawn_terminal),
                seq![
                    "alacritty"@,
                    "kitty"@,
                    "wezterm"@,
                    "foot"@,
                    "gnome-terminal"@,
                    "konsole"@,
                ],
            )
            &&& item_is_text(items[2], "screen.default_shell"@, opt_text(s.screen.default_shell))
            &&& item_is_text(items[3], "screen.socket_dir"@, opt_text(s.screen.socket_dir))
        },
        SettingsCategory::Navigation => {
            &&& items.len() == 3
            &&& item_is_bool(items[0], "navigation.vim_keys"@, s.navigation.vim_keys)
            &&& item_is_bool(items[1], "navigation.arrow_keys"@, s.navigation.arrow_keys)
            &&& item_is_bool(items[2], "navigation.mouse_enabled"@, s.navigation.mouse_enabled)
        },
        SettingsCategory::Hosts => items.len() == 0,
        SettingsCategory::Keybindings => {
            &&& items.len() == 4
            &&& item_is_text(
                items[0],
                "keybindings.quit"@,
                join_comma(s.keybindings.quit@.map_values(|x: String| x@)),
            )
            &&& item_is_text(
                items[1],
                "keybindings.select"@,
                join_comma(s.keybindings.select@.map_values(|x: String| x@)),
            )
            &&& item_is_text(
                items[2],
                "keybindings.new_session"@,
                join_comma(s.keybindings.new_session@.map_values(|x: String| x@)),
            )
            &&& item_is_text(
                items[3],
                "keybindings.kill_session"@,
                join_comma(s.keybindings.kill_session@.map_values(|x: String| x@)),
            )
        },
    }
}

fn make_item(key: &str, label: &str, value: SettingValue, description: &str) -> (r: SettingItem)
    ensures
        r.key@ == key@,
        r.label@ == label@,
        r.value == value,
        r.description@ == description@,
{
    SettingItem {
        key: key.to_owned(),
        label: label.to_owned(),
        value,
        description: description.to_owned(),
    }
}

fn opt_text_value(o: &Option<String>) -> (r: SettingValue)
    ensures
        r matches SettingValue::Text(s) && s@ == opt_text(*o),
{
    match o {
        Some(s) => SettingValue::Text(s.clone()),
        None => SettingValue::Text(String::new()),
    }
}

/// The editable items of one settings category. Hosts are edited through
/// their own list and contribute no items here.
pub fn get_settings_for_category(settings: &Settings, category: SettingsCategory) -> (r: Vec<
    SettingItem,
>)
    ensures
        settings_items_ok(r@, *settings, category),
{
    match category {
        SettingsCategory::General => {
            let theme_options = vec!["dark".to_owned(), "light".to_owned()];
            proof {
                assert(theme_options@.map_values(|x: String| x@) =~= seq!["dark"@, "light"@]);
            }
            let items = vec![
                make_item(
                    "ui.theme",
                    "Theme",
                    SettingValue::Choice(settings.ui.theme.clone(), theme_options),
                    "Color theme for the interface",
                ),
                make_item(
                    "ui.show_preview",
                    "Show Preview",
                    SettingValue::Bool(settings.ui.show_preview),
                    "Display terminal preview panel",
                ),
                make_item(
                    "ui.preview_lines",
                    "Preview Lines",
                    SettingValue::Number(settings.ui.preview_lines as i64),
                    "Number of lines in preview panel",
                ),
                make_item(
                    "ui.refresh_interval_ms",
                    "Refresh Interval",
                    SettingValue::Number(settings.ui.refresh_interval_ms as i64),
                    "Auto-refresh interval in milliseconds",
                ),
            ];
            items
        },
        SettingsCategory::Screen => {
            let mode_options = vec!["exec".to_owned(), "spawn".to_owned()];
            proof {
                assert(mode_options@.map_values(|x: String| x@) =~= seq!["exec"@, "spawn"@]);
            }
            let terminal_options = vec![
                "alacritty".to_owned(),
                "kitty".to_owned(),
                "wezterm".to_owned(),
                "foot".to_owned(),
                "gnome-terminal".to_owned(),
                "konsole".to_owned(),
            ];
            proof {
                assert(terminal_options@.map_values(|x: String| x@) =~= seq![
                    "alacritty"@,
                    "kitty"@,
                    "wezterm"@,
                    "foot"@,
                    "gnome-terminal"@,
                    "konsole"@,
                ]);
            }
            let current_terminal = match &settings.screen.spawn_terminal {
                Some(t) => t.clone(),
                None => String::new(),
            };
            let items = vec![
                make_item(
                    "screen.attach_mode",
                    "Attach Mode",
                    SettingValue::Choice(settings.screen.attach_mode.clone(), mode_options),
                    "exec: replace process, spawn: new terminal",
                ),
                make_item(
                    "screen.spawn_terminal",
                    "Terminal",
                    SettingValue::Choice(current_terminal, terminal_options),
                    "Terminal emulator for spawn mode",
                ),
                make_item(
                    "screen.default_shell",
                    "Default Shell",
                    opt_text_value(&settings.screen.default_shell),
                    "Shell for new sessions (empty = system default)",
                ),
                make_item(
                    "screen.socket_dir",
                    "Socket Directory",
                    opt_text_value(&settings.screen.socket_dir),
                    "Custom screen socket directory",
                ),
            ];
            items
        },
        SettingsCategory::Navigation => {
            let items = vec![
                make_item(
                    "navigation.vim_keys",
                    "Vim Keys",
                    SettingValue::Bool(settings.navigation.vim_keys),
                    "Enable hjkl navigation",
                ),
                make_item(
                    "navigation.arrow_keys",
                    "Arrow Keys",
                    SettingValue::Bool(settings.navigation.arrow_keys),
                    "Enable arrow key navigation",
                ),
                make_item(
                    "navigation.mouse_enabled",
                    "Mouse Support",
                    SettingValue::Bool(settings.navigation.mouse_enabled),
                    "Enable mouse click support",
                ),
            ];
            items
        },
        SettingsCategory::Hosts => Vec::new(),
        SettingsCategory::Keybindings => {
            let items = vec![
                make_item(
                    "keybindings.quit",
                    "Quit",
                    SettingValue::Text(join_comma_exec(&settings.keybindings.quit)),
                    "Keys to quit the application",
                ),
                make_item(
                    "keybindings.select",
                    "Select/Enter",
                    SettingValue::Text(join_comma_exec(&settings.keybindings.select)),
                    "Keys to select/attach",
                ),
                make_item(
                    "keybindings.new_session",
                    "New Session",
                    SettingValue::Text(join_comma_exec(&settings.keybindings.new_session)),
                    "Keys to create new session",
                ),
                make_item(
                    "keybindings.kill_session",
                    "Kill Session",
                    SettingValue::Text(join_comma_exec(&settings.keybindings.kill_session)),
                    "Keys to kill session",
                ),
            ];
            items
        },
    }
}

/// Text read from a value that can be applied to a text-valued setting:
/// the payload of free text or of a choice.
pub open spec fn applied_text(value: SettingValue) -> Option<Seq<char>> {
    match value {
        SettingValue::Choice(v, _) => Some(v@),
        SettingValue::Text(v) => Some(v@),
        _ => None,
    }
}

/// The settings record after applying `value` under `key`: the named field
/// takes the value when the value's kind fits the field, every other field
/// keeps its old contents, and an unknown key changes nothing. An empty
/// text applied to an optional field clears it.
pub open spec fn apply_setting_spec(
    old_s: Settings,
    new_s: Settings,
    key: Seq<char>,
    value: SettingValue,
) -> bool {
    &&& new_s.hosts == old_s.hosts
    &&& new_s.keybindings == old_s.keybindings
    &&& new_s.integrations == old_s.integrations
    &&& if key == "ui.theme"@ {
        &&& match applied_text(value) {
            Some(v) => new_s.ui.theme@ == v,
            None => new_s.ui.theme == old_s.ui.theme,
        }
        &&& new_s.ui.show_preview == old_s.ui.show_preview
        &&& new_s.ui.preview_lines == old_s.ui.preview_lines
        &&& new_s.ui.refresh_interval_ms == old_s.ui.refresh_interval_ms
        &&& new_s.navigation == old_s.navigation
        &&& new_s.screen == old_s.screen
    } else if key == "ui.show_preview"@ {
        &&& new_s.ui.show_preview == (match value {
            SettingValue::Bool(v) => v,
            _ => old_s.ui.show_preview,
        })
        &&& new_s.ui.theme == old_s.ui.theme
        &&& new_s.ui.preview_lines == old_s.ui.preview_lines
        &&& new_s.ui.refresh_interval_ms == old_s.ui.refresh_interval_ms
        &&& new_s.navigation == old_s.navigation
        &&& new_s.screen == old_s.screen
    } else if key == "ui.preview_lines"@ {
        &&& new_s.ui.preview_lines == (match value {
            SettingValue::Number(v) => v as usize,
            _ => old_s.ui.preview_lines,
        })
        &&& new_s.ui.theme == old_s.ui.theme
        &&& new_s.ui.show_preview == old_s.ui.show_preview
        &&& new_s.ui.refresh_interval_ms == old_s.ui.refresh_interval_ms
        &&& new_s.navigation == old_s.navigation
        &&& new_s.screen == old_s.screen
    } else if key == "ui.refresh_interval_ms"@ {
        &&& new_s.ui.refresh_interval_ms == (match value {
            SettingValue::Number(v) => v as u32,
            _ => old_s.ui.refresh_interval_ms,
        })
        &&& new_s.ui.theme == old_s.ui.theme
        &&& new_s.ui.show_preview == old_s.ui.show_preview
        &&& new_s.ui.preview_lines == old_s.ui.preview_lines
        &&& new_s.navigation == old_s.navigation
        &&& new_s.screen == old_s.screen
    } else if key == "screen.attach_mode"@ {
        &&& match applied_text(value) {
            Some(v) => new_s.screen.attach_mode@ == v,
            None => new_s.screen.attach_mode == old_s.screen.attach_mode,
        }
        &&& new_s.screen.spawn_terminal == old_s.screen.spawn_terminal
        &&& new_s.screen.default_shell == old_s.screen.default_shell
        &&& new_s.screen.socket_dir == old_s.screen.socket_dir
        &&& new_s.ui == old_s.ui
        &&& new_s.navigation == old_s.navigation
    } else if key == "screen.spawn_terminal"@ {
        &&& match applied_text(value) {
            Some(v) => if v.len() == 0 {
                new_s.screen.spawn_terminal is None
            } else {
                new_s.screen.spawn_terminal matches Some(t) && t@ == v
            },
            None => new_s.screen.spawn_terminal == old_s.screen.spawn_terminal,
        }
        &&& new_s.screen.attach_mode == old_s.screen.attach_mode
        &&& new_s.screen.default_shell == old_s.screen.default_shell
        &&& new_s.screen.socket_dir == old_s.screen.socket_dir
        &&& new_s.ui == old_s.ui
        &&& new_s.navigation == old_s.navigation
    } else if key == "screen.default_shell"@ {
        &&& match value {
            SettingValue::Text(v) => if v@.len() == 0 {
                new_s.screen.default_shell is None
            } else {
                new_s.screen.default_shell matches Some(t) && t@ == v@
            },
            _ => new_s.screen.default_shell == old_s.screen.default_shell,
        }
        &&& new_s.screen.attach_mode == old_s.screen.attach_mode
        &&& new_s.screen.spawn_terminal == old_s.screen.spawn_terminal
        &&& new_s.screen.socket_dir == old_s.screen.socket_dir
        &&& new_s.ui == old_s.ui
        &&& new_s.navigation == old_s.navigation
    } else if key == "screen.socket_dir"@ {
        &&& match value {
            SettingValue::Text(v) => if v@.len() == 0 {
                new_s.screen.socket_dir is None
            } else {
                new_s.screen.socket_dir matches Some(t) && t@ == v@
            },
            _ => new_s.screen.socket_dir == old_s.screen.socket_dir,
        }
        &&& new_s.screen.attach_mode == old_s.screen.attach_mode
        &&& new_s.screen.spawn_terminal == old_s.screen.spawn_terminal
        &&& new_s.screen.default_shell == old_s.screen.default_shell
        &&& new_s.ui == old_s.ui
        &&& new_s.navigation == old_s.navigation
    } else if key == "navigation.vim_keys"@ {
        &&& new_s.navigation.vim_keys == (match value {
            SettingValue::Bool(v) => v,
            _ => old_s.navigation.vim_keys,
        })
        &&& new_s.navigation.arrow_keys == old_s.navigation.arrow_keys
        &&& new_s.navigation.mouse_enabled == old_s.navigation.mouse_enabled
        &&& new_s.ui == old_s.ui
        &&& new_s.screen == old_s.screen
    } else if key == "navigation.arrow_keys"@ {
        &&& new_s.navigation.arrow_keys == (match value {
            SettingValue::Bool(v) => v,
            _ => old_s.navigation.arrow_keys,
        })
        &&& new_s.navigation.vim_keys == old_s.navigation.vim_keys
        &&& new_s.navigation.mouse_enabled == old_s.navigation.mouse_enabled
        &&& new_s.ui == old_s.ui
        &&& new_s.screen == old_s.screen
    } else if key == "navigation.mouse_enabled"@ {
        &&& new_s.navigation.mouse_enabled == (match value {
            SettingValue::Bool(v) => v,
            _ => old_s.navigation.mouse_enabled,
        })
        &&& new_s.navigation.vim_keys == old_s.navigation.vim_keys
        &&& new_s.navigation.arrow_keys == old_s.navigation.arrow_keys
        &&& new_s.ui == old_s.ui
        &&& new_s.screen == old_s.screen
    } else {
        &&& new_s.ui == old_s.ui
        &&& new_s.navigation == old_s.navigation
        &&& new_s.screen == old_s.screen
    }
}

/// Apply an edited value to the settings record under its dotted key.
pub fn apply_setting(settings: &mut Settings, key: &str, value: &SettingValue)
    ensures
        apply_setting_spec(*old(settings), *final(settings), key@, *value),
{
    if str_eq(key, "ui.theme") {
        match value {
            SettingValue::Choice(v, _) => {
                settings.ui.theme = v.clone();
            },
            SettingValue::Text(v) => {
                settings.ui.theme = v.clone();
            },
            _ => {},
        }
    } else if str_eq(key, "ui.show_preview") {
        match value {
            SettingValue::Bool(v) => {
                settings.ui.show_preview = *v;
            },
            _ => {},
        }
    } else if str_eq(key, "ui.preview_lines") {
        match value {
            SettingValue::Number(v) => {
                settings.ui.preview_lines = #[verifier::truncate] (*v as usize);
            },
            _ => {},
        }
    } else if str_eq(key, "ui.refresh_interval_ms") {
        match value {
            SettingValue::Number(v) => {
                settings.ui.refresh_interval_ms = #[verifier::truncate] (*v as u32);
            },
            _ => {},
        }
    } else if str_eq(key, "screen.attach_mode") {
        match value {
            SettingValue::Choice(v, _) => {
                settings.screen.attach_mode = v.clone();
            },
            SettingValue::Text(v) => {
                settings.screen.attach_mode = v.clone();
            },
            _ => {},
        }
    } else if str_eq(key, "screen.spawn_terminal") {
        match value {
            SettingValue::Choice(v, _) => {
                settings.screen.spawn_terminal = if v.as_str().unicode_len() == 0 {
                    None
                } else {
                    Some(v.clone())
                };
            },
            SettingValue::Text(v) => {
                settings.screen.spawn_terminal = if v.as_str().unicode_len() == 0 {
                    None
                } else {
                    Some(v.clone())
                };
            },
            _ => {},
        }
    } else if str_eq(key, "screen.default_shell") {
        match value {
            SettingValue::Text(v) => {
                settings.screen.default_shell = if v.as_str().unicode_len() == 0 {
                    None
                } else {
                    Some(v.clone())
                };
            },
            _ => {},
        }
    } else if str_eq(key, "screen.socket_dir") {
        match value {
            SettingValue::Text(v) => {
                settings.screen.socket_dir = if v.as_str().unicode_len() == 0 {
                    None
                } else {
                    Some(v.clone())
                };
            },
            _ => {},
        }
    } else if str_eq(key, "navigation.vim_keys") {
        match value {
            SettingValue::Bool(v) => {
                settings.navigation.vim_keys = *v;
            },
            _ => {},
        }
    } else if str_eq(key, "navigation.arrow_keys") {
        match value {
            SettingValue::Bool(v) => {
                settings.navigation.arrow_keys = *v;
            },
            _ => {},
        }
    } else if str_eq(key, "navigation.mouse_enabled") {
        match value {
            SettingValue::Bool(v) => {
                settings.navigation.mouse_enabled = *v;
            },
            _ => {},
        }
    }
}

} // verus!
