//! Typed input events and the action resolver: the pure mapping from a key
//! press and the current interaction mode to a high-level action.

use vstd::prelude::*;

verus! {

/// A key, after the terminal backend's raw event has been classified.
#[derive(Debug, Clone, Copy, PartialEq, Eq, Structural)]
pub enum Key {
    /// A printable character.
    Char(char),
    Up,
    Down,
    Left,
    Right,
    Home,
    End,
    PageUp,
    PageDown,
    Enter,
    Esc,
    Backspace,
    Delete,
    Tab,
    /// Any key the interface does not react to.
    Other,
}

/// A key press: the key together with the control modifier.
#[derive(Debug, Clone, Copy, PartialEq, Eq, Structural)]
pub struct KeyPress {
    /// The pressed key.
    pub code: Key,
    /// Whether the control modifier was held.
    pub ctrl: bool,
}

/// The kind of a pointer event.
#[derive(Debug, Clone, Copy, PartialEq, Eq, Structural)]
pub enum MouseKind {
    /// Primary button pressed.
    LeftDown,
    /// Wheel scrolled up.
    ScrollUp,
    /// Wheel scrolled down.
    ScrollDown,
    /// Anything else.
    Other,
}

/// A pointer event: its kind and the cell it happened in.
#[derive(Debug, Clone, Copy, PartialEq, Eq, Structural)]
pub struct MousePress {
    /// The kind of event.
    pub kind: MouseKind,
    /// Zero-based column.
    pub column: u16,
    /// Zero-based row.
    pub row: u16,
}

/// An application event, as consumed once per iteration of the main loop.
#[derive(Debug, Clone)]
pub enum AppEvent {
    /// Key press.
    Key(KeyPress),
    /// Pointer event.
    Mouse(MousePress),
    /// Terminal resize to the given width and height.
    Resize(u16, u16),
    /// Periodic tick.
    Tick,
    /// Request to quit.
    Quit,
    /// Failure reported by the event source.
    Error(String),
}

/// A high-level action the controller dispatches on.
#[derive(Debug, Clone, Copy, PartialEq, Eq, Structural)]
pub enum Action {
    Up,
    Down,
    Left,
    Right,
    Top,
    Bottom,
    PageUp,
    PageDown,
    Select,
    Back,
    NewSession,
    RenameSession,
    KillSession,
    DetachSession,
    AttachSession,
    AttachSpawn,
    ViewWindows,
    ViewTemplates,
    ViewSettings,
    Refresh,
    /// Refresh including remote hosts.
    RefreshAll,
    AddHost,
    EditHost,
    DeleteHost,
    StartSearch,
    ClearSearch,
    ToggleHelp,
    TogglePreview,
    SwitchHost,
    InputChar(char),
    InputBackspace,
    InputDelete,
    InputConfirm,
    InputCancel,
    Quit,
    ForceQuit,
    /// No action bound to the input.
    Noop,
}

/// Event source configuration.
#[derive(Debug, Clone)]
pub struct EventConfig {
    /// Tick rate in milliseconds.
    pub tick_rate_ms: u64,
    /// Whether pointer events are captured.
    pub mouse_enabled: bool,
}

impl Default for EventConfig {
    /// Four ticks a second, with the pointer captured.
    fn default() -> (r: Self)
        ensures
            r.tick_rate_ms == 250,
            r.mouse_enabled,
    {
        EventConfig { tick_rate_ms: 250, mouse_enabled: true }
    }
}

/// The action a key resolves to in normal (navigation) mode.
pub open spec fn normal_action_spec(key: KeyPress) -> Action {
    match key.code {
        Key::Char('q') => Action::Quit,
        Key::Char('c') => if key.ctrl {
            Action::ForceQuit
        } else {
            Action::Noop
        },
        Key::Char('j') => Action::Down,
        Key::Char('k') => Action::Up,
        Key::Char('h') => Action::Left,
        Key::Char('l') => Action::Right,
        Key::Char('g') => Action::Top,
        Key::Char('G') => Action::Bottom,
        Key::Char('n') => Action::NewSession,
        Key::Char('R') => Action::RenameSession,
        Key::Char('x') => Action::KillSession,
        Key::Char('d') => Action::DetachSession,
        Key::Char('a') => Action::AttachSession,
        Key::Char('A') => Action::AttachSpawn,
        Key::Char('w') => Action::ViewWindows,
        Key::Char('t') => Action::ViewTemplates,
        Key::Char('S') => Action::ViewSettings,
        Key::Char('r') => Action::Refresh,
        Key::Char('F') => Action::RefreshAll,
        Key::Char('/') => Action::StartSearch,
        Key::Char('?') => Action::ToggleHelp,
        Key::Char('p') => Action::TogglePreview,
        Key::Char(_) => Action::Noop,
        Key::Down => Action::Down,
        Key::Up => Action::Up,
        Key::Left => Action::Left,
        Key::Right => Action::Right,
        Key::Home => Action::Top,
        Key::End => Action::Bottom,
        Key::PageUp => Action::PageUp,
        Key::PageDown => Action::PageDown,
        Key::Enter => Action::Select,
        Key::Esc => Action::Back,
        Key::Backspace => Action::Back,
        Key::Tab => Action::SwitchHost,
        _ => Action::Noop,
    }
}

/// The action a key resolves to in search mode.
pub open spec fn search_action_spec(key: KeyPress) -> Action {
    match key.code {
        Key::Esc => Action::ClearSearch,
        Key::Enter => Action::InputConfirm,
        Key::Backspace => Action::InputBackspace,
        Key::Delete => Action::InputDelete,
        Key::Char(c) => Action::InputChar(c),
        Key::Up => Action::Up,
        Key::Down => Action::Down,
        _ => Action::Noop,
    }
}

/// The action a key resolves to in text-input mode.
pub open spec fn input_action_spec(key: KeyPress) -> Action {
    match key.code {
        Key::Esc => Action::InputCancel,
        Key::Enter => Action::InputConfirm,
        Key::Backspace => Action::InputBackspace,
        Key::Delete => Action::InputDelete,
        Key::Char(c) => Action::InputChar(c),
        Key::Left => Action::Left,
        Key::Right => Action::Right,
        Key::Home => Action::Top,
        Key::End => Action::Bottom,
        _ => Action::Noop,
    }
}

/// The action a key resolves to, given which of the two editing modes is
/// active; text input takes precedence over search.
pub open spec fn key_action_spec(key: KeyPress, in_input_mode: bool, in_search_mode: bool) -> Action {
    if in_input_mode {
        input_action_spec(key)
    } else if in_search_mode {
        search_action_spec(key)
    } else {
        normal_action_spec(key)
    }
}

/// Resolve a key press in normal mode.
pub fn normal_mode_action(key: KeyPress) -> (r: Action)
    ensures
        r == normal_action_spec(key),
{
    match key.code {
        Key::Char(c) => {
            if c == 'q' {
                Action::Quit
            } else if c == 'c' {
                if key.ctrl {
                    Action::ForceQuit
                } else {
                    Action::Noop
                }
            } else if c == 'j' {
                Action::Down
            } else if c == 'k' {
                Action::Up
            } else if c == 'h' {
                Action::Left
            } else if c == 'l' {
                Action::Right
            } else if c == 'g' {
                Action::Top
            } else if c == 'G' {
                Action::Bottom
            } else if c == 'n' {
                Action::NewSession
            } else if c == 'R' {
                Action::RenameSession
            } else if c == 'x' {
                Action::KillSession
            } else if c == 'd' {
                Action::DetachSession
            } else if c == 'a' {
                Action::AttachSession
            } else if c == 'A' {
                Action::AttachSpawn
            } else if c == 'w' {
                Action::ViewWindows
            } else if c == 't' {
                Action::ViewTemplates
            } else if c == 'S' {
                Action::ViewSettings
            } else if c == 'r' {
                Action::Refresh
            } else if c == 'F' {
                Action::RefreshAll
            } else if c == '/' {
                Action::StartSearch
            } else if c == '?' {
                Action::ToggleHelp
            } else if c == 'p' {
                Action::TogglePreview
            } else {
                Action::Noop
            }
        },
        Key::Down => Action::Down,
        Key::Up => Action::Up,
        Key::Left => Action::Left,
        Key::Right => Action::Right,
        Key::Home => Action::Top,
        Key::End => Action::Bottom,
        Key::PageUp => Action::PageUp,
        Key::PageDown => Action::PageDown,
        Key::Enter => Action::Select,
        Key::Esc => Action::Back,
        Key::Backspace => Action::Back,
        Key::Tab => Action::SwitchHost,
        _ => Action::Noop,
    }
}

/// Resolve a key press in search mode.
pub fn search_mode_action(key: KeyPress) -> (r: Action)
    ensures
        r == search_action_spec(key),
{
    match key.code {
        Key::Esc => Action::ClearSearch,
        Key::Enter => Action::InputConfirm,
        Key::Backspace => Action::InputBackspace,
        Key::Delete => Action::InputDelete,
        Key::Char(c) => Action::InputChar(c),
        Key::Up => Action::Up,
        Key::Down => Action::Down,
        _ => Action::Noop,
    }
}

/// Resolve a key press in text-input mode.
pub fn input_mode_action(key: KeyPress) -> (r: Action)
    ensures
        r == input_action_spec(key),
{
    match key.code {
        Key::Esc => Action::InputCancel,
        Key::Enter => Action::InputConfirm,
        Key::Backspace => Action::InputBackspace,
        Key::Delete => Action::InputDelete,
        Key::Char(c) => Action::InputChar(c),
        Key::Left => Action::Left,
        Key::Right => Action::Right,
        Key::Home => Action::Top,
        Key::End => Action::Bottom,
        _ => Action::Noop,
    }
}

/// Resolve a key press into an action, given the current interaction mode.
/// Deterministic: identical inputs always resolve to the identical action.
pub fn key_to_action(key: KeyPress, in_input_mode: bool, in_search_mode: bool) -> (r: Action)
    ensures
        r == key_action_spec(key, in_input_mode, in_search_mode),
{
    if in_input_mode {
        input_mode_action(key)
    } else if in_search_mode {
        search_mode_action(key)
    } else {
        normal_mode_action(key)
    }
}

/// The action and list row a pointer event resolves to within the given
/// list bounds `(x, y, width, height)`; `None` outside them.
pub open spec fn mouse_action_spec(mouse: MousePress, bounds: (u16, u16, u16, u16)) -> Option<
    (Action, int),
> {
    let (x, y, width, height) = bounds;
    if mouse.column < x || mouse.column >= x + width || mouse.row < y || mouse.row >= y + height {
        None
    } else {
        let row_index = mouse.row - y;
        match mouse.kind {
            MouseKind::LeftDown => Some((Action::Select, row_index)),
            MouseKind::ScrollUp => Some((Action::Up, row_index)),
            MouseKind::ScrollDown => Some((Action::Down, row_index)),
            MouseKind::Other => None,
        }
    }
}

/// Resolve a pointer event into an action and the list row it addressed.
pub fn mouse_to_action(mouse: MousePress, list_bounds: (u16, u16, u16, u16)) -> (r: Option<
    (Action, usize),
>)
    ensures
        r is Some <==> mouse_action_spec(mouse, list_bounds) is Some,
        r matches Some(p) ==> mouse_action_spec(mouse, list_bounds) == Some(
            (p.0, p.1 as int),
        ),
{
    let (x, y, width, height) = list_bounds;
    if mouse.column < x || (mouse.column as u32) >= (x as u32) + (width as u32) || mouse.row < y
        || (mouse.row as u32) >= (y as u32) + (height as u32) {
        return None;
    }
    let row_index = (mouse.row - y) as usize;
    match mouse.kind {
        MouseKind::LeftDown => Some((Action::Select, row_index)),
        MouseKind::ScrollUp => Some((Action::Up, row_index)),
        MouseKind::ScrollDown => Some((Action::Down, row_index)),
        MouseKind::Other => None,
    }
}

} // verus!
