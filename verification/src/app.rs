//! The application controller: the state machine over views and input
//! modes that owns the displayed state, resolves actions into state
//! transitions, and names the backend operations to perform as commands.
//!
//! The controller itself performs no I/O. Each method that reacts to an
//! action returns the list of backend commands the surrounding binary must
//! run; each `finish_*` method consumes the outcome of one such command
//! and folds it back into the state.

use vstd::prelude::*;
use vstd::view::View as _;

use crate::event::Action;
use crate::hosts::HostConfig;
use crate::model::{Preview, Session, Window};
use crate::settings::Settings;
use crate::settings_menu::{
    apply_setting, apply_setting_spec, get_settings_for_category, settings_items_ok, toggle_rel,
    SettingItem, SettingsCategory, SettingValue,
};
use crate::scan::{digit_of, digits_to_u64, digits_val, is_digit, lemma_run_end, scan_digits, CharClass};
use crate::templates::Template;
use crate::text::{dec_rep, str_eq, u64_to_string};

verus! {

/// The top-level screen the user is looking at.
#[derive(Debug, Clone, Copy, PartialEq, Eq, Structural)]
pub enum View {
    /// Main session list.
    Sessions,
    /// Window list of the selected session.
    Windows,
    /// Template selector.
    Templates,
    /// Help overlay.
    Help,
    /// Settings screen.
    Settings,
}

/// What a confirmed text input is for.
#[derive(Debug, Clone, PartialEq, Eq)]
pub enum InputPurpose {
    NewSession,
    RenameSession,
    NewWindow,
    RenameWindow,
    TemplateVariable(String),
    AddHostName,
    AddHostHostname,
    AddHostUser,
    AddHostPort,
    AddHostIdentityFile,
}

/// The action bound to a confirmation dialog.
#[derive(Debug, Clone, PartialEq, Eq)]
pub enum ConfirmAction {
    /// Kill the session with the given id.
    KillSession(String),
    /// Kill the numbered window of the given session.
    KillWindow(String, usize),
}

/// The interaction mode layered over the current view.
#[derive(Debug, Clone, PartialEq, Eq)]
pub enum InputMode {
    /// Normal navigation.
    Normal,
    /// Search/filter entry.
    Search,
    /// Text input with a prompt and a purpose.
    Input { prompt: String, purpose: InputPurpose },
    /// Confirmation dialog with a message and a bound action.
    Confirm { message: String, action: ConfirmAction },
}

/// A backend operation the controller asks the surrounding binary to run.
#[derive(Debug, Clone, PartialEq, Eq)]
pub enum Command {
    /// List sessions on the local backend and every configured host.
    RefreshSessions,
    /// Load the template collection.
    LoadTemplates,
    /// Create a session.
    CreateSession { name: String, shell: Option<String> },
    /// Rename a session.
    RenameSession { id: String, new_name: String },
    /// Kill a session.
    KillSession { id: String },
    /// Detach a session, locally or on a host.
    DetachSession { id: String, host: Option<String> },
    /// Attach by replacing the current process; returns only on failure.
    AttachExec { id: String, host: Option<String> },
    /// Attach in a newly spawned terminal.
    AttachSpawn { id: String, host: Option<String> },
    /// List the windows of a session.
    ListWindows { session: String },
    /// Select a window on the backend.
    SelectWindow { session: String, number: usize },
    /// Create a window in a session.
    CreateWindow { session: String, name: String },
    /// Kill a numbered window of a session.
    KillWindow { session: String, number: usize },
    /// Capture preview content of a session.
    CapturePreview { id: String, host: Option<String> },
    /// Create a session from the named template.
    CreateFromTemplate { name: String },
    /// Persist the settings record.
    SaveConfig,
}

/// A name for what the fuzzy matcher returns: the match score of a pattern
/// against a choice string, or nothing when the pattern does not match.
pub uninterp spec fn fuzzy_score(choice: Seq<char>, pattern: Seq<char>) -> Option<i64>;

/// Relies on `SkimMatcherV2::fuzzy_match` of the fuzzy-matcher crate, in
/// its default configuration: the score depends on the two strings alone,
/// and an empty pattern always matches.
#[verifier::external_body]
fn fuzzy_match_score(choice: &str, pattern: &str) -> (r: Option<i64>)
    ensures
        r == fuzzy_score(choice@, pattern@),
        pattern@.len() == 0 ==> r is Some,
{
    fuzzy_matcher::FuzzyMatcher::fuzzy_match(
        &fuzzy_matcher::skim::SkimMatcherV2::default(),
        choice,
        pattern,
    )
}

/// A session passes the filter when the query is empty or the fuzzy
/// matcher scores its name against the query.
pub open spec fn matches_query(s: Session, query: Seq<char>) -> bool {
    query.len() == 0 || fuzzy_score(s.name@, query) is Some
}

/// The filtered index list: the indices of the sessions whose name matches
/// the query, in their original order.
pub open spec fn filter_indices(sessions: Seq<Session>, query: Seq<char>) -> Seq<int>
    decreases sessions.len(),
{
    if sessions.len() == 0 {
        Seq::empty()
    } else {
        filter_indices(sessions.drop_last(), query) + (if matches_query(sessions.last(), query) {
            seq![sessions.len() - 1]
        } else {
            Seq::empty()
        })
    }
}

/// Every filtered index is in range, and the list is strictly increasing.
pub proof fn lemma_filter_indices_bounds(sessions: Seq<Session>, query: Seq<char>)
    ensures
        forall|i: int|
            0 <= i < filter_indices(sessions, query).len() ==> 0 <= #[trigger] filter_indices(
                sessions,
                query,
            )[i] < sessions.len(),
        forall|i: int, j: int|
            0 <= i < j < filter_indices(sessions, query).len() ==> filter_indices(
                sessions,
                query,
            )[i] < filter_indices(sessions, query)[j],
    decreases sessions.len(),
{
    if sessions.len() > 0 {
        lemma_filter_indices_bounds(sessions.drop_last(), query);
        let pre = filter_indices(sessions.drop_last(), query);
        let whole = filter_indices(sessions, query);
        assert forall|i: int| 0 <= i < whole.len() implies 0 <= #[trigger] whole[i] < sessions.len() by {
            if i < pre.len() {
                assert(whole[i] == pre[i]);
            } else {
                assert(whole[i] == sessions.len() - 1);
            }
        }
        assert forall|i: int, j: int| 0 <= i < j < whole.len() implies #[trigger] whole[i]
            < #[trigger] whole[j] by {
            if j < pre.len() {
                assert(whole[i] == pre[i] && whole[j] == pre[j]);
            } else {
                assert(whole[j] == sessions.len() - 1);
                assert(whole[i] == pre[i]);
                assert(pre[i] < sessions.drop_last().len());
            }
        }
    }
}

/// The view of an index vector.
pub open spec fn idxs(v: Seq<usize>) -> Seq<int> {
    v.map_values(|x: usize| x as int)
}

/// `n`, but at least 1: the bound a selection index is clamped under.
pub open spec fn max1(n: nat) -> nat {
    if n == 0 {
        1
    } else {
        n
    }
}

/// Number of rows the settings category at `cat_index` shows, with
/// `hosts_len` configured hosts (the hosts category always shows at least
/// the row that offers to add one).
pub open spec fn category_count(cat_index: int, hosts_len: nat) -> nat {
    if cat_index == 0 {
        4
    } else if cat_index == 1 {
        4
    } else if cat_index == 2 {
        3
    } else if cat_index == 3 {
        max1(hosts_len)
    } else if cat_index == 4 {
        4
    } else {
        0
    }
}

/// The application state owned by the controller.
pub struct App {
    /// Configuration record.
    pub config: Settings,
    /// Current view.
    pub view: View,
    /// Current interaction mode.
    pub input_mode: InputMode,
    /// Text input buffer.
    pub input_buffer: String,
    /// Cursor position in the input buffer, in characters.
    pub input_cursor: usize,
    /// Search query.
    pub search_query: String,
    /// All sessions, across hosts.
    pub sessions: Vec<Session>,
    /// Indices into `sessions` that pass the search filter.
    pub filtered_sessions: Vec<usize>,
    /// Currently selected host (`None` for local).
    pub selected_host: Option<String>,
    /// Selection index into the filtered session list.
    pub session_index: usize,
    /// The session whose windows are shown, when in the windows view.
    pub selected_session: Option<String>,
    /// Windows of the selected session.
    pub windows: Vec<Window>,
    /// Selection index into the window list.
    pub window_index: usize,
    /// Loaded templates.
    pub templates: Vec<Template>,
    /// Selection index into the template list.
    pub template_index: usize,
    /// Preview content.
    pub preview: Preview,
    /// Whether the preview panel is shown.
    pub show_preview: bool,
    /// Whether the help overlay is shown.
    pub show_help: bool,
    /// Transient status message.
    pub status_message: Option<String>,
    /// Transient error message.
    pub error_message: Option<String>,
    /// Whether the application should quit.
    pub should_quit: bool,
    /// Selectable hosts: local first, then the configured hosts by name.
    pub hosts: Vec<Option<String>>,
    /// Selection index into `hosts`.
    pub host_index: usize,
    /// Selection index into the settings categories.
    pub settings_category_index: usize,
    /// Selection index within the current settings category.
    pub settings_item_index: usize,
    /// A host entry being assembled by the add-host prompts:
    /// name, hostname, user, port and identity file. Nothing of it is
    /// persisted until the final step commits it whole.
    pub new_host: Option<(String, String, String, String, String)>,
}

impl App {
    /// The number of rows the currently selected settings category shows.
    pub open spec fn spec_settings_item_count(self) -> nat {
        category_count(self.settings_category_index as int, self.config.hosts@.len())
    }

    /// The host selector mirrors the configuration: the local entry first,
    /// then one entry per configured host, by name.
    pub open spec fn hosts_ok(self) -> bool {
        &&& self.hosts@.len() == self.config.hosts@.len() + 1
        &&& self.hosts@[0] is None
        &&& forall|i: int|
            0 <= i < self.config.hosts@.len() ==> ((#[trigger] self.hosts@[i + 1]) matches Some(n)
                && n@ == self.config.hosts@[i].name@)
    }

    /// The controller's well-formedness invariant: every selection index is
    /// below its list's length (or 0 when the list is empty), every
    /// filtered index is in range, and the host selector mirrors the
    /// configuration.
    pub open spec fn wf(self) -> bool {
        &&& self.wf_except_filter()
        &&& (self.session_index as nat) < max1(self.filtered_sessions@.len())
        &&& forall|i: int|
            0 <= i < self.filtered_sessions@.len() ==> (#[trigger] self.filtered_sessions@[i])
                < self.sessions@.len()
    }

    /// The well-formedness clauses that do not involve the filtered index
    /// list; what still holds right after the session collection was
    /// replaced and before the filter is re-applied.
    pub open spec fn wf_except_filter(self) -> bool {
        &&& (self.window_index as nat) < max1(self.windows@.len())
        &&& (self.template_index as nat) < max1(self.templates@.len())
        &&& self.settings_category_index < 5
        &&& (self.settings_item_index as nat) < max1(self.spec_settings_item_count())
        &&& self.host_index < self.hosts@.len()
        &&& (self.input_mode matches InputMode::Input { .. } ==> self.input_cursor
            <= self.input_buffer@.len())
        &&& self.hosts_ok()
    }

    /// Create the controller over a configuration, optionally starting on a
    /// named host.
    pub fn new(config: Settings, initial_host: Option<String>) -> (r: App)
        ensures
            r.wf(),
            r.config == config,
            r.view == View::Sessions,
            r.input_mode == InputMode::Normal,
            r.input_buffer@.len() == 0,
            r.input_cursor == 0,
            r.search_query@.len() == 0,
            r.sessions@.len() == 0,
            r.filtered_sessions@.len() == 0,
            r.selected_host == initial_host,
            r.session_index == 0,
            r.selected_session is None,
            r.windows@.len() == 0,
            r.window_index == 0,
            r.templates@.len() == 0,
            r.template_index == 0,
            r.show_preview == config.ui.show_preview,
            !r.show_help,
            r.status_message is None,
            r.error_message is None,
            !r.should_quit,
            r.host_index == 0,
            r.settings_category_index == 0,
            r.settings_item_index == 0,
            r.new_host is None,
    {
        let mut hosts: Vec<Option<String>> = Vec::new();
        hosts.push(None);
        let mut i: usize = 0;
        while i < config.hosts.len()
            invariant
                i <= config.hosts@.len(),
                hosts@.len() == i + 1,
                hosts@[0] is None,
                forall|j: int|
                    0 <= j < i ==> ((#[trigger] hosts@[j + 1]) matches Some(n) && n@
                        == config.hosts@[j].name@),
            decreases config.hosts@.len() - i,
        {
            hosts.push(Some(config.hosts[i].name.clone()));
            i += 1;
        }
        let show_preview = config.ui.show_preview;
        App {
            config,
            view: View::Sessions,
            input_mode: InputMode::Normal,
            input_buffer: String::new(),
            input_cursor: 0,
            search_query: String::new(),
            sessions: Vec::new(),
            filtered_sessions: Vec::new(),
            selected_host: initial_host,
            session_index: 0,
            selected_session: None,
            windows: Vec::new(),
            window_index: 0,
            templates: Vec::new(),
            template_index: 0,
            preview: Preview::new(),
            show_preview,
            show_help: false,
            status_message: None,
            error_message: None,
            should_quit: false,
            hosts,
            host_index: 0,
            settings_category_index: 0,
            settings_item_index: 0,
            new_host: None,
        }
    }

    /// The number of items in the current settings category.
    pub fn get_settings_item_count(&self) -> (r: usize)
        requires
            self.settings_category_index < 5,
        ensures
            r == self.spec_settings_item_count(),
    {
        if self.settings_category_index == 3 {
            let n = self.config.hosts.len();
            if n == 0 {
                1
            } else {
                n
            }
        } else {
            let cat = if self.settings_category_index == 0 {
                SettingsCategory::General
            } else if self.settings_category_index == 1 {
                SettingsCategory::Screen
            } else if self.settings_category_index == 2 {
                SettingsCategory::Navigation
            } else {
                SettingsCategory::Keybindings
            };
            let items = get_settings_for_category(&self.config, cat);
            items.len()
        }
    }

    /// Whether the settings screen is on the hosts category.
    pub fn is_hosts_category(&self) -> (r: bool)
        ensures
            r == (self.settings_category_index == 3),
    {
        self.settings_category_index == 3
    }

    /// The currently highlighted session, if the filtered list has one.
    pub fn get_selected_session(&self) -> (r: Option<&Session>)
        requires
            self.wf(),
        ensures
            r is Some <==> self.filtered_sessions@.len() > 0,
            r matches Some(s) ==> *s == self.sessions@[self.filtered_sessions@[self.session_index as int] as int],
    {
        if self.filtered_sessions.len() == 0 {
            return None;
        }
        let idx = self.filtered_sessions[self.session_index];
        Some(&self.sessions[idx])
    }

    /// Recompute the filtered index list for the current query and clamp
    /// the selection. The result depends only on the sessions and the
    /// query, never on the previous filtered list: filtering is idempotent.
    pub open spec fn filter_step(pre: App, post: App) -> bool {
        &&& idxs(post.filtered_sessions@) == filter_indices(pre.sessions@, pre.search_query@)
        &&& post.session_index == if pre.session_index as int
            >= filter_indices(pre.sessions@, pre.search_query@).len() {
            0
        } else {
            pre.session_index as int
        }
        &&& post.sessions == pre.sessions
        &&& post.search_query == pre.search_query
        &&& post.config == pre.config
        &&& post.view == pre.view
        &&& post.input_mode == pre.input_mode
        &&& post.input_buffer == pre.input_buffer
        &&& post.input_cursor == pre.input_cursor
        &&& post.selected_host == pre.selected_host
        &&& post.selected_session == pre.selected_session
        &&& post.windows == pre.windows
        &&& post.window_index == pre.window_index
        &&& post.templates == pre.templates
        &&& post.template_index == pre.template_index
        &&& post.preview == pre.preview
        &&& post.show_preview == pre.show_preview
        &&& post.show_help == pre.show_help
        &&& post.error_message == pre.error_message
        &&& post.should_quit == pre.should_quit
        &&& post.hosts == pre.hosts
        &&& post.host_index == pre.host_index
        &&& post.settings_category_index == pre.settings_category_index
        &&& post.settings_item_index == pre.settings_item_index
        &&& post.new_host == pre.new_host
    }

    /// Apply the search filter to the session list.
    fn apply_filter(&mut self)
        requires
            old(self).wf_except_filter(),
        ensures
            final(self).wf(),
            App::filter_step(*old(self), *final(self)),
            final(self).status_message == old(self).status_message,
    {
        let ghost pre = *self;
        let mut filtered: Vec<usize> = Vec::new();
        let len = self.sessions.len();
        let query_empty = self.search_query.as_str().unicode_len() == 0;
        let mut i: usize = 0;
        while i < len
            invariant
                i <= len,
                len == self.sessions@.len(),
                *self == pre,
                query_empty == (self.search_query@.len() == 0),
                idxs(filtered@) == filter_indices(
                    self.sessions@.take(i as int),
                    self.search_query@,
                ),
                forall|j: int| 0 <= j < filtered@.len() ==> (#[trigger] filtered@[j]) < len,
            decreases len - i,
        {
            let keep = if query_empty {
                true
            } else {
                fuzzy_match_score(
                    self.sessions[i].name.as_str(),
                    self.search_query.as_str(),
                ).is_some()
            };
            proof {
                assert(self.sessions@.take(i + 1).drop_last() =~= self.sessions@.take(i as int));
                assert(self.sessions@.take(i + 1).last() == self.sessions@[i as int]);
            }
            if keep {
                filtered.push(i);
                proof {
                    assert(idxs(filtered@) =~= filter_indices(
                        self.sessions@.take(i + 1),
                        self.search_query@,
                    ));
                }
            } else {
                proof {
                    assert(idxs(filtered@) =~= filter_indices(
                        self.sessions@.take(i + 1),
                        self.search_query@,
                    ));
                }
            }
            i += 1;
        }
        proof {
            assert(self.sessions@.take(len as int) =~= self.sessions@);
        }
        self.filtered_sessions = filtered;
        if self.session_index >= self.filtered_sessions.len() {
            self.session_index = 0;
        }
    }

    /// The selection index the current view navigates.
    pub open spec fn nav_cur(self) -> int {
        match self.view {
            View::Sessions => self.session_index as int,
            View::Windows => self.window_index as int,
            View::Templates => self.template_index as int,
            View::Settings => self.settings_item_index as int,
            View::Help => 0,
        }
    }

    /// The length of the list the current view navigates.
    pub open spec fn nav_len(self) -> nat {
        match self.view {
            View::Sessions => self.filtered_sessions@.len(),
            View::Windows => self.windows@.len(),
            View::Templates => self.templates@.len(),
            View::Settings => self.spec_settings_item_count(),
            View::Help => 0,
        }
    }

    /// A navigation step: only the current view's selection index changes,
    /// to `new_index`; the help view has no index and changes nothing.
    pub open spec fn nav_step(pre: App, post: App, new_index: int) -> bool {
        &&& match pre.view {
            View::Sessions => post.session_index == new_index && post.window_index
                == pre.window_index && post.template_index == pre.template_index
                && post.settings_item_index == pre.settings_item_index,
            View::Windows => post.window_index == new_index && post.session_index
                == pre.session_index && post.template_index == pre.template_index
                && post.settings_item_index == pre.settings_item_index,
            View::Templates => post.template_index == new_index && post.session_index
                == pre.session_index && post.window_index == pre.window_index
                && post.settings_item_index == pre.settings_item_index,
            View::Settings => post.settings_item_index == new_index && post.session_index
                == pre.session_index && post.window_index == pre.window_index
                && post.template_index == pre.template_index,
            View::Help => post.session_index == pre.session_index && post.window_index
                == pre.window_index && post.template_index == pre.template_index
                && post.settings_item_index == pre.settings_item_index,
        }
        &&& post.settings_category_index == pre.settings_category_index
        &&& post.config == pre.config
        &&& post.view == pre.view
        &&& post.input_mode == pre.input_mode
        &&& post.input_buffer == pre.input_buffer
        &&& post.input_cursor == pre.input_cursor
        &&& post.search_query == pre.search_query
        &&& post.sessions == pre.sessions
        &&& post.filtered_sessions == pre.filtered_sessions
        &&& post.selected_host == pre.selected_host
        &&& post.selected_session == pre.selected_session
        &&& post.windows == pre.windows
        &&& post.templates == pre.templates
        &&& post.preview == pre.preview
        &&& post.show_preview == pre.show_preview
        &&& post.show_help == pre.show_help
        &&& post.error_message == pre.error_message
        &&& post.should_quit == pre.should_quit
        &&& post.hosts == pre.hosts
        &&& post.host_index == pre.host_index
        &&& post.new_host == pre.new_host
    }

    /// Write the current view's selection index.
    fn set_nav_index(&mut self, value: usize)
        requires
            old(self).wf(),
            old(self).view == View::Help || (value as nat) < max1(old(self).nav_len()),
        ensures
            final(self).wf(),
            App::nav_step(*old(self), *final(self), if old(self).view is Help {
                old(self).nav_cur()
            } else {
                value as int
            }),
            final(self).status_message == old(self).status_message,
    {
        match self.view {
            View::Sessions => {
                self.session_index = value;
            },
            View::Windows => {
                self.window_index = value;
            },
            View::Templates => {
                self.template_index = value;
            },
            View::Settings => {
                self.settings_item_index = value;
            },
            View::Help => {
            },
        }
    }

    /// Read the current view's selection index.
    fn nav_index(&self) -> (r: usize)
        ensures
            r == self.nav_cur(),
    {
        match self.view {
            View::Sessions => self.session_index,
            View::Windows => self.window_index,
            View::Templates => self.template_index,
            View::Settings => self.settings_item_index,
            View::Help => 0,
        }
    }

    /// Read the current view's list length.
    fn nav_length(&self) -> (r: usize)
        requires
            self.wf(),
        ensures
            r == self.nav_len(),
    {
        match self.view {
            View::Sessions => self.filtered_sessions.len(),
            View::Windows => self.windows.len(),
            View::Templates => self.templates.len(),
            View::Settings => self.get_settings_item_count(),
            View::Help => 0,
        }
    }

    /// Move the selection up one row.
    fn move_up(&mut self)
        requires
            old(self).wf(),
        ensures
            final(self).wf(),
            App::nav_step(*old(self), *final(self), if old(self).nav_cur() > 0 {
                old(self).nav_cur() - 1
            } else {
                old(self).nav_cur()
            }),
            final(self).status_message == old(self).status_message,
    {
        let cur = self.nav_index();
        if cur > 0 {
            self.set_nav_index(cur - 1);
        } else {
            self.set_nav_index(cur);
        }
    }

    /// Move the selection down one row, stopping at the end of the list.
    fn move_down(&mut self)
        requires
            old(self).wf(),
        ensures
            final(self).wf(),
            App::nav_step(*old(self), *final(self), if old(self).nav_cur() + 1 < old(self).nav_len() {
                old(self).nav_cur() + 1
            } else {
                old(self).nav_cur()
            }),
            final(self).status_message == old(self).status_message,
    {
        let cur = self.nav_index();
        let len = self.nav_length();
        if len > 0 && cur < len - 1 {
            self.set_nav_index(cur + 1);
        } else {
            self.set_nav_index(cur);
        }
    }

    /// Move the selection to the first row.
    fn move_to_top(&mut self)
        requires
            old(self).wf(),
        ensures
            final(self).wf(),
            App::nav_step(*old(self), *final(self), 0),
            final(self).status_message == old(self).status_message,
    {
        self.set_nav_index(0);
    }

    /// Move the selection to the last row.
    fn move_to_bottom(&mut self)
        requires
            old(self).wf(),
        ensures
            final(self).wf(),
            App::nav_step(*old(self), *final(self), if old(self).nav_len() > 0 {
                old(self).nav_len() - 1
            } else {
                0
            }),
            final(self).status_message == old(self).status_message,
    {
        let len = self.nav_length();
        if len > 0 {
            self.set_nav_index(len - 1);
        } else {
            self.set_nav_index(0);
        }
    }

    /// Move the selection up one page.
    fn page_up(&mut self)
        requires
            old(self).wf(),
        ensures
            final(self).wf(),
            App::nav_step(*old(self), *final(self), if old(self).nav_cur() >= 10 {
                old(self).nav_cur() - 10
            } else {
                0
            }),
            final(self).status_message == old(self).status_message,
    {
        let cur = self.nav_index();
        if cur >= 10 {
            self.set_nav_index(cur - 10);
        } else {
            self.set_nav_index(0);
        }
    }

    /// Move the selection down one page, stopping at the end of the list.
    fn page_down(&mut self)
        requires
            old(self).wf(),
        ensures
            final(self).wf(),
            App::nav_step(*old(self), *final(self), ({
                let max_index: int = if old(self).nav_len() > 0 {
                    old(self).nav_len() - 1
                } else {
                    0
                };
                if old(self).nav_cur() + 10 <= max_index {
                    old(self).nav_cur() + 10
                } else {
                    max_index
                }
            })),
            final(self).status_message == old(self).status_message,
    {
        let cur = self.nav_index();
        let len = self.nav_length();
        let max_index = if len > 0 {
            len - 1
        } else {
            0
        };
        let target = if cur <= usize::MAX - 10 {
            cur + 10
        } else {
            usize::MAX
        };
        if target <= max_index {
            self.set_nav_index(target);
        } else {
            self.set_nav_index(max_index);
        }
    }
}

/// The ten-fold powers, for digit-count bounds.
pub open spec fn ten_pow(n: nat) -> nat
    decreases n,
{
    if n == 0 {
        1
    } else {
        10 * ten_pow((n - 1) as nat)
    }
}

/// Leading zeros do not change the value of a digit run.
proof fn lemma_digits_val_leading_zeros(s: Seq<char>, z: int)
    requires
        0 <= z <= s.len(),
        forall|i: int| 0 <= i < z ==> s[i] == '0',
    ensures
        digits_val(s) == digits_val(s.skip(z)),
    decreases s.len(),
{
    if s.len() == 0 {
        assert(s.skip(z) =~= s);
    } else if z == s.len() {
        lemma_digits_val_leading_zeros(s.drop_last(), z - 1);
        assert(s.drop_last().skip(z - 1) =~= Seq::<char>::empty());
        assert(digit_of(s.last()) == 0);
        assert(s.skip(z) =~= Seq::<char>::empty());
    } else {
        lemma_digits_val_leading_zeros(s.drop_last(), z);
        assert(s.skip(z).drop_last() =~= s.drop_last().skip(z));
        assert(s.skip(z).last() == s.last());
    }
}

/// A digit run that starts with a non-zero digit is at least the power of
/// ten of its remaining length.
proof fn lemma_digits_val_min(s: Seq<char>)
    requires
        s.len() >= 1,
        forall|i: int| 0 <= i < s.len() ==> is_digit(s[i]),
        s[0] != '0',
    ensures
        digits_val(s) >= ten_pow((s.len() - 1) as nat),
    decreases s.len(),
{
    if s.len() == 1 {
        assert(is_digit(s[0]));
    } else {
        lemma_digits_val_min(s.drop_last());
    }
}

/// A digit run is below the power of ten of its length.
proof fn lemma_digits_val_max(s: Seq<char>)
    ensures
        digits_val(s) < ten_pow(s.len()),
    decreases s.len(),
{
    if s.len() > 0 {
        lemma_digits_val_max(s.drop_last());
        assert(digit_of(s.last()) <= 9);
    }
}

/// Every character of the sequence is a decimal digit.
pub open spec fn all_digits(s: Seq<char>) -> bool {
    forall|i: int| 0 <= i < s.len() ==> is_digit(#[trigger] s[i])
}

/// The port named by a text: an optional plus sign, then only digits,
/// read as a number that must fit a `u16`; anything else is no port,
/// mirroring a fallible integer parse.
pub open spec fn port_of(s: Seq<char>) -> Option<u16> {
    let body = if s.len() > 0 && s[0] == '+' {
        s.skip(1)
    } else {
        s
    };
    if body.len() > 0 && all_digits(body) && digits_val(body) <= u16::MAX {
        Some(digits_val(body) as u16)
    } else {
        None
    }
}

/// Read a port number from its text form.
fn parse_port(s: &str) -> (r: Option<u16>)
    ensures
        r == port_of(s@),
{
    let len = s.unicode_len();
    let start: usize = if len > 0 && s.get_char(0) == '+' {
        1
    } else {
        0
    };
    let ghost body = if s@.len() > 0 && s@[0] == '+' {
        s@.skip(1)
    } else {
        s@
    };
    proof {
        assert(body =~= s@.skip(start as int));
    }
    let d = scan_digits(s, start);
    proof {
        lemma_run_end(s@, start as int, CharClass::Digit);
    }
    if d != len || d == start {
        proof {
            if d < s@.len() {
                assert(!is_digit(s@[d as int]));
                assert(0 <= d - start < body.len());
                assert(body[d - start] == s@[d as int]);
                assert(!is_digit(body[d - start]));
                assert(!all_digits(body));
            } else {
                assert(d == len && d == start);
                assert(body.len() == 0);
            }
            assert(port_of(s@) is None);
        }
        return None;
    }
    proof {
        assert(forall|i: int|
            0 <= i < body.len() ==> body[i] == s@[i + start] && is_digit(#[trigger] body[i]));
        assert(all_digits(body));
    }
    let mut z = start;
    while z < len && s.get_char(z) == '0'
        invariant
            start <= z <= len,
            len == s@.len(),
            forall|i: int| start <= i < z ==> s@[i] == '0',
        decreases len - z,
    {
        z += 1;
    }
    proof {
        assert(forall|i: int| 0 <= i < z - start ==> body[i] == '0');
        lemma_digits_val_leading_zeros(body, z - start);
        assert(body.skip(z - start) =~= s@.subrange(z as int, len as int));
    }
    if len - z > 5 {
        proof {
            let eff = s@.subrange(z as int, len as int);
            assert(s@[z as int] != '0');
            assert(eff[0] == s@[z as int]);
            lemma_digits_val_min(eff);
            assert(ten_pow(5) == 100000) by {
                assert(ten_pow(0) == 1);
                assert(ten_pow(1) == 10);
                assert(ten_pow(2) == 100);
                assert(ten_pow(3) == 1000);
                assert(ten_pow(4) == 10000);
            }
            assert(ten_pow((eff.len() - 1) as nat) >= ten_pow(5)) by {
                let k = (eff.len() - 1) as nat;
                assert(k >= 5);
                lemma_ten_pow_mono(5, k);
            }
            assert(digits_val(body) == digits_val(eff));
            assert(digits_val(body) > u16::MAX);
            assert(port_of(s@) is None);
        }
        return None;
    }
    let val = digits_to_u64(s, z, len);
    proof {
        let eff = s@.subrange(z as int, len as int);
        lemma_digits_val_max(eff);
        assert(ten_pow(eff.len()) <= 100000) by {
            assert(ten_pow(0) == 1);
            assert(ten_pow(1) == 10);
            assert(ten_pow(2) == 100);
            assert(ten_pow(3) == 1000);
            assert(ten_pow(4) == 10000);
            assert(ten_pow(5) == 100000);
            if eff.len() < 5 {
                lemma_ten_pow_mono(eff.len(), 5);
            }
        }
    }
    if val <= 65535 {
        Some(val as u16)
    } else {
        None
    }
}

/// Powers of ten are monotone.
proof fn lemma_ten_pow_mono(a: nat, b: nat)
    requires
        a <= b,
    ensures
        ten_pow(a) <= ten_pow(b),
    decreases b,
{
    if a < b {
        lemma_ten_pow_mono(a, (b - 1) as nat);
        assert(ten_pow(b) == 10 * ten_pow((b - 1) as nat));
        assert(ten_pow((b - 1) as nat) >= 1) by {
            lemma_ten_pow_pos((b - 1) as nat);
        }
    }
}

/// Powers of ten are positive.
proof fn lemma_ten_pow_pos(n: nat)
    ensures
        ten_pow(n) >= 1,
    decreases n,
{
    if n > 0 {
        lemma_ten_pow_pos((n - 1) as nat);
    }
}

/// Concatenation of two strings.
fn concat2(a: &str, b: &str) -> (r: String)
    ensures
        r@ == a@ + b@,
{
    let mut r = a.to_owned();
    r.append(b);
    r
}

/// Concatenation of three strings.
fn concat3(a: &str, b: &str, c: &str) -> (r: String)
    ensures
        r@ == a@ + b@ + c@,
{
    let mut r = a.to_owned();
    r.append(b);
    r.append(c);
    r
}

/// An exact copy of an optional string.
fn clone_opt_string(o: &Option<String>) -> (r: Option<String>)
    ensures
        r == *o,
{
    match o {
        Some(s) => Some(s.clone()),
        None => None,
    }
}

/// Relies on `String::push` of the standard library: it appends exactly the
/// given character.
#[verifier::external_body]
fn push_char(s: &mut String, c: char)
    ensures
        final(s)@ == old(s)@.push(c),
{
    s.push(c);
}

/// The host entry a completed add-host wizard commits: empty user and
/// identity file mean none, and the port text is parsed as a number.
pub open spec fn staged_host(t: (String, String, String, String, String)) -> HostConfig {
    HostConfig {
        name: t.0,
        hostname: t.1,
        user: if t.2@.len() == 0 {
            None
        } else {
            Some(t.2)
        },
        port: port_of(t.3@),
        identity_file: if t.4@.len() == 0 {
            None
        } else {
            Some(t.4)
        },
    }
}

impl App {
    /// The currently highlighted session, at the spec level.
    pub open spec fn sel_session(self) -> Option<Session> {
        if self.filtered_sessions@.len() > 0 {
            Some(self.sessions@[self.filtered_sessions@[self.session_index as int] as int])
        } else {
            None
        }
    }

    /// Fields almost no action touches.
    pub open spec fn same_core(a: App, b: App) -> bool {
        &&& b.config == a.config
        &&& b.hosts == a.hosts
        &&& b.host_index == a.host_index
        &&& b.selected_host == a.selected_host
        &&& b.sessions == a.sessions
        &&& b.windows == a.windows
        &&& b.templates == a.templates
        &&& b.template_index == a.template_index
        &&& b.preview == a.preview
        &&& b.show_preview == a.show_preview
        &&& b.selected_session == a.selected_session
        &&& b.new_host == a.new_host
    }

    /// The filter state: the query, the derived index list and the session
    /// selection.
    pub open spec fn same_filter(a: App, b: App) -> bool {
        &&& b.filtered_sessions == a.filtered_sessions
        &&& b.search_query == a.search_query
        &&& b.session_index == a.session_index
    }

    /// The view, the help overlay and the per-view selection indices other
    /// than the session selection.
    pub open spec fn same_panel(a: App, b: App) -> bool {
        &&& b.view == a.view
        &&& b.show_help == a.show_help
        &&& b.window_index == a.window_index
        &&& b.settings_category_index == a.settings_category_index
        &&& b.settings_item_index == a.settings_item_index
    }

    /// The interaction mode and the input buffer.
    pub open spec fn same_mode(a: App, b: App) -> bool {
        &&& b.input_mode == a.input_mode
        &&& b.input_buffer == a.input_buffer
        &&& b.input_cursor == a.input_cursor
    }

    /// The quit flag and the error message.
    pub open spec fn same_outcome(a: App, b: App) -> bool {
        &&& b.should_quit == a.should_quit
        &&& b.error_message == a.error_message
    }

    /// Nothing but the status message may differ.
    pub open spec fn unchanged(a: App, b: App) -> bool {
        &&& App::same_core(a, b)
        &&& App::same_filter(a, b)
        &&& App::same_panel(a, b)
        &&& App::same_mode(a, b)
        &&& App::same_outcome(a, b)
    }

    /// Entering text input: the mode and the buffer change, nothing else.
    pub open spec fn enter_input_rel(
        a: App,
        b: App,
        prompt: Seq<char>,
        purpose: InputPurpose,
        buffer: Seq<char>,
        cursor: int,
    ) -> bool {
        &&& App::same_core(a, b)
        &&& App::same_filter(a, b)
        &&& App::same_panel(a, b)
        &&& App::same_outcome(a, b)
        &&& b.input_mode matches InputMode::Input { prompt: p, purpose: u } && p@ == prompt && u
            == purpose
        &&& b.input_buffer@ == buffer
        &&& b.input_cursor == cursor
    }

    /// Open the prompt for a new session name.
    fn start_new_session(&mut self)
        requires
            old(self).wf(),
        ensures
            final(self).wf(),
            App::enter_input_rel(
                *old(self),
                *final(self),
                "Session name:"@,
                InputPurpose::NewSession,
                Seq::empty(),
                0,
            ),
            final(self).status_message == old(self).status_message,
    {
        self.input_mode = InputMode::Input {
            prompt: "Session name:".to_owned(),
            purpose: InputPurpose::NewSession,
        };
        self.input_buffer = String::new();
        self.input_cursor = 0;
    }

    /// Open the rename prompt for the highlighted session, pre-filled with
    /// its name; without a selection nothing happens.
    fn start_rename_session(&mut self)
        requires
            old(self).wf(),
        ensures
            final(self).wf(),
            match old(self).sel_session() {
                Some(s) => App::enter_input_rel(
                    *old(self),
                    *final(self),
                    "Rename '"@ + s.name@ + "' to:"@,
                    InputPurpose::RenameSession,
                    s.name@,
                    s.name@.len() as int,
                ),
                None => App::unchanged(*old(self), *final(self)),
            },
            final(self).status_message == old(self).status_message,
    {
        match self.get_selected_session() {
            Some(session) => {
                let name = session.name.clone();
                proof {
                    reveal_strlit("Rename '");
                    reveal_strlit("' to:");
                }
                let prompt = concat3("Rename '", name.as_str(), "' to:");
                let cursor = name.as_str().unicode_len();
                self.input_mode = InputMode::Input {
                    prompt,
                    purpose: InputPurpose::RenameSession,
                };
                self.input_buffer = name;
                self.input_cursor = cursor;
            },
            None => {
            },
        }
    }

    /// Opening the kill confirmation: with a highlighted session the mode
    /// becomes a confirmation bound to exactly that session's id.
    pub open spec fn confirm_kill_rel(a: App, b: App) -> bool {
        match a.sel_session() {
            Some(s) => {
                &&& App::same_core(a, b)
                &&& App::same_filter(a, b)
                &&& App::same_panel(a, b)
                &&& App::same_outcome(a, b)
                &&& b.input_buffer == a.input_buffer
                &&& b.input_cursor == a.input_cursor
                &&& b.input_mode matches InputMode::Confirm { message, action } && message@
                    == "Kill session '"@ + s.name@ + "'?"@ && action == ConfirmAction::KillSession(
                    s.id,
                )
            },
            None => App::unchanged(a, b),
        }
    }

    /// Open the confirmation dialog for killing the highlighted session.
    fn confirm_kill_session(&mut self)
        requires
            old(self).wf(),
        ensures
            final(self).wf(),
            App::confirm_kill_rel(*old(self), *final(self)),
            final(self).status_message == old(self).status_message,
    {
        match self.get_selected_session() {
            Some(session) => {
                let name = session.name.clone();
                let id = session.id.clone();
                proof {
                    reveal_strlit("Kill session '");
                    reveal_strlit("'?");
                }
                let message = concat3("Kill session '", name.as_str(), "'?");
                self.input_mode = InputMode::Confirm {
                    message,
                    action: ConfirmAction::KillSession(id),
                };
            },
            None => {
            },
        }
    }

    /// Begin the add-host wizard: stage an empty record (with the default
    /// port) and ask for the alias.
    /// Beginning the add-host wizard: a fresh staging record (with the
    /// default port) and the alias prompt.
    pub open spec fn start_add_host_rel(a: App, b: App) -> bool {
        &&& App::same_filter(a, b)
        &&& App::same_panel(a, b)
        &&& App::same_outcome(a, b)
        &&& b.config == a.config
        &&& b.hosts == a.hosts
        &&& b.host_index == a.host_index
        &&& b.selected_host == a.selected_host
        &&& b.sessions == a.sessions
        &&& b.windows == a.windows
        &&& b.templates == a.templates
        &&& b.template_index == a.template_index
        &&& b.preview == a.preview
        &&& b.show_preview == a.show_preview
        &&& b.selected_session == a.selected_session
        &&& b.new_host matches Some(t) && t.0@.len() == 0 && t.1@.len() == 0 && t.2@.len() == 0
            && t.3@ == "22"@ && t.4@.len() == 0
        &&& b.input_mode matches InputMode::Input { prompt, purpose } && prompt@
            == "Host name (alias):"@ && purpose == InputPurpose::AddHostName
        &&& b.input_buffer@.len() == 0
        &&& b.input_cursor == 0
    }

    fn start_add_host(&mut self)
        requires
            old(self).wf(),
        ensures
            final(self).wf(),
            App::start_add_host_rel(*old(self), *final(self)),
            final(self).status_message == old(self).status_message,
    {
        proof {
            reveal_strlit("22");
        }
        self.new_host = Some(
            (String::new(), String::new(), String::new(), "22".to_owned(), String::new()),
        );
        self.input_mode = InputMode::Input {
            prompt: "Host name (alias):".to_owned(),
            purpose: InputPurpose::AddHostName,
        };
        self.input_buffer = String::new();
        self.input_cursor = 0;
    }

    /// Rebuild the host selector from the configuration.
    fn rebuild_hosts(&mut self)
        ensures
            final(self).hosts_ok(),
            final(self).hosts@.len() == final(self).config.hosts@.len() + 1,
            *final(self) == (App { hosts: final(self).hosts, ..*old(self) }),
    {
        let mut hosts: Vec<Option<String>> = Vec::new();
        hosts.push(None);
        let mut i: usize = 0;
        while i < self.config.hosts.len()
            invariant
                i <= self.config.hosts@.len(),
                hosts@.len() == i + 1,
                hosts@[0] is None,
                forall|j: int|
                    0 <= j < i ==> ((#[trigger] hosts@[j + 1]) matches Some(n) && n@
                        == self.config.hosts@[j].name@),
            decreases self.config.hosts@.len() - i,
        {
            hosts.push(Some(self.config.hosts[i].name.clone()));
            i += 1;
        }
        self.hosts = hosts;
    }

    /// Commit the staged host: with a name and a hostname it is appended to
    /// the configuration whole and the host selector is rebuilt; otherwise
    /// an error is reported and nothing is persisted. Either way the staged
    /// record is discarded.
    fn finish_add_host(&mut self) -> (cmds: Vec<Command>)
        requires
            old(self).wf(),
        ensures
            final(self).wf(),
            final(self).new_host is None,
            App::same_filter(*old(self), *final(self)),
            final(self).view == old(self).view,
            final(self).show_help == old(self).show_help,
            final(self).window_index == old(self).window_index,
            final(self).settings_category_index == old(self).settings_category_index,
            final(self).settings_item_index == old(self).settings_item_index,
            final(self).input_mode == old(self).input_mode,
            final(self).input_buffer == old(self).input_buffer,
            final(self).input_cursor == old(self).input_cursor,
            final(self).sessions == old(self).sessions,
            final(self).windows == old(self).windows,
            final(self).templates == old(self).templates,
            final(self).template_index == old(self).template_index,
            final(self).preview == old(self).preview,
            final(self).show_preview == old(self).show_preview,
            final(self).selected_session == old(self).selected_session,
            final(self).selected_host == old(self).selected_host,
            final(self).host_index == old(self).host_index,
            final(self).should_quit == old(self).should_quit,
            match old(self).new_host {
                None => {
                    &&& final(self).config == old(self).config
                    &&& final(self).hosts == old(self).hosts
                    &&& final(self).status_message == old(self).status_message
                    &&& final(self).error_message == old(self).error_message
                    &&& cmds@.len() == 0
                },
                Some(t) => {
                    if t.0@.len() == 0 || t.1@.len() == 0 {
                        &&& final(self).config == old(self).config
                        &&& final(self).hosts == old(self).hosts
                        &&& final(self).status_message == old(self).status_message
                        &&& final(self).error_message matches Some(m) && m@
                            == "Host name and hostname are required"@
                        &&& cmds@.len() == 0
                    } else {
                        &&& final(self).config.hosts@ == old(self).config.hosts@.push(
                            staged_host(t),
                        )
                        &&& final(self).config.ui == old(self).config.ui
                        &&& final(self).config.navigation == old(self).config.navigation
                        &&& final(self).config.screen == old(self).config.screen
                        &&& final(self).config.integrations == old(self).config.integrations
                        &&& final(self).config.keybindings == old(self).config.keybindings
                        &&& final(self).status_message matches Some(m) && m@ == "Added host '"@
                            + t.0@ + "'"@
                        &&& final(self).error_message == old(self).error_message
                        &&& cmds@ == seq![Command::SaveConfig]
                    }
                },
            },
    {
        let staged = self.new_host.take();
        match staged {
            Some((name, hostname, user, port, identity_file)) => {
                if name.as_str().unicode_len() == 0 || hostname.as_str().unicode_len() == 0 {
                    self.error_message = Some(
                        "Host name and hostname are required".to_owned(),
                    );
                    return Vec::new();
                }
                let port_num = parse_port(port.as_str());
                proof {
                    reveal_strlit("Added host '");
                    reveal_strlit("'");
                }
                let status = concat3("Added host '", name.as_str(), "'");
                let new_host = HostConfig {
                    name,
                    hostname,
                    user: if user.as_str().unicode_len() == 0 {
                        None
                    } else {
                        Some(user)
                    },
                    port: port_num,
                    identity_file: if identity_file.as_str().unicode_len() == 0 {
                        None
                    } else {
                        Some(identity_file)
                    },
                };
                self.config.hosts.push(new_host);
                self.rebuild_hosts();
                self.status_message = Some(status);
                let mut cmds: Vec<Command> = Vec::new();
                cmds.push(Command::SaveConfig);
                proof {
                    assert(cmds@ =~= seq![Command::SaveConfig]);
                }
                cmds
            },
            None => Vec::new(),
        }
    }

    /// Deleting the selected host: when the settings screen is on the hosts
    /// category and a host exists, the host at the clamped selection leaves
    /// the configuration whole, the selector is rebuilt, the selections are
    /// re-clamped and the change is persisted; otherwise nothing happens.
    /// The status message reflects the deletion; the dispatcher clears it
    /// beforehand.
    pub open spec fn delete_host_rel(a: App, b: App, cmds: Seq<Command>) -> bool {
        &&& App::same_filter(a, b)
        &&& b.view == a.view
        &&& b.show_help == a.show_help
        &&& b.window_index == a.window_index
        &&& b.settings_category_index == a.settings_category_index
        &&& App::same_mode(a, b)
        &&& b.sessions == a.sessions
        &&& b.windows == a.windows
        &&& b.templates == a.templates
        &&& b.template_index == a.template_index
        &&& b.preview == a.preview
        &&& b.show_preview == a.show_preview
        &&& b.selected_session == a.selected_session
        &&& b.selected_host == a.selected_host
        &&& b.host_index == if a.host_index < b.hosts@.len() {
            a.host_index as int
        } else {
            0
        }
        &&& b.should_quit == a.should_quit
        &&& b.error_message == a.error_message
        &&& b.new_host == a.new_host
        &&& if a.settings_category_index == 3 && a.config.hosts@.len() > 0 {
            ({
                let idx = if (a.settings_item_index as int) < a.config.hosts@.len() {
                    a.settings_item_index as int
                } else {
                    a.config.hosts@.len() - 1
                };
                &&& b.config.hosts@ == a.config.hosts@.remove(idx)
                &&& b.config.ui == a.config.ui
                &&& b.config.navigation == a.config.navigation
                &&& b.config.screen == a.config.screen
                &&& b.config.integrations == a.config.integrations
                &&& b.config.keybindings == a.config.keybindings
                &&& b.status_message matches Some(m) && m@ == "Host deleted"@
                &&& cmds == seq![Command::SaveConfig]
            })
        } else {
            &&& b.config == a.config
            &&& b.hosts == a.hosts
            &&& b.settings_item_index == a.settings_item_index
            &&& b.status_message == a.status_message
            &&& cmds.len() == 0
        }
    }

    /// Delete the selected host from the configuration (when the settings
    /// screen is on the hosts category and a host exists), rebuild the
    /// host selector and re-clamp the selection.
    fn delete_host(&mut self) -> (cmds: Vec<Command>)
        requires
            old(self).wf(),
        ensures
            final(self).wf(),
            App::delete_host_rel(*old(self), *final(self), cmds@),
    {
        if self.settings_category_index != 3 || self.config.hosts.len() == 0 {
            return Vec::new();
        }
        let hosts_len = self.config.hosts.len();
        let idx = if self.settings_item_index < hosts_len {
            self.settings_item_index
        } else {
            hosts_len - 1
        };
        let _removed = self.config.hosts.remove(idx);
        self.rebuild_hosts();
        // Keep the selections inside the shrunken lists.
        let count = self.get_settings_item_count();
        if self.settings_item_index >= count {
            self.settings_item_index = count - 1;
        }
        if self.host_index >= self.hosts.len() {
            self.host_index = 0;
        }
        self.status_message = Some("Host deleted".to_owned());
        let mut cmds: Vec<Command> = Vec::new();
        cmds.push(Command::SaveConfig);
        proof {
            assert(cmds@ =~= seq![Command::SaveConfig]);
        }
        cmds
    }
}

impl App {
    /// Reset to normal mode, clearing the input buffer, the cursor and any
    /// staged host.
    fn input_cancel(&mut self)
        requires
            old(self).wf(),
        ensures
            final(self).wf(),
            App::same_core_but_staged(*old(self), *final(self)),
            App::same_filter(*old(self), *final(self)),
            App::same_panel(*old(self), *final(self)),
            App::same_outcome(*old(self), *final(self)),
            final(self).input_mode == InputMode::Normal,
            final(self).input_buffer@.len() == 0,
            final(self).input_cursor == 0,
            final(self).new_host is None,
            final(self).status_message == old(self).status_message,
    {
        self.input_mode = InputMode::Normal;
        self.input_buffer = String::new();
        self.input_cursor = 0;
        self.new_host = None;
    }

    /// Fields almost no action touches, staged host excluded.
    pub open spec fn same_core_but_staged(a: App, b: App) -> bool {
        &&& b.config == a.config
        &&& b.hosts == a.hosts
        &&& b.host_index == a.host_index
        &&& b.selected_host == a.selected_host
        &&& b.sessions == a.sessions
        &&& b.windows == a.windows
        &&& b.templates == a.templates
        &&& b.template_index == a.template_index
        &&& b.preview == a.preview
        &&& b.show_preview == a.show_preview
        &&& b.selected_session == a.selected_session
    }

    /// The effect of typing one character: in search mode it extends the
    /// query and the filter is recomputed; in input mode it is inserted at
    /// the cursor; otherwise nothing happens.
    pub open spec fn input_char_rel(a: App, b: App, c: char) -> bool {
        &&& App::same_core(a, b)
        &&& App::same_panel(a, b)
        &&& App::same_outcome(a, b)
        &&& match a.input_mode {
            InputMode::Search => {
                &&& b.search_query@ == a.search_query@.push(c)
                &&& idxs(b.filtered_sessions@) == filter_indices(
                    a.sessions@,
                    a.search_query@.push(c),
                )
                &&& b.session_index == if a.session_index as int >= filter_indices(
                    a.sessions@,
                    a.search_query@.push(c),
                ).len() {
                    0
                } else {
                    a.session_index as int
                }
                &&& b.input_mode == a.input_mode
                &&& b.input_buffer == a.input_buffer
                &&& b.input_cursor == a.input_cursor
            },
            InputMode::Input { .. } => {
                &&& App::same_filter(a, b)
                &&& b.input_mode == a.input_mode
                &&& b.input_buffer@ == a.input_buffer@.subrange(0, a.input_cursor as int)
                    + seq![c] + a.input_buffer@.subrange(
                    a.input_cursor as int,
                    a.input_buffer@.len() as int,
                )
                &&& b.input_cursor == a.input_cursor + 1
            },
            _ => App::same_filter(a, b) && App::same_mode(a, b),
        }
    }

    /// Type one character into the active editing target.
    fn input_char(&mut self, c: char)
        requires
            old(self).wf(),
        ensures
            final(self).wf(),
            App::input_char_rel(*old(self), *final(self), c),
            final(self).status_message == old(self).status_message,
    {
        let is_search = match &self.input_mode {
            InputMode::Search => true,
            _ => false,
        };
        let is_input = match &self.input_mode {
            InputMode::Input { .. } => true,
            _ => false,
        };
        if is_search {
            push_char(&mut self.search_query, c);
            self.apply_filter();
        } else if is_input {
            let len = self.input_buffer.as_str().unicode_len();
            let mut r = self.input_buffer.as_str().substring_char(0, self.input_cursor).to_owned();
            push_char(&mut r, c);
            let tail = self.input_buffer.as_str().substring_char(self.input_cursor, len).to_owned();
            r.append(tail.as_str());
            // The new buffer's length bounds the advanced cursor.
            let new_len = r.as_str().unicode_len();
            proof {
                assert(old(self).input_cursor < new_len);
            }
            self.input_buffer = r;
            proof {
                assert(self.input_buffer@ =~= old(self).input_buffer@.subrange(
                    0,
                    old(self).input_cursor as int,
                ) + seq![c] + old(self).input_buffer@.subrange(
                    old(self).input_cursor as int,
                    old(self).input_buffer@.len() as int,
                ));
            }
            self.input_cursor = self.input_cursor + 1;
        }
    }

    /// The effect of backspace: in search mode the last query character
    /// goes and the filter is recomputed; in input mode the character
    /// before the cursor goes; otherwise nothing happens.
    pub open spec fn input_backspace_rel(a: App, b: App) -> bool {
        &&& App::same_core(a, b)
        &&& App::same_panel(a, b)
        &&& App::same_outcome(a, b)
        &&& match a.input_mode {
            InputMode::Search => {
                let q2 = if a.search_query@.len() > 0 {
                    a.search_query@.drop_last()
                } else {
                    a.search_query@
                };
                &&& b.search_query@ == q2
                &&& idxs(b.filtered_sessions@) == filter_indices(a.sessions@, q2)
                &&& b.session_index == if a.session_index as int >= filter_indices(
                    a.sessions@,
                    q2,
                ).len() {
                    0
                } else {
                    a.session_index as int
                }
                &&& b.input_mode == a.input_mode
                &&& b.input_buffer == a.input_buffer
                &&& b.input_cursor == a.input_cursor
            },
            InputMode::Input { .. } => {
                &&& App::same_filter(a, b)
                &&& b.input_mode == a.input_mode
                &&& if a.input_cursor > 0 {
                    b.input_buffer@ == a.input_buffer@.subrange(0, a.input_cursor - 1)
                        + a.input_buffer@.subrange(
                        a.input_cursor as int,
                        a.input_buffer@.len() as int,
                    ) && b.input_cursor == a.input_cursor - 1
                } else {
                    b.input_buffer == a.input_buffer && b.input_cursor == a.input_cursor
                }
            },
            _ => App::same_filter(a, b) && App::same_mode(a, b),
        }
    }

    /// Delete the character before the cursor, or shorten the query.
    fn input_backspace(&mut self)
        requires
            old(self).wf(),
        ensures
            final(self).wf(),
            App::input_backspace_rel(*old(self), *final(self)),
            final(self).status_message == old(self).status_message,
    {
        let is_search = match &self.input_mode {
            InputMode::Search => true,
            _ => false,
        };
        let is_input = match &self.input_mode {
            InputMode::Input { .. } => true,
            _ => false,
        };
        if is_search {
            let qlen = self.search_query.as_str().unicode_len();
            if qlen > 0 {
                let shorter = self.search_query.as_str().substring_char(0, qlen - 1).to_owned();
                self.search_query = shorter;
            }
            self.apply_filter();
        } else if is_input {
            if self.input_cursor > 0 {
                let len = self.input_buffer.as_str().unicode_len();
                let mut r = self.input_buffer.as_str().substring_char(
                    0,
                    self.input_cursor - 1,
                ).to_owned();
                let tail = self.input_buffer.as_str().substring_char(
                    self.input_cursor,
                    len,
                ).to_owned();
                r.append(tail.as_str());
                self.input_buffer = r;
                self.input_cursor = self.input_cursor - 1;
            }
        }
    }

    /// Delete the character under the cursor in input mode.
    fn input_delete(&mut self)
        requires
            old(self).wf(),
        ensures
            final(self).wf(),
            App::same_core(*old(self), *final(self)),
            App::same_panel(*old(self), *final(self)),
            App::same_outcome(*old(self), *final(self)),
            App::same_filter(*old(self), *final(self)),
            final(self).input_mode == old(self).input_mode,
            final(self).input_cursor == old(self).input_cursor,
            final(self).status_message == old(self).status_message,
            ({
                let a = *old(self);
                let b = *final(self);
                if a.input_mode matches InputMode::Input { .. } && (a.input_cursor as int)
                    < a.input_buffer@.len() {
                    b.input_buffer@ == a.input_buffer@.subrange(0, a.input_cursor as int)
                        + a.input_buffer@.subrange(
                        a.input_cursor + 1,
                        a.input_buffer@.len() as int,
                    )
                } else {
                    b.input_buffer == a.input_buffer
                }
            }),
    {
        let is_input = match &self.input_mode {
            InputMode::Input { .. } => true,
            _ => false,
        };
        if is_input {
            let len = self.input_buffer.as_str().unicode_len();
            if self.input_cursor < len {
                let mut r = self.input_buffer.as_str().substring_char(
                    0,
                    self.input_cursor,
                ).to_owned();
                let tail = self.input_buffer.as_str().substring_char(
                    self.input_cursor + 1,
                    len,
                ).to_owned();
                r.append(tail.as_str());
                self.input_buffer = r;
            }
        }
    }

    /// Cycle the host selector to the next host.
    fn switch_host(&mut self)
        requires
            old(self).wf(),
        ensures
            final(self).wf(),
            App::same_filter(*old(self), *final(self)),
            App::same_panel(*old(self), *final(self)),
            App::same_mode(*old(self), *final(self)),
            App::same_outcome(*old(self), *final(self)),
            final(self).config == old(self).config,
            final(self).hosts == old(self).hosts,
            final(self).sessions == old(self).sessions,
            final(self).windows == old(self).windows,
            final(self).templates == old(self).templates,
            final(self).template_index == old(self).template_index,
            final(self).preview == old(self).preview,
            final(self).show_preview == old(self).show_preview,
            final(self).selected_session == old(self).selected_session,
            final(self).new_host == old(self).new_host,
            final(self).status_message == old(self).status_message,
            final(self).host_index == if (old(self).host_index as int) + 1 < old(
                self,
            ).hosts@.len() {
                old(self).host_index + 1
            } else {
                0
            },
            final(self).selected_host == old(self).hosts@[final(self).host_index as int],
    {
        let len = self.hosts.len();
        let next = if self.host_index >= len - 1 {
            0
        } else {
            self.host_index + 1
        };
        self.host_index = next;
        let sel = clone_opt_string(&self.hosts[next]);
        self.selected_host = sel;
    }

    /// Resolve the confirmation dialog: return to normal mode and name the
    /// bound operation as the single command. Outside a confirmation
    /// nothing happens.
    pub open spec fn execute_confirm_rel(a: App, b: App, cmds: Seq<Command>) -> bool {
        &&& App::same_core(a, b)
        &&& App::same_filter(a, b)
        &&& App::same_panel(a, b)
        &&& App::same_outcome(a, b)
        &&& b.input_buffer == a.input_buffer
        &&& b.input_cursor == a.input_cursor
        &&& match a.input_mode {
            InputMode::Confirm { action, .. } => {
                &&& b.input_mode == InputMode::Normal
                &&& match action {
                    ConfirmAction::KillSession(id) => cmds == seq![Command::KillSession { id }],
                    ConfirmAction::KillWindow(session, number) => cmds == seq![
                        Command::KillWindow { session, number },
                    ],
                }
            },
            _ => b.input_mode == a.input_mode && cmds.len() == 0,
        }
    }

    /// Execute the action bound to the confirmation dialog.
    fn execute_confirm_action(&mut self) -> (cmds: Vec<Command>)
        requires
            old(self).wf(),
        ensures
            final(self).wf(),
            App::execute_confirm_rel(*old(self), *final(self), cmds@),
            final(self).status_message == old(self).status_message,
    {
        let mut cmds: Vec<Command> = Vec::new();
        let confirmed = match &self.input_mode {
            InputMode::Confirm { action, .. } => {
                match action {
                    ConfirmAction::KillSession(id) => {
                        cmds.push(Command::KillSession { id: id.clone() });
                    },
                    ConfirmAction::KillWindow(session, number) => {
                        cmds.push(
                            Command::KillWindow { session: session.clone(), number: *number },
                        );
                    },
                }
                true
            },
            _ => false,
        };
        if confirmed {
            proof {
                match old(self).input_mode {
                    InputMode::Confirm { action: ConfirmAction::KillSession(id), .. } => {
                        assert(cmds@ =~= seq![Command::KillSession { id }]);
                    },
                    InputMode::Confirm {
                        action: ConfirmAction::KillWindow(session, number),
                        ..
                    } => {
                        assert(cmds@ =~= seq![Command::KillWindow { session, number }]);
                    },
                    _ => {
                    },
                }
            }
            self.input_mode = InputMode::Normal;
        }
        cmds
    }

    /// Ask to detach the highlighted session, on whichever host it lives.
    pub open spec fn detach_rel(a: App, cmds: Seq<Command>) -> bool {
        match a.sel_session() {
            Some(s) => cmds == seq![Command::DetachSession { id: s.id, host: s.host }],
            None => cmds.len() == 0,
        }
    }

    /// Name the detach operation for the highlighted session.
    fn detach_session(&self) -> (cmds: Vec<Command>)
        requires
            self.wf(),
        ensures
            App::detach_rel(*self, cmds@),
    {
        match self.get_selected_session() {
            Some(session) => {
                let id = session.id.clone();
                let host = clone_opt_string(&session.host);
                let mut cmds: Vec<Command> = Vec::new();
                cmds.push(Command::DetachSession { id, host });
                proof {
                    let s = self.sel_session()->Some_0;
                    assert(cmds@ =~= seq![Command::DetachSession { id: s.id, host: s.host }]);
                }
                cmds
            },
            None => Vec::new(),
        }
    }

    /// Ask to attach to the highlighted session: by replacing the process,
    /// or by spawning a terminal.
    pub open spec fn attach_rel(a: App, cmds: Seq<Command>, spawn: bool) -> bool {
        match a.sel_session() {
            Some(s) => if spawn {
                cmds == seq![Command::AttachSpawn { id: s.id, host: s.host }]
            } else {
                cmds == seq![Command::AttachExec { id: s.id, host: s.host }]
            },
            None => cmds.len() == 0,
        }
    }

    /// Name the attach operation for the highlighted session.
    fn attach_session(&self, spawn: bool) -> (cmds: Vec<Command>)
        requires
            self.wf(),
        ensures
            App::attach_rel(*self, cmds@, spawn),
    {
        match self.get_selected_session() {
            Some(session) => {
                let id = session.id.clone();
                let host = clone_opt_string(&session.host);
                let mut cmds: Vec<Command> = Vec::new();
                if spawn {
                    cmds.push(Command::AttachSpawn { id, host });
                } else {
                    cmds.push(Command::AttachExec { id, host });
                }
                proof {
                    let s = self.sel_session()->Some_0;
                    if spawn {
                        assert(cmds@ =~= seq![Command::AttachSpawn { id: s.id, host: s.host }]);
                    } else {
                        assert(cmds@ =~= seq![Command::AttachExec { id: s.id, host: s.host }]);
                    }
                }
                cmds
            },
            None => Vec::new(),
        }
    }

    /// Open the windows view for the highlighted session and ask for its
    /// window list.
    pub open spec fn view_windows_rel(a: App, b: App, cmds: Seq<Command>) -> bool {
        match a.sel_session() {
            Some(s) => {
                &&& b.view == View::Windows
                &&& b.selected_session matches Some(sel) && sel == s.id
                &&& b.window_index == 0
                &&& cmds == seq![Command::ListWindows { session: s.id }]
                &&& b.config == a.config
                &&& b.hosts == a.hosts
                &&& b.host_index == a.host_index
                &&& b.selected_host == a.selected_host
                &&& b.sessions == a.sessions
                &&& b.windows == a.windows
                &&& b.templates == a.templates
                &&& b.template_index == a.template_index
                &&& b.preview == a.preview
                &&& b.show_preview == a.show_preview
                &&& b.new_host == a.new_host
                &&& App::same_filter(a, b)
                &&& App::same_mode(a, b)
                &&& App::same_outcome(a, b)
                &&& b.show_help == a.show_help
                &&& b.settings_category_index == a.settings_category_index
                &&& b.settings_item_index == a.settings_item_index
            },
            None => App::unchanged(a, b) && cmds.len() == 0,
        }
    }

    /// Switch to the windows view of the highlighted session.
    fn view_windows(&mut self) -> (cmds: Vec<Command>)
        requires
            old(self).wf(),
        ensures
            final(self).wf(),
            App::view_windows_rel(*old(self), *final(self), cmds@),
            final(self).status_message == old(self).status_message,
    {
        let id_opt = match self.get_selected_session() {
            Some(session) => Some(session.id.clone()),
            None => None,
        };
        match id_opt {
            Some(id) => {
                self.selected_session = Some(id.clone());
                self.view = View::Windows;
                self.window_index = 0;
                let mut cmds: Vec<Command> = Vec::new();
                cmds.push(Command::ListWindows { session: id });
                proof {
                    let s = old(self).sel_session()->Some_0;
                    assert(cmds@ =~= seq![Command::ListWindows { session: s.id }]);
                }
                cmds
            },
            None => Vec::new(),
        }
    }

    /// Pop one level: the help overlay closes first; an editing mode
    /// returns to normal (leaving search re-applies the empty filter); a
    /// nested view returns to the session list, persisting the settings
    /// when the settings screen closes.
    pub open spec fn go_back_rel(a: App, b: App, cmds: Seq<Command>) -> bool {
        if a.show_help {
            &&& App::same_core(a, b)
            &&& App::same_filter(a, b)
            &&& App::same_mode(a, b)
            &&& App::same_outcome(a, b)
            &&& b.view == a.view
            &&& !b.show_help
            &&& b.window_index == a.window_index
            &&& b.settings_category_index == a.settings_category_index
            &&& b.settings_item_index == a.settings_item_index
            &&& cmds.len() == 0
        } else {
            match a.input_mode {
                InputMode::Normal => {
                    &&& b.config == a.config
                    &&& b.hosts == a.hosts
                    &&& b.host_index == a.host_index
                    &&& b.selected_host == a.selected_host
                    &&& b.sessions == a.sessions
                    &&& b.templates == a.templates
                    &&& b.template_index == a.template_index
                    &&& b.preview == a.preview
                    &&& b.show_preview == a.show_preview
                    &&& b.new_host == a.new_host
                    &&& App::same_filter(a, b)
                    &&& App::same_mode(a, b)
                    &&& App::same_outcome(a, b)
                    &&& b.settings_category_index == a.settings_category_index
                    &&& b.settings_item_index == a.settings_item_index
                    &&& match a.view {
                        View::Windows => {
                            &&& b.view == View::Sessions
                            &&& b.selected_session is None
                            &&& b.windows@.len() == 0
                            &&& b.window_index == 0
                            &&& b.show_help == a.show_help
                            &&& cmds.len() == 0
                        },
                        View::Templates => {
                            &&& b.view == View::Sessions
                            &&& b.selected_session == a.selected_session
                            &&& b.windows == a.windows
                            &&& b.window_index == a.window_index
                            &&& b.show_help == a.show_help
                            &&& cmds.len() == 0
                        },
                        View::Help => {
                            &&& b.view == a.view
                            &&& b.selected_session == a.selected_session
                            &&& b.windows == a.windows
                            &&& b.window_index == a.window_index
                            &&& !b.show_help
                            &&& cmds.len() == 0
                        },
                        View::Settings => {
                            &&& b.view == View::Sessions
                            &&& b.selected_session == a.selected_session
                            &&& b.windows == a.windows
                            &&& b.window_index == a.window_index
                            &&& b.show_help == a.show_help
                            &&& cmds == seq![Command::SaveConfig]
                        },
                        View::Sessions => {
                            &&& b.view == a.view
                            &&& b.selected_session == a.selected_session
                            &&& b.windows == a.windows
                            &&& b.window_index == a.window_index
                            &&& b.show_help == a.show_help
                            &&& cmds.len() == 0
                        },
                    }
                },
                InputMode::Search => {
                    &&& App::same_core(a, b)
                    &&& App::same_panel(a, b)
                    &&& App::same_outcome(a, b)
                    &&& b.input_mode == InputMode::Normal
                    &&& b.input_buffer == a.input_buffer
                    &&& b.input_cursor == a.input_cursor
                    &&& b.search_query@.len() == 0
                    &&& idxs(b.filtered_sessions@) == filter_indices(a.sessions@, Seq::empty())
                    &&& b.session_index == if a.session_index as int >= filter_indices(
                        a.sessions@,
                        Seq::empty(),
                    ).len() {
                        0
                    } else {
                        a.session_index as int
                    }
                    &&& cmds.len() == 0
                },
                _ => {
                    &&& App::same_core(a, b)
                    &&& App::same_filter(a, b)
                    &&& App::same_panel(a, b)
                    &&& App::same_outcome(a, b)
                    &&& b.input_mode == InputMode::Normal
                    &&& b.input_buffer@.len() == 0
                    &&& b.input_cursor == a.input_cursor
                    &&& cmds.len() == 0
                },
            }
        }
    }

    /// Go back one level in the view/mode hierarchy.
    fn go_back(&mut self) -> (cmds: Vec<Command>)
        requires
            old(self).wf(),
        ensures
            final(self).wf(),
            App::go_back_rel(*old(self), *final(self), cmds@),
            final(self).status_message == old(self).status_message,
    {
        if self.show_help {
            self.show_help = false;
            return Vec::new();
        }
        let mode_kind: u8 = match &self.input_mode {
            InputMode::Normal => 0,
            InputMode::Search => 1,
            _ => 2,
        };
        if mode_kind == 0 {
            match self.view {
                View::Windows => {
                    self.view = View::Sessions;
                    self.selected_session = None;
                    self.windows = Vec::new();
                    self.window_index = 0;
                    Vec::new()
                },
                View::Templates => {
                    self.view = View::Sessions;
                    Vec::new()
                },
                View::Help => {
                    self.show_help = false;
                    Vec::new()
                },
                View::Settings => {
                    self.view = View::Sessions;
                    let mut cmds: Vec<Command> = Vec::new();
                    cmds.push(Command::SaveConfig);
                    proof {
                        assert(cmds@ =~= seq![Command::SaveConfig]);
                    }
                    cmds
                },
                View::Sessions => Vec::new(),
            }
        } else if mode_kind == 1 {
            self.input_mode = InputMode::Normal;
            self.search_query = String::new();
            self.apply_filter();
            Vec::new()
        } else {
            self.input_mode = InputMode::Normal;
            self.input_buffer = String::new();
            Vec::new()
        }
    }

    /// The settings category shown at a category index.
    pub open spec fn cat_at(i: int) -> SettingsCategory {
        if i == 0 {
            SettingsCategory::General
        } else if i == 1 {
            SettingsCategory::Screen
        } else if i == 2 {
            SettingsCategory::Navigation
        } else if i == 3 {
            SettingsCategory::Hosts
        } else {
            SettingsCategory::Keybindings
        }
    }

    /// Toggling the selected setting: the item list of the current category
    /// determines the key, the item's value advances one step, the result
    /// is applied back under that key and the configuration is persisted.
    /// Past the end of the list (as on the hosts category) nothing happens.
    pub open spec fn toggle_setting_rel(a: App, b: App, cmds: Seq<Command>) -> bool {
        &&& App::same_filter(a, b)
        &&& App::same_panel(a, b)
        &&& App::same_mode(a, b)
        &&& App::same_outcome(a, b)
        &&& b.hosts == a.hosts
        &&& b.host_index == a.host_index
        &&& b.selected_host == a.selected_host
        &&& b.sessions == a.sessions
        &&& b.windows == a.windows
        &&& b.templates == a.templates
        &&& b.template_index == a.template_index
        &&& b.preview == a.preview
        &&& b.show_preview == a.show_preview
        &&& b.selected_session == a.selected_session
        &&& b.new_host == a.new_host
        &&& b.config.hosts == a.config.hosts
        &&& exists|items: Seq<SettingItem>|
            #![trigger settings_items_ok(items, a.config, App::cat_at(a.settings_category_index as int))]
            {
                &&& settings_items_ok(
                    items,
                    a.config,
                    App::cat_at(a.settings_category_index as int),
                )
                &&& if (a.settings_item_index as int) < items.len() {
                    &&& exists|toggled: SettingValue|
                        #![trigger toggle_rel(items[a.settings_item_index as int].value, toggled)]
                        {
                            &&& toggle_rel(items[a.settings_item_index as int].value, toggled)
                            &&& apply_setting_spec(
                                a.config,
                                b.config,
                                items[a.settings_item_index as int].key@,
                                toggled,
                            )
                        }
                    &&& cmds == seq![Command::SaveConfig]
                } else {
                    &&& b.config == a.config
                    &&& cmds.len() == 0
                }
            }
    }

    /// Toggle the selected setting and persist the configuration.
    fn toggle_setting(&mut self) -> (cmds: Vec<Command>)
        requires
            old(self).wf(),
        ensures
            final(self).wf(),
            App::toggle_setting_rel(*old(self), *final(self), cmds@),
            final(self).status_message == old(self).status_message,
    {
        let cat = if self.settings_category_index == 0 {
            SettingsCategory::General
        } else if self.settings_category_index == 1 {
            SettingsCategory::Screen
        } else if self.settings_category_index == 2 {
            SettingsCategory::Navigation
        } else if self.settings_category_index == 3 {
            SettingsCategory::Hosts
        } else {
            SettingsCategory::Keybindings
        };
        let mut items = get_settings_for_category(&self.config, cat);
        let ghost items0 = items@;
        if self.settings_item_index < items.len() {
            let item = items.remove(self.settings_item_index);
            let mut value = item.value;
            let ghost before = value;
            value.toggle();
            apply_setting(&mut self.config, item.key.as_str(), &value);
            proof {
                assert(items0[old(self).settings_item_index as int].value == before);
                assert(items0[old(self).settings_item_index as int].key == item.key);
            }
            let mut cmds: Vec<Command> = Vec::new();
            cmds.push(Command::SaveConfig);
            proof {
                assert(cmds@ =~= seq![Command::SaveConfig]);
                assert(settings_items_ok(
                    items0,
                    old(self).config,
                    App::cat_at(old(self).settings_category_index as int),
                ));
                assert(toggle_rel(items0[old(self).settings_item_index as int].value, value));
                assert(apply_setting_spec(
                    old(self).config,
                    self.config,
                    items0[old(self).settings_item_index as int].key@,
                    value,
                ));
            }
            cmds
        } else {
            proof {
                assert(settings_items_ok(
                    items0,
                    old(self).config,
                    App::cat_at(old(self).settings_category_index as int),
                ));
            }
            Vec::new()
        }
    }
}

impl App {
    /// The select action: a confirmation resolves; in normal mode the
    /// session list attaches, the window list first selects the window on
    /// the backend and then attaches, the template list instantiates the
    /// highlighted template, the settings screen toggles the selected
    /// item, and the help overlay closes.
    pub open spec fn select_rel(a: App, b: App, cmds: Seq<Command>) -> bool {
        match a.input_mode {
            InputMode::Confirm { .. } => App::execute_confirm_rel(a, b, cmds),
            InputMode::Normal => match a.view {
                View::Sessions => App::unchanged(a, b) && App::attach_rel(a, cmds, false),
                View::Windows => {
                    &&& App::unchanged(a, b)
                    &&& cmds == (if a.windows@.len() > 0 && a.selected_session is Some {
                        seq![
                            Command::SelectWindow {
                                session: a.selected_session->Some_0,
                                number: a.windows@[a.window_index as int].number,
                            },
                        ]
                    } else {
                        Seq::empty()
                    }) + (match a.sel_session() {
                        Some(s) => seq![Command::AttachExec { id: s.id, host: s.host }],
                        None => Seq::empty(),
                    })
                },
                View::Templates => {
                    &&& App::unchanged(a, b)
                    &&& cmds == if a.templates@.len() > 0 {
                        seq![
                            Command::CreateFromTemplate {
                                name: a.templates@[a.template_index as int].name,
                            },
                        ]
                    } else {
                        Seq::empty()
                    }
                },
                View::Settings => App::toggle_setting_rel(a, b, cmds),
                View::Help => {
                    &&& App::same_core(a, b)
                    &&& App::same_filter(a, b)
                    &&& App::same_mode(a, b)
                    &&& App::same_outcome(a, b)
                    &&& b.view == a.view
                    &&& !b.show_help
                    &&& b.window_index == a.window_index
                    &&& b.settings_category_index == a.settings_category_index
                    &&& b.settings_item_index == a.settings_item_index
                    &&& cmds.len() == 0
                },
            },
            _ => App::unchanged(a, b) && cmds.len() == 0,
        }
    }

    /// Handle the select action.
    fn select(&mut self) -> (cmds: Vec<Command>)
        requires
            old(self).wf(),
        ensures
            final(self).wf(),
            App::select_rel(*old(self), *final(self), cmds@),
            final(self).status_message == old(self).status_message,
    {
        let in_confirm = match &self.input_mode {
            InputMode::Confirm { .. } => true,
            _ => false,
        };
        let in_normal = match &self.input_mode {
            InputMode::Normal => true,
            _ => false,
        };
        if in_confirm {
            return self.execute_confirm_action();
        }
        if !in_normal {
            return Vec::new();
        }
        match self.view {
            View::Sessions => self.attach_session(false),
            View::Windows => {
                let mut cmds: Vec<Command> = Vec::new();
                if self.windows.len() > 0 {
                    match &self.selected_session {
                        Some(session) => {
                            let number = self.windows[self.window_index].number;
                            cmds.push(
                                Command::SelectWindow { session: session.clone(), number },
                            );
                        },
                        None => {
                        },
                    }
                }
                let ghost head = cmds@;
                match self.get_selected_session() {
                    Some(session) => {
                        let id = session.id.clone();
                        let host = clone_opt_string(&session.host);
                        cmds.push(Command::AttachExec { id, host });
                    },
                    None => {
                    },
                }
                proof {
                    let a = *self;
                    let sel_part = if a.windows@.len() > 0 && a.selected_session is Some {
                        seq![
                            Command::SelectWindow {
                                session: a.selected_session->Some_0,
                                number: a.windows@[a.window_index as int].number,
                            },
                        ]
                    } else {
                        Seq::<Command>::empty()
                    };
                    let attach_part = match a.sel_session() {
                        Some(s) => seq![Command::AttachExec { id: s.id, host: s.host }],
                        None => Seq::<Command>::empty(),
                    };
                    assert(head =~= sel_part);
                    assert(cmds@ =~= sel_part + attach_part);
                }
                cmds
            },
            View::Templates => {
                if self.templates.len() > 0 {
                    let name = self.templates[self.template_index].name.clone();
                    let mut cmds: Vec<Command> = Vec::new();
                    cmds.push(Command::CreateFromTemplate { name });
                    proof {
                        assert(cmds@ =~= seq![
                            Command::CreateFromTemplate {
                                name: self.templates@[self.template_index as int].name,
                            },
                        ]);
                    }
                    cmds
                } else {
                    Vec::new()
                }
            },
            View::Settings => self.toggle_setting(),
            View::Help => {
                self.show_help = false;
                Vec::new()
            },
        }
    }
}

impl App {
    /// Confirming an input: search mode simply returns to normal; a
    /// confirmation resolves; a text input is validated (an empty buffer is
    /// discarded without effect) and dispatched by its purpose — naming a
    /// session or window issues the corresponding backend command, and the
    /// add-host prompts advance step by step, the final one committing the
    /// staged host. The dispatcher clears the status message beforehand;
    /// committing a host sets it or the error message.
    pub open spec fn input_confirm_rel(a: App, b: App, cmds: Seq<Command>) -> bool {
        match a.input_mode {
            InputMode::Search => {
                &&& App::same_core(a, b)
                &&& App::same_filter(a, b)
                &&& App::same_panel(a, b)
                &&& App::same_outcome(a, b)
                &&& b.input_mode == InputMode::Normal
                &&& b.input_buffer == a.input_buffer
                &&& b.input_cursor == a.input_cursor
                &&& b.status_message == a.status_message
                &&& cmds.len() == 0
            },
            InputMode::Confirm { .. } => App::execute_confirm_rel(a, b, cmds)
                && b.status_message == a.status_message,
            InputMode::Normal => App::unchanged(a, b) && b.status_message == a.status_message
                && cmds.len() == 0,
            InputMode::Input { purpose, .. } => {
                let value = a.input_buffer;
                if value@.len() == 0 {
                    &&& App::same_core(a, b)
                    &&& App::same_filter(a, b)
                    &&& App::same_panel(a, b)
                    &&& App::same_outcome(a, b)
                    &&& b.input_mode == InputMode::Normal
                    &&& b.input_buffer@.len() == 0
                    &&& b.input_cursor == a.input_cursor
                    &&& b.status_message == a.status_message
                    &&& cmds.len() == 0
                } else {
                    match purpose {
                        InputPurpose::NewSession => {
                            &&& App::same_core(a, b)
                            &&& App::same_filter(a, b)
                            &&& App::same_panel(a, b)
                            &&& App::same_outcome(a, b)
                            &&& b.input_mode == InputMode::Normal
                            &&& b.input_buffer@.len() == 0
                            &&& b.status_message == a.status_message
                            &&& cmds == seq![
                                Command::CreateSession {
                                    name: value,
                                    shell: a.config.screen.default_shell,
                                },
                            ]
                        },
                        InputPurpose::RenameSession => {
                            &&& App::same_core(a, b)
                            &&& App::same_filter(a, b)
                            &&& App::same_panel(a, b)
                            &&& App::same_outcome(a, b)
                            &&& b.input_mode == InputMode::Normal
                            &&& b.input_buffer@.len() == 0
                            &&& b.status_message == a.status_message
                            &&& cmds == (match a.sel_session() {
                                Some(s) => seq![
                                    Command::RenameSession { id: s.id, new_name: value },
                                ],
                                None => Seq::empty(),
                            })
                        },
                        InputPurpose::NewWindow => {
                            &&& App::same_core(a, b)
                            &&& App::same_filter(a, b)
                            &&& App::same_panel(a, b)
                            &&& App::same_outcome(a, b)
                            &&& b.input_mode == InputMode::Normal
                            &&& b.input_buffer@.len() == 0
                            &&& b.status_message == a.status_message
                            &&& cmds == (match a.selected_session {
                                Some(sess) => seq![
                                    Command::CreateWindow { session: sess, name: value },
                                ],
                                None => Seq::empty(),
                            })
                        },
                        InputPurpose::RenameWindow => {
                            &&& App::same_core(a, b)
                            &&& App::same_filter(a, b)
                            &&& App::same_panel(a, b)
                            &&& App::same_outcome(a, b)
                            &&& b.input_mode == InputMode::Normal
                            &&& b.input_buffer@.len() == 0
                            &&& b.status_message == a.status_message
                            &&& cmds.len() == 0
                        },
                        InputPurpose::TemplateVariable(_) => {
                            &&& App::same_core(a, b)
                            &&& App::same_filter(a, b)
                            &&& App::same_panel(a, b)
                            &&& App::same_outcome(a, b)
                            &&& b.input_mode == InputMode::Normal
                            &&& b.input_buffer@.len() == 0
                            &&& b.status_message == a.status_message
                            &&& cmds.len() == 0
                        },
                        InputPurpose::AddHostName => App::add_host_step_rel(
                            a,
                            b,
                            cmds,
                            0,
                            "Hostname (e.g., example.com):"@,
                            InputPurpose::AddHostHostname,
                        ),
                        InputPurpose::AddHostHostname => App::add_host_step_rel(
                            a,
                            b,
                            cmds,
                            1,
                            "Username:"@,
                            InputPurpose::AddHostUser,
                        ),
                        InputPurpose::AddHostUser => App::add_host_step_rel(
                            a,
                            b,
                            cmds,
                            2,
                            "Port (default 22):"@,
                            InputPurpose::AddHostPort,
                        ),
                        InputPurpose::AddHostPort => App::add_host_step_rel(
                            a,
                            b,
                            cmds,
                            3,
                            "Identity file (e.g., ~/.ssh/id_ed25519):"@,
                            InputPurpose::AddHostIdentityFile,
                        ),
                        InputPurpose::AddHostIdentityFile => App::add_host_commit_rel(a, b, cmds),
                    }
                }
            },
        }
    }

    /// The staged host with field `field` replaced by `value`.
    pub open spec fn staged_with(
        t: (String, String, String, String, String),
        field: int,
        value: String,
    ) -> (String, String, String, String, String) {
        if field == 0 {
            (value, t.1, t.2, t.3, t.4)
        } else if field == 1 {
            (t.0, value, t.2, t.3, t.4)
        } else if field == 2 {
            (t.0, t.1, value, t.3, t.4)
        } else if field == 3 {
            (t.0, t.1, t.2, value, t.4)
        } else {
            (t.0, t.1, t.2, t.3, value)
        }
    }

    /// One non-final add-host prompt: the confirmed text lands in the
    /// staged record's field and the next prompt opens. The port prompt is
    /// pre-filled with the default.
    pub open spec fn add_host_step_rel(
        a: App,
        b: App,
        cmds: Seq<Command>,
        field: int,
        next_prompt: Seq<char>,
        next_purpose: InputPurpose,
    ) -> bool {
        &&& App::same_core_but_staged(a, b)
        &&& App::same_filter(a, b)
        &&& App::same_panel(a, b)
        &&& App::same_outcome(a, b)
        &&& b.status_message == a.status_message
        &&& b.new_host == (match a.new_host {
            Some(t) => Some(App::staged_with(t, field, a.input_buffer)),
            None => None,
        })
        &&& b.input_mode matches InputMode::Input { prompt, purpose } && prompt@ == next_prompt
            && purpose == next_purpose
        &&& if next_purpose == InputPurpose::AddHostIdentityFile {
            // The port prompt just closed; the identity-file prompt opens
            // with an empty buffer.
            b.input_buffer@.len() == 0 && b.input_cursor == 0
        } else if next_purpose == InputPurpose::AddHostPort {
            b.input_buffer@ == "22"@ && b.input_cursor == 2
        } else {
            b.input_buffer@.len() == 0 && b.input_cursor == 0
        }
        &&& cmds.len() == 0
    }

    /// The final add-host prompt: the identity file lands in the staged
    /// record and the record is committed — appended whole to the
    /// configuration and persisted when the name and hostname are present,
    /// rejected with an error and no change otherwise.
    pub open spec fn add_host_commit_rel(a: App, b: App, cmds: Seq<Command>) -> bool {
        &&& App::same_filter(a, b)
        &&& b.view == a.view
        &&& b.show_help == a.show_help
        &&& b.window_index == a.window_index
        &&& b.settings_category_index == a.settings_category_index
        &&& b.settings_item_index == a.settings_item_index
        &&& b.input_mode == InputMode::Normal
        &&& b.input_buffer@.len() == 0
        &&& b.sessions == a.sessions
        &&& b.windows == a.windows
        &&& b.templates == a.templates
        &&& b.template_index == a.template_index
        &&& b.preview == a.preview
        &&& b.show_preview == a.show_preview
        &&& b.selected_session == a.selected_session
        &&& b.selected_host == a.selected_host
        &&& b.host_index == a.host_index
        &&& b.should_quit == a.should_quit
        &&& b.new_host is None
        &&& match a.new_host {
            None => {
                &&& b.config == a.config
                &&& b.hosts == a.hosts
                &&& b.status_message == a.status_message
                &&& b.error_message == a.error_message
                &&& cmds.len() == 0
            },
            Some(t) => {
                let staged = App::staged_with(t, 4, a.input_buffer);
                if t.0@.len() == 0 || t.1@.len() == 0 {
                    &&& b.config == a.config
                    &&& b.hosts == a.hosts
                    &&& b.status_message == a.status_message
                    &&& b.error_message matches Some(m) && m@
                        == "Host name and hostname are required"@
                    &&& cmds.len() == 0
                } else {
                    &&& b.config.hosts@ == a.config.hosts@.push(staged_host(staged))
                    &&& b.config.ui == a.config.ui
                    &&& b.config.navigation == a.config.navigation
                    &&& b.config.screen == a.config.screen
                    &&& b.config.integrations == a.config.integrations
                    &&& b.config.keybindings == a.config.keybindings
                    &&& b.status_message matches Some(m) && m@ == "Added host '"@ + t.0@ + "'"@
                    &&& b.error_message == a.error_message
                    &&& cmds == seq![Command::SaveConfig]
                }
            },
        }
    }

    /// Store the confirmed text into field `field` of the staged host.
    fn stage_host_field(&mut self, field: u8, value: String)
        requires
            old(self).wf(),
        ensures
            final(self).wf(),
            final(self).new_host == (match old(self).new_host {
                Some(t) => Some(App::staged_with(t, field as int, value)),
                None => None,
            }),
            *final(self) == (App { new_host: final(self).new_host, ..*old(self) }),
    {
        let staged = self.new_host.take();
        match staged {
            Some((f0, f1, f2, f3, f4)) => {
                self.new_host = Some(
                    if field == 0 {
                        (value, f1, f2, f3, f4)
                    } else if field == 1 {
                        (f0, value, f2, f3, f4)
                    } else if field == 2 {
                        (f0, f1, value, f3, f4)
                    } else if field == 3 {
                        (f0, f1, f2, value, f4)
                    } else {
                        (f0, f1, f2, f3, value)
                    },
                );
            },
            None => {
            },
        }
    }

    /// Confirm the current input.
    #[verifier::rlimit(60)]
    fn input_confirm(&mut self) -> (cmds: Vec<Command>)
        requires
            old(self).wf(),
        ensures
            final(self).wf(),
            App::input_confirm_rel(*old(self), *final(self), cmds@),
    {
        let kind: u8 = match &self.input_mode {
            InputMode::Search => 0,
            InputMode::Confirm { .. } => 1,
            InputMode::Normal => 2,
            InputMode::Input { .. } => 3,
        };
        if kind == 0 {
            self.input_mode = InputMode::Normal;
            return Vec::new();
        }
        if kind == 1 {
            return self.execute_confirm_action();
        }
        if kind == 2 {
            return Vec::new();
        }
        let pkind: u8 = match &self.input_mode {
            InputMode::Input { purpose, .. } => match purpose {
                InputPurpose::NewSession => 0,
                InputPurpose::RenameSession => 1,
                InputPurpose::NewWindow => 2,
                InputPurpose::RenameWindow => 3,
                InputPurpose::TemplateVariable(_) => 4,
                InputPurpose::AddHostName => 5,
                InputPurpose::AddHostHostname => 6,
                InputPurpose::AddHostUser => 7,
                InputPurpose::AddHostPort => 8,
                InputPurpose::AddHostIdentityFile => 9,
            },
            _ => 255,
        };
        let value = self.input_buffer.clone();
        self.input_mode = InputMode::Normal;
        self.input_buffer = String::new();
        if value.as_str().unicode_len() == 0 {
            return Vec::new();
        }
        if pkind == 0 {
                let shell = clone_opt_string(&self.config.screen.default_shell);
                let mut cmds: Vec<Command> = Vec::new();
                cmds.push(Command::CreateSession { name: value, shell });
                proof {
                    assert(cmds@ =~= seq![
                        Command::CreateSession {
                            name: old(self).input_buffer,
                            shell: old(self).config.screen.default_shell,
                        },
                    ]);
                }
                cmds
        } else if pkind == 1 {
                match self.get_selected_session() {
                    Some(session) => {
                        let id = session.id.clone();
                        let mut cmds: Vec<Command> = Vec::new();
                        cmds.push(Command::RenameSession { id, new_name: value });
                        proof {
                            let s = old(self).sel_session()->Some_0;
                            assert(cmds@ =~= seq![
                                Command::RenameSession {
                                    id: s.id,
                                    new_name: old(self).input_buffer,
                                },
                            ]);
                        }
                        cmds
                    },
                    None => Vec::new(),
                }
        } else if pkind == 2 {
                match &self.selected_session {
                    Some(session) => {
                        let session = session.clone();
                        let mut cmds: Vec<Command> = Vec::new();
                        cmds.push(Command::CreateWindow { session, name: value });
                        proof {
                            assert(cmds@ =~= seq![
                                Command::CreateWindow {
                                    session: old(self).selected_session->Some_0,
                                    name: old(self).input_buffer,
                                },
                            ]);
                        }
                        cmds
                    },
                    None => Vec::new(),
                }
        } else if pkind == 3 || pkind == 4 {
            Vec::new()
        } else if pkind == 5 {
                self.stage_host_field(0, value);
                self.input_mode = InputMode::Input {
                    prompt: "Hostname (e.g., example.com):".to_owned(),
                    purpose: InputPurpose::AddHostHostname,
                };
                self.input_buffer = String::new();
                self.input_cursor = 0;
                Vec::new()
        } else if pkind == 6 {
                self.stage_host_field(1, value);
                self.input_mode = InputMode::Input {
                    prompt: "Username:".to_owned(),
                    purpose: InputPurpose::AddHostUser,
                };
                self.input_buffer = String::new();
                self.input_cursor = 0;
                Vec::new()
        } else if pkind == 7 {
                self.stage_host_field(2, value);
                proof {
                    reveal_strlit("22");
                }
                self.input_mode = InputMode::Input {
                    prompt: "Port (default 22):".to_owned(),
                    purpose: InputPurpose::AddHostPort,
                };
                self.input_buffer = "22".to_owned();
                self.input_cursor = 2;
                Vec::new()
        } else if pkind == 8 {
                self.stage_host_field(3, value);
                self.input_mode = InputMode::Input {
                    prompt: "Identity file (e.g., ~/.ssh/id_ed25519):".to_owned(),
                    purpose: InputPurpose::AddHostIdentityFile,
                };
                self.input_buffer = String::new();
                self.input_cursor = 0;
                Vec::new()
        } else {
            self.stage_host_field(4, value);
            self.finish_add_host()
        }
    }
}

/// An exact copy of one session, field for field.
fn copy_session(s: &Session) -> (r: Session)
    ensures
        App::session_copy_ok(*s, r),
{
    let mut users: Vec<String> = Vec::new();
    let mut i: usize = 0;
    while i < s.attached_users.len()
        invariant
            i <= s.attached_users@.len(),
            users@.len() == i,
            forall|j: int| 0 <= j < i ==> users@[j] == s.attached_users@[j],
        decreases s.attached_users@.len() - i,
    {
        users.push(s.attached_users[i].clone());
        i += 1;
    }
    proof {
        assert(users@ =~= s.attached_users@);
    }
    Session {
        name: s.name.clone(),
        id: s.id.clone(),
        pid: s.pid,
        status: s.status,
        window_count: s.window_count,
        created: s.created,
        host: clone_opt_string(&s.host),
        working_dir: clone_opt_string(&s.working_dir),
        git_branch: clone_opt_string(&s.git_branch),
        git_clean: s.git_clean,
        attached_users: users,
    }
}

impl App {
    /// What one dispatched action does: the status line is cleared first,
    /// then the action maps to a state transition and a command list
    /// exactly as the per-action relations state. Navigation clamps into
    /// `[0, len)`; quitting from the top level sets the quit flag and
    /// otherwise backs out one level; the refresh actions issue exactly one
    /// refresh command.
    pub open spec fn handle_rel(a: App, b: App, action: Action, cmds: Seq<Command>) -> bool {
        match action {
            Action::Up => App::nav_step(a, b, if a.nav_cur() > 0 {
                a.nav_cur() - 1
            } else {
                a.nav_cur()
            }) && b.status_message is None && cmds.len() == 0,
            Action::Down => App::nav_step(a, b, if a.nav_cur() + 1 < a.nav_len() {
                a.nav_cur() + 1
            } else {
                a.nav_cur()
            }) && b.status_message is None && cmds.len() == 0,
            Action::Top => App::nav_step(a, b, 0) && b.status_message is None && cmds.len() == 0,
            Action::Bottom => App::nav_step(a, b, if a.nav_len() > 0 {
                a.nav_len() - 1
            } else {
                0
            }) && b.status_message is None && cmds.len() == 0,
            Action::PageUp => App::nav_step(a, b, if a.nav_cur() >= 10 {
                a.nav_cur() - 10
            } else {
                0
            }) && b.status_message is None && cmds.len() == 0,
            Action::PageDown => App::nav_step(a, b, ({
                let max_index: int = if a.nav_len() > 0 {
                    a.nav_len() - 1
                } else {
                    0
                };
                if a.nav_cur() + 10 <= max_index {
                    a.nav_cur() + 10
                } else {
                    max_index
                }
            })) && b.status_message is None && cmds.len() == 0,
            Action::Select => App::select_rel(a, b, cmds) && b.status_message is None,
            Action::Back => App::go_back_rel(a, b, cmds) && b.status_message is None,
            Action::Quit => if a.input_mode == InputMode::Normal && a.view == View::Sessions {
                &&& App::same_core(a, b)
                &&& App::same_filter(a, b)
                &&& App::same_panel(a, b)
                &&& App::same_mode(a, b)
                &&& b.error_message == a.error_message
                &&& b.should_quit
                &&& b.status_message is None
                &&& cmds.len() == 0
            } else {
                App::go_back_rel(a, b, cmds) && b.status_message is None
            },
            Action::ForceQuit => {
                &&& App::same_core(a, b)
                &&& App::same_filter(a, b)
                &&& App::same_panel(a, b)
                &&& App::same_mode(a, b)
                &&& b.error_message == a.error_message
                &&& b.should_quit
                &&& b.status_message is None
                &&& cmds.len() == 0
            },
            Action::NewSession => App::enter_input_rel(
                a,
                b,
                "Session name:"@,
                InputPurpose::NewSession,
                Seq::empty(),
                0,
            ) && b.status_message is None && cmds.len() == 0,
            Action::RenameSession => (match a.sel_session() {
                Some(s) => App::enter_input_rel(
                    a,
                    b,
                    "Rename '"@ + s.name@ + "' to:"@,
                    InputPurpose::RenameSession,
                    s.name@,
                    s.name@.len() as int,
                ),
                None => App::unchanged(a, b),
            }) && b.status_message is None && cmds.len() == 0,
            Action::KillSession => App::confirm_kill_rel(a, b) && b.status_message is None
                && cmds.len() == 0,
            Action::DetachSession => if a.view == View::Settings && a.settings_category_index
                == 3 {
                App::delete_host_rel(App { status_message: None, ..a }, b, cmds)
            } else {
                App::unchanged(a, b) && App::detach_rel(a, cmds) && b.status_message is None
            },
            Action::AttachSession => if a.view == View::Settings && a.settings_category_index
                == 3 {
                App::start_add_host_rel(a, b) && b.status_message is None && cmds.len() == 0
            } else {
                App::unchanged(a, b) && App::attach_rel(a, cmds, false) && b.status_message
                    is None
            },
            Action::AttachSpawn => App::unchanged(a, b) && App::attach_rel(a, cmds, true)
                && b.status_message is None,
            Action::AddHost => App::start_add_host_rel(a, b) && b.status_message is None
                && cmds.len() == 0,
            Action::EditHost => App::unchanged(a, b) && b.status_message is None && cmds.len()
                == 0,
            Action::DeleteHost => App::delete_host_rel(App { status_message: None, ..a }, b, cmds),
            Action::ViewWindows => App::view_windows_rel(a, b, cmds) && b.status_message is None,
            Action::ViewTemplates => {
                &&& App::same_core(a, b)
                &&& App::same_filter(a, b)
                &&& App::same_mode(a, b)
                &&& App::same_outcome(a, b)
                &&& b.view == View::Templates
                &&& b.show_help == a.show_help
                &&& b.window_index == a.window_index
                &&& b.settings_category_index == a.settings_category_index
                &&& b.settings_item_index == a.settings_item_index
                &&& b.status_message is None
                &&& cmds.len() == 0
            },
            Action::ViewSettings => {
                &&& App::same_core(a, b)
                &&& App::same_filter(a, b)
                &&& App::same_mode(a, b)
                &&& App::same_outcome(a, b)
                &&& b.view == View::Settings
                &&& b.show_help == a.show_help
                &&& b.window_index == a.window_index
                &&& b.settings_category_index == 0
                &&& b.settings_item_index == 0
                &&& b.status_message is None
                &&& cmds.len() == 0
            },
            Action::Refresh => App::unchanged(a, b) && b.status_message is None && cmds == seq![
                Command::RefreshSessions,
            ],
            Action::RefreshAll => App::unchanged(a, b) && b.status_message is None && cmds
                == seq![Command::RefreshSessions],
            Action::StartSearch => {
                &&& App::same_core(a, b)
                &&& App::same_panel(a, b)
                &&& App::same_outcome(a, b)
                &&& b.filtered_sessions == a.filtered_sessions
                &&& b.session_index == a.session_index
                &&& b.search_query@.len() == 0
                &&& b.input_mode == InputMode::Search
                &&& b.input_buffer == a.input_buffer
                &&& b.input_cursor == a.input_cursor
                &&& b.status_message is None
                &&& cmds.len() == 0
            },
            Action::ClearSearch => {
                &&& App::same_core(a, b)
                &&& App::same_panel(a, b)
                &&& App::same_outcome(a, b)
                &&& b.input_mode == InputMode::Normal
                &&& b.input_buffer == a.input_buffer
                &&& b.input_cursor == a.input_cursor
                &&& b.search_query@.len() == 0
                &&& idxs(b.filtered_sessions@) == filter_indices(a.sessions@, Seq::empty())
                &&& b.session_index == if a.session_index as int >= filter_indices(
                    a.sessions@,
                    Seq::empty(),
                ).len() {
                    0
                } else {
                    a.session_index as int
                }
                &&& b.status_message is None
                &&& cmds.len() == 0
            },
            Action::ToggleHelp => {
                &&& App::same_core(a, b)
                &&& App::same_filter(a, b)
                &&& App::same_mode(a, b)
                &&& App::same_outcome(a, b)
                &&& b.view == a.view
                &&& b.show_help == !a.show_help
                &&& b.window_index == a.window_index
                &&& b.settings_category_index == a.settings_category_index
                &&& b.settings_item_index == a.settings_item_index
                &&& b.status_message is None
                &&& cmds.len() == 0
            },
            Action::TogglePreview => {
                &&& b.config == a.config
                &&& b.hosts == a.hosts
                &&& b.host_index == a.host_index
                &&& b.selected_host == a.selected_host
                &&& b.sessions == a.sessions
                &&& b.windows == a.windows
                &&& b.templates == a.templates
                &&& b.template_index == a.template_index
                &&& b.preview == a.preview
                &&& b.show_preview == !a.show_preview
                &&& b.selected_session == a.selected_session
                &&& b.new_host == a.new_host
                &&& App::same_filter(a, b)
                &&& App::same_panel(a, b)
                &&& App::same_mode(a, b)
                &&& App::same_outcome(a, b)
                &&& b.status_message is None
                &&& cmds.len() == 0
            },
            Action::SwitchHost => {
                &&& App::same_filter(a, b)
                &&& App::same_panel(a, b)
                &&& App::same_mode(a, b)
                &&& App::same_outcome(a, b)
                &&& b.config == a.config
                &&& b.hosts == a.hosts
                &&& b.sessions == a.sessions
                &&& b.windows == a.windows
                &&& b.templates == a.templates
                &&& b.template_index == a.template_index
                &&& b.preview == a.preview
                &&& b.show_preview == a.show_preview
                &&& b.selected_session == a.selected_session
                &&& b.new_host == a.new_host
                &&& b.host_index == if (a.host_index as int) + 1 < a.hosts@.len() {
                    a.host_index + 1
                } else {
                    0
                }
                &&& b.selected_host == a.hosts@[b.host_index as int]
                &&& b.status_message is None
                &&& cmds.len() == 0
            },
            Action::InputChar(c) => App::input_char_rel(a, b, c) && b.status_message is None
                && cmds.len() == 0,
            Action::InputBackspace => App::input_backspace_rel(a, b) && b.status_message is None
                && cmds.len() == 0,
            Action::InputDelete => {
                &&& App::same_core(a, b)
                &&& App::same_panel(a, b)
                &&& App::same_outcome(a, b)
                &&& App::same_filter(a, b)
                &&& b.input_mode == a.input_mode
                &&& b.input_cursor == a.input_cursor
                &&& if a.input_mode matches InputMode::Input { .. } && (a.input_cursor as int)
                    < a.input_buffer@.len() {
                    b.input_buffer@ == a.input_buffer@.subrange(0, a.input_cursor as int)
                        + a.input_buffer@.subrange(
                        a.input_cursor + 1,
                        a.input_buffer@.len() as int,
                    )
                } else {
                    b.input_buffer == a.input_buffer
                }
                &&& b.status_message is None
                &&& cmds.len() == 0
            },
            Action::InputConfirm => App::input_confirm_rel(
                App { status_message: None, ..a },
                b,
                cmds,
            ),
            Action::InputCancel => {
                &&& App::same_core_but_staged(a, b)
                &&& App::same_filter(a, b)
                &&& App::same_panel(a, b)
                &&& App::same_outcome(a, b)
                &&& b.input_mode == InputMode::Normal
                &&& b.input_buffer@.len() == 0
                &&& b.input_cursor == 0
                &&& b.new_host is None
                &&& b.status_message is None
                &&& cmds.len() == 0
            },
            Action::Left => {
                &&& App::same_core(a, b)
                &&& App::same_filter(a, b)
                &&& App::same_mode(a, b)
                &&& App::same_outcome(a, b)
                &&& b.view == a.view
                &&& b.show_help == a.show_help
                &&& b.window_index == a.window_index
                &&& if a.view == View::Settings && a.settings_category_index > 0 {
                    b.settings_category_index == a.settings_category_index - 1
                        && b.settings_item_index == 0
                } else {
                    b.settings_category_index == a.settings_category_index
                        && b.settings_item_index == a.settings_item_index
                }
                &&& b.status_message is None
                &&& cmds.len() == 0
            },
            Action::Right => {
                &&& App::same_core(a, b)
                &&& App::same_filter(a, b)
                &&& App::same_mode(a, b)
                &&& App::same_outcome(a, b)
                &&& b.view == a.view
                &&& b.show_help == a.show_help
                &&& b.window_index == a.window_index
                &&& if a.view == View::Settings && a.settings_category_index < 4 {
                    b.settings_category_index == a.settings_category_index + 1
                        && b.settings_item_index == 0
                } else {
                    b.settings_category_index == a.settings_category_index
                        && b.settings_item_index == a.settings_item_index
                }
                &&& b.status_message is None
                &&& cmds.len() == 0
            },
            Action::Noop => App::unchanged(a, b) && b.status_message is None && cmds.len() == 0,
        }
    }

    /// Dispatch one resolved action: clear the status line, apply the
    /// transition, and return the backend commands to run.
    #[verifier::rlimit(100)]
    pub fn handle_action(&mut self, action: Action) -> (cmds: Vec<Command>)
        requires
            old(self).wf(),
        ensures
            final(self).wf(),
            App::handle_rel(*old(self), *final(self), action, cmds@),
    {
        self.status_message = None;
        match action {
            Action::Quit => {
                let top_level = match &self.input_mode {
                    InputMode::Normal => true,
                    _ => false,
                };
                if top_level && self.view == View::Sessions {
                    self.should_quit = true;
                    Vec::new()
                } else {
                    self.go_back()
                }
            },
            Action::ForceQuit => {
                self.should_quit = true;
                Vec::new()
            },
            Action::Back => self.go_back(),
            Action::Up => {
                self.move_up();
                Vec::new()
            },
            Action::Down => {
                self.move_down();
                Vec::new()
            },
            Action::Top => {
                self.move_to_top();
                Vec::new()
            },
            Action::Bottom => {
                self.move_to_bottom();
                Vec::new()
            },
            Action::PageUp => {
                self.page_up();
                Vec::new()
            },
            Action::PageDown => {
                self.page_down();
                Vec::new()
            },
            Action::Select => self.select(),
            Action::NewSession => {
                self.start_new_session();
                Vec::new()
            },
            Action::RenameSession => {
                self.start_rename_session();
                Vec::new()
            },
            Action::KillSession => {
                self.confirm_kill_session();
                Vec::new()
            },
            Action::DetachSession => {
                if self.view == View::Settings && self.is_hosts_category() {
                    self.delete_host()
                } else {
                    self.detach_session()
                }
            },
            Action::AttachSession => {
                if self.view == View::Settings && self.is_hosts_category() {
                    self.start_add_host();
                    Vec::new()
                } else {
                    self.attach_session(false)
                }
            },
            Action::AttachSpawn => self.attach_session(true),
            Action::AddHost => {
                self.start_add_host();
                Vec::new()
            },
            Action::EditHost => Vec::new(),
            Action::DeleteHost => self.delete_host(),
            Action::ViewWindows => self.view_windows(),
            Action::ViewTemplates => {
                self.view = View::Templates;
                Vec::new()
            },
            Action::ViewSettings => {
                self.view = View::Settings;
                self.settings_category_index = 0;
                self.settings_item_index = 0;
                Vec::new()
            },
            Action::Refresh => {
                let mut cmds: Vec<Command> = Vec::new();
                cmds.push(Command::RefreshSessions);
                proof {
                    assert(cmds@ =~= seq![Command::RefreshSessions]);
                }
                cmds
            },
            Action::RefreshAll => {
                let mut cmds: Vec<Command> = Vec::new();
                cmds.push(Command::RefreshSessions);
                proof {
                    assert(cmds@ =~= seq![Command::RefreshSessions]);
                }
                cmds
            },
            Action::StartSearch => {
                self.input_mode = InputMode::Search;
                self.search_query = String::new();
                Vec::new()
            },
            Action::ClearSearch => {
                self.input_mode = InputMode::Normal;
                self.search_query = String::new();
                self.apply_filter();
                Vec::new()
            },
            Action::ToggleHelp => {
                self.show_help = !self.show_help;
                Vec::new()
            },
            Action::TogglePreview => {
                self.show_preview = !self.show_preview;
                Vec::new()
            },
            Action::SwitchHost => {
                self.switch_host();
                Vec::new()
            },
            Action::InputChar(c) => {
                self.input_char(c);
                Vec::new()
            },
            Action::InputBackspace => {
                self.input_backspace();
                Vec::new()
            },
            Action::InputDelete => {
                self.input_delete();
                Vec::new()
            },
            Action::InputConfirm => self.input_confirm(),
            Action::InputCancel => {
                self.input_cancel();
                Vec::new()
            },
            Action::Left => {
                if self.view == View::Settings && self.settings_category_index > 0 {
                    self.settings_category_index = self.settings_category_index - 1;
                    self.settings_item_index = 0;
                }
                Vec::new()
            },
            Action::Right => {
                if self.view == View::Settings && self.settings_category_index < 4 {
                    self.settings_category_index = self.settings_category_index + 1;
                    self.settings_item_index = 0;
                }
                Vec::new()
            },
            Action::Noop => Vec::new(),
        }
    }

    /// A session is visible under the current host selection: all sessions
    /// when the local entry is selected, only the matching host otherwise.
    pub open spec fn host_visible(sel: Option<String>, h: Option<String>) -> bool {
        match (sel, h) {
            (None, _) => true,
            (Some(a), Some(b)) => a@ == b@,
            (Some(_), None) => false,
        }
    }

    /// The indices (into the session list) of the filtered sessions that
    /// are visible under the host selection, in filter order.
    pub open spec fn visible_ids(
        sessions: Seq<Session>,
        filtered: Seq<usize>,
        sel: Option<String>,
    ) -> Seq<int>
        decreases filtered.len(),
    {
        if filtered.len() == 0 {
            Seq::empty()
        } else {
            App::visible_ids(sessions, filtered.drop_last(), sel) + (if (filtered.last() as int)
                < sessions.len() && App::host_visible(sel, sessions[filtered.last() as int].host) {
                seq![filtered.last() as int]
            } else {
                Seq::empty()
            })
        }
    }

    /// An exact copy of a session: every field equal, the attached-user
    /// list element for element.
    pub open spec fn session_copy_ok(a: Session, b: Session) -> bool {
        &&& b.name == a.name
        &&& b.id == a.id
        &&& b.pid == a.pid
        &&& b.status == a.status
        &&& b.window_count == a.window_count
        &&& b.created == a.created
        &&& b.host == a.host
        &&& b.working_dir == a.working_dir
        &&& b.git_branch == a.git_branch
        &&& b.git_clean == a.git_clean
        &&& b.attached_users@ == a.attached_users@
    }

    /// The filtered sessions narrowed to the selected host.
    pub fn get_visible_sessions(&self) -> (r: Vec<Session>)
        requires
            self.wf(),
        ensures
            ({
                let vis = App::visible_ids(
                    self.sessions@,
                    self.filtered_sessions@,
                    self.selected_host,
                );
                &&& r@.len() == vis.len()
                &&& forall|i: int|
                    0 <= i < vis.len() ==> App::session_copy_ok(
                        self.sessions@[vis[i]],
                        #[trigger] r@[i],
                    )
            }),
    {
        let mut r: Vec<Session> = Vec::new();
        let mut i: usize = 0;
        while i < self.filtered_sessions.len()
            invariant
                self.wf(),
                i <= self.filtered_sessions@.len(),
                ({
                    let vis = App::visible_ids(
                        self.sessions@,
                        self.filtered_sessions@.take(i as int),
                        self.selected_host,
                    );
                    &&& r@.len() == vis.len()
                    &&& forall|j: int|
                        0 <= j < vis.len() ==> App::session_copy_ok(
                            self.sessions@[vis[j]],
                            #[trigger] r@[j],
                        )
                }),
            decreases self.filtered_sessions@.len() - i,
        {
            let idx = self.filtered_sessions[i];
            let visible = match (&self.selected_host, &self.sessions[idx].host) {
                (None, _) => true,
                (Some(a), Some(b)) => str_eq(a.as_str(), b.as_str()),
                (Some(_), None) => false,
            };
            proof {
                assert(self.filtered_sessions@.take(i + 1).drop_last()
                    =~= self.filtered_sessions@.take(i as int));
                assert(self.filtered_sessions@.take(i + 1).last()
                    == self.filtered_sessions@[i as int]);
            }
            if visible {
                let copy = copy_session(&self.sessions[idx]);
                r.push(copy);
                proof {
                    assert(App::visible_ids(
                        self.sessions@,
                        self.filtered_sessions@.take(i + 1),
                        self.selected_host,
                    ) =~= App::visible_ids(
                        self.sessions@,
                        self.filtered_sessions@.take(i as int),
                        self.selected_host,
                    ) + seq![idx as int]);
                }
            } else {
                proof {
                    assert(App::visible_ids(
                        self.sessions@,
                        self.filtered_sessions@.take(i + 1),
                        self.selected_host,
                    ) =~= App::visible_ids(
                        self.sessions@,
                        self.filtered_sessions@.take(i as int),
                        self.selected_host,
                    ));
                }
            }
            i += 1;
        }
        proof {
            assert(self.filtered_sessions@.take(self.filtered_sessions@.len() as int)
                =~= self.filtered_sessions@);
        }
        r
    }

    /// The periodic tick: while the preview is enabled and sessions exist,
    /// ask for a fresh capture of the highlighted session.
    pub fn tick(&self) -> (cmds: Vec<Command>)
        requires
            self.wf(),
        ensures
            if self.show_preview && self.sessions@.len() > 0 {
                match self.sel_session() {
                    Some(s) => cmds@ == seq![Command::CapturePreview { id: s.id, host: s.host }],
                    None => cmds@.len() == 0,
                }
            } else {
                cmds@.len() == 0
            },
    {
        if self.show_preview && self.sessions.len() > 0 {
            match self.get_selected_session() {
                Some(session) => {
                    let id = session.id.clone();
                    let host = clone_opt_string(&session.host);
                    let mut cmds: Vec<Command> = Vec::new();
                    cmds.push(Command::CapturePreview { id, host });
                    proof {
                        let s = self.sel_session()->Some_0;
                        assert(cmds@ =~= seq![Command::CapturePreview { id: s.id, host: s.host }]);
                    }
                    cmds
                },
                None => Vec::new(),
            }
        } else {
            Vec::new()
        }
    }
}

/// The sessions contributed by a list of per-host listing outcomes: the
/// successful listings' sessions in order; a failed host contributes
/// nothing.
pub open spec fn oks_flat(rs: Seq<Result<Vec<Session>, String>>) -> Seq<Session>
    decreases rs.len(),
{
    if rs.len() == 0 {
        Seq::empty()
    } else {
        (match rs.first() {
            Ok(v) => v@,
            Err(_) => Seq::empty(),
        }) + oks_flat(rs.drop_first())
    }
}

impl App {
    /// Folding a refresh back in: the session collection becomes the local
    /// listing (or nothing, when it failed) followed by every surviving
    /// remote listing in order; a local failure is reported, remote
    /// failures are absorbed silently; the filter is re-applied and the
    /// selection re-clamped.
    pub open spec fn refresh_rel(
        a: App,
        b: App,
        local: Result<Vec<Session>, String>,
        remote: Seq<Result<Vec<Session>, String>>,
    ) -> bool {
        let all = (match local {
            Ok(v) => v@,
            Err(_) => Seq::<Session>::empty(),
        }) + oks_flat(remote);
        &&& b.sessions@ == all
        &&& idxs(b.filtered_sessions@) == filter_indices(all, a.search_query@)
        &&& b.session_index == if (a.session_index as int) < filter_indices(
            all,
            a.search_query@,
        ).len() {
            a.session_index as int
        } else {
            0
        }
        &&& match local {
            Ok(_) => b.error_message == a.error_message,
            Err(e) => b.error_message matches Some(m) && m@ == "Failed to list local sessions: "@
                + e@,
        }
        &&& b.status_message == a.status_message
        &&& b.config == a.config
        &&& b.hosts == a.hosts
        &&& b.host_index == a.host_index
        &&& b.selected_host == a.selected_host
        &&& b.windows == a.windows
        &&& b.window_index == a.window_index
        &&& b.templates == a.templates
        &&& b.template_index == a.template_index
        &&& b.preview == a.preview
        &&& b.show_preview == a.show_preview
        &&& b.show_help == a.show_help
        &&& b.view == a.view
        &&& b.input_mode == a.input_mode
        &&& b.input_buffer == a.input_buffer
        &&& b.input_cursor == a.input_cursor
        &&& b.search_query == a.search_query
        &&& b.selected_session == a.selected_session
        &&& b.should_quit == a.should_quit
        &&& b.settings_category_index == a.settings_category_index
        &&& b.settings_item_index == a.settings_item_index
        &&& b.new_host == a.new_host
    }

    /// Fold the outcome of a refresh back into the state: the local
    /// listing outcome and one outcome per configured host, in host order.
    /// One unreachable host never blanks the whole view, and only a local
    /// failure is reported.
    pub fn finish_refresh(
        &mut self,
        local: Result<Vec<Session>, String>,
        remote: Vec<Result<Vec<Session>, String>>,
    )
        requires
            old(self).wf(),
        ensures
            final(self).wf(),
            App::refresh_rel(*old(self), *final(self), local, remote@),
    {
        let ghost remote0 = remote@;
        let ghost base = match local {
            Ok(ref v) => v@,
            Err(_) => Seq::<Session>::empty(),
        };
        let mut all: Vec<Session>;
        match local {
            Ok(v) => {
                all = v;
            },
            Err(e) => {
                all = Vec::new();
                proof {
                    reveal_strlit("Failed to list local sessions: ");
                }
                let msg = concat2("Failed to list local sessions: ", e.as_str());
                self.error_message = Some(msg);
            },
        }
        let mut rest = remote;
        while rest.len() > 0
            invariant
                all@ + oks_flat(rest@) == base + oks_flat(remote0),
            decreases rest@.len(),
        {
            let ghost pre_rest = rest@;
            let head = rest.remove(0);
            proof {
                assert(rest@ =~= pre_rest.drop_first());
            }
            match head {
                Ok(v) => {
                    let mut items = v;
                    proof {
                        assert(all@ + items@ + oks_flat(rest@) =~= base + oks_flat(remote0));
                    }
                    while items.len() > 0
                        invariant
                            all@ + items@ + oks_flat(rest@) == base + oks_flat(remote0),
                        decreases items@.len(),
                    {
                        let ghost pre_items = items@;
                        let s = items.remove(0);
                        proof {
                            assert(items@ =~= pre_items.drop_first());
                        }
                        all.push(s);
                        proof {
                            assert(all@ + items@ + oks_flat(rest@) =~= base + oks_flat(remote0));
                        }
                    }
                    proof {
                        assert(all@ + oks_flat(rest@) =~= base + oks_flat(remote0));
                    }
                },
                Err(_) => {
                    proof {
                        assert(all@ + oks_flat(rest@) =~= base + oks_flat(remote0));
                    }
                },
            }
        }
        proof {
            assert(oks_flat(rest@) =~= Seq::<Session>::empty());
            assert(all@ =~= base + oks_flat(remote0));
        }
        self.sessions = all;
        self.apply_filter();
        if self.session_index >= self.filtered_sessions.len() {
            let len = self.filtered_sessions.len();
            self.session_index = if len > 0 {
                len - 1
            } else {
                0
            };
        }
    }

    /// Fold a window listing back in: the windows replace the old list and
    /// the selection is re-clamped; a failure is reported and changes
    /// nothing else.
    pub fn finish_windows(&mut self, result: Result<Vec<Window>, String>)
        requires
            old(self).wf(),
        ensures
            final(self).wf(),
            match result {
                Ok(w) => {
                    &&& final(self).windows == w
                    &&& final(self).window_index == if (old(self).window_index as int) < w@.len() {
                        old(self).window_index as int
                    } else if w@.len() > 0 {
                        w@.len() - 1
                    } else {
                        0
                    }
                    &&& final(self).error_message == old(self).error_message
                },
                Err(e) => {
                    &&& final(self).windows == old(self).windows
                    &&& final(self).window_index == old(self).window_index
                    &&& final(self).error_message matches Some(m) && m@
                        == "Failed to list windows: "@ + e@
                },
            },
            final(self).status_message == old(self).status_message,
            final(self).sessions == old(self).sessions,
            App::same_filter(*old(self), *final(self)),
            final(self).view == old(self).view,
            final(self).input_mode == old(self).input_mode,
            final(self).config == old(self).config,
            final(self).hosts == old(self).hosts,
            final(self).templates == old(self).templates,
            final(self).template_index == old(self).template_index,
            final(self).selected_session == old(self).selected_session,
            final(self).preview == old(self).preview,
            final(self).should_quit == old(self).should_quit,
    {
        match result {
            Ok(w) => {
                self.windows = w;
                if self.window_index >= self.windows.len() {
                    let len = self.windows.len();
                    self.window_index = if len > 0 {
                        len - 1
                    } else {
                        0
                    };
                }
            },
            Err(e) => {
                proof {
                    reveal_strlit("Failed to list windows: ");
                }
                let msg = concat2("Failed to list windows: ", e.as_str());
                self.error_message = Some(msg);
            },
        }
    }

    /// All fields but the messages are unchanged.
    pub open spec fn only_messages_changed(a: App, b: App) -> bool {
        &&& App::same_core(a, b)
        &&& App::same_filter(a, b)
        &&& App::same_panel(a, b)
        &&& App::same_mode(a, b)
        &&& b.should_quit == a.should_quit
    }

    /// Fold the outcome of a kill-session command back in: success reports
    /// it and asks for exactly one refresh; failure reports the error and
    /// asks for nothing.
    pub fn finish_kill_session(&mut self, result: Result<(), String>) -> (cmds: Vec<Command>)
        requires
            old(self).wf(),
        ensures
            final(self).wf(),
            App::only_messages_changed(*old(self), *final(self)),
            match result {
                Ok(_) => {
                    &&& final(self).status_message matches Some(m) && m@ == "Killed session"@
                    &&& final(self).error_message == old(self).error_message
                    &&& cmds@ == seq![Command::RefreshSessions]
                },
                Err(e) => {
                    &&& final(self).status_message == old(self).status_message
                    &&& final(self).error_message matches Some(m) && m@
                        == "Failed to kill session: "@ + e@
                    &&& cmds@.len() == 0
                },
            },
    {
        match result {
            Ok(_) => {
                self.status_message = Some("Killed session".to_owned());
                let mut cmds: Vec<Command> = Vec::new();
                cmds.push(Command::RefreshSessions);
                proof {
                    assert(cmds@ =~= seq![Command::RefreshSessions]);
                }
                cmds
            },
            Err(e) => {
                proof {
                    reveal_strlit("Failed to kill session: ");
                }
                let msg = concat2("Failed to kill session: ", e.as_str());
                self.error_message = Some(msg);
                Vec::new()
            },
        }
    }

    /// Fold the outcome of a kill-window command back in: success reports
    /// the window number and asks for a fresh window listing.
    pub fn finish_kill_window(&mut self, number: usize, result: Result<(), String>) -> (cmds: Vec<
        Command,
    >)
        requires
            old(self).wf(),
        ensures
            final(self).wf(),
            App::only_messages_changed(*old(self), *final(self)),
            match result {
                Ok(_) => {
                    &&& final(self).status_message matches Some(m) && m@ == "Killed window "@
                        + dec_rep(number as nat)
                    &&& final(self).error_message == old(self).error_message
                    &&& cmds@ == (match old(self).selected_session {
                        Some(sess) => seq![Command::ListWindows { session: sess }],
                        None => Seq::empty(),
                    })
                },
                Err(e) => {
                    &&& final(self).status_message == old(self).status_message
                    &&& final(self).error_message matches Some(m) && m@
                        == "Failed to kill window: "@ + e@
                    &&& cmds@.len() == 0
                },
            },
    {
        match result {
            Ok(_) => {
                proof {
                    reveal_strlit("Killed window ");
                }
                let num = u64_to_string(number as u64);
                let msg = concat2("Killed window ", num.as_str());
                self.status_message = Some(msg);
                match &self.selected_session {
                    Some(sess) => {
                        let mut cmds: Vec<Command> = Vec::new();
                        cmds.push(Command::ListWindows { session: sess.clone() });
                        proof {
                            assert(cmds@ =~= seq![
                                Command::ListWindows {
                                    session: old(self).selected_session->Some_0,
                                },
                            ]);
                        }
                        cmds
                    },
                    None => Vec::new(),
                }
            },
            Err(e) => {
                proof {
                    reveal_strlit("Failed to kill window: ");
                }
                let msg = concat2("Failed to kill window: ", e.as_str());
                self.error_message = Some(msg);
                Vec::new()
            },
        }
    }

    /// A successful detach: the status line reports it and nothing else
    /// changes. Detaching an already-detached session succeeds as well, so
    /// doing this twice leaves the very same state — the message does not
    /// accumulate.
    pub open spec fn detach_ok_step(a: App, b: App) -> bool {
        &&& App::only_messages_changed(a, b)
        &&& b.status_message matches Some(m) && m@ == "Session detached"@
        &&& b.error_message == a.error_message
    }

    /// Fold the outcome of a detach command back in: success (including
    /// detaching an already-detached session, which the backend treats as
    /// success) reports it and asks for one refresh; failure reports the
    /// error.
    pub fn finish_detach(&mut self, result: Result<(), String>) -> (cmds: Vec<Command>)
        requires
            old(self).wf(),
        ensures
            final(self).wf(),
            match result {
                Ok(_) => App::detach_ok_step(*old(self), *final(self)) && cmds@ == seq![
                    Command::RefreshSessions,
                ],
                Err(e) => {
                    &&& App::only_messages_changed(*old(self), *final(self))
                    &&& final(self).status_message == old(self).status_message
                    &&& final(self).error_message matches Some(m) && m@ == "Failed to detach: "@
                        + e@
                    &&& cmds@.len() == 0
                },
            },
    {
        match result {
            Ok(_) => {
                self.status_message = Some("Session detached".to_owned());
                let mut cmds: Vec<Command> = Vec::new();
                cmds.push(Command::RefreshSessions);
                proof {
                    assert(cmds@ =~= seq![Command::RefreshSessions]);
                }
                cmds
            },
            Err(e) => {
                proof {
                    reveal_strlit("Failed to detach: ");
                }
                let msg = concat2("Failed to detach: ", e.as_str());
                self.error_message = Some(msg);
                Vec::new()
            },
        }
    }

    /// Fold the outcome of a create-session command back in.
    pub fn finish_create_session(&mut self, name: &str, result: Result<(), String>) -> (cmds: Vec<
        Command,
    >)
        requires
            old(self).wf(),
        ensures
            final(self).wf(),
            App::only_messages_changed(*old(self), *final(self)),
            match result {
                Ok(_) => {
                    &&& final(self).status_message matches Some(m) && m@ == "Created session '"@
                        + name@ + "'"@
                    &&& final(self).error_message == old(self).error_message
                    &&& cmds@ == seq![Command::RefreshSessions]
                },
                Err(e) => {
                    &&& final(self).status_message == old(self).status_message
                    &&& final(self).error_message matches Some(m) && m@
                        == "Failed to create session: "@ + e@
                    &&& cmds@.len() == 0
                },
            },
    {
        match result {
            Ok(_) => {
                proof {
                    reveal_strlit("Created session '");
                    reveal_strlit("'");
                }
                let msg = concat3("Created session '", name, "'");
                self.status_message = Some(msg);
                let mut cmds: Vec<Command> = Vec::new();
                cmds.push(Command::RefreshSessions);
                proof {
                    assert(cmds@ =~= seq![Command::RefreshSessions]);
                }
                cmds
            },
            Err(e) => {
                proof {
                    reveal_strlit("Failed to create session: ");
                }
                let msg = concat2("Failed to create session: ", e.as_str());
                self.error_message = Some(msg);
                Vec::new()
            },
        }
    }

    /// Fold the outcome of a rename command back in.
    pub fn finish_rename_session(
        &mut self,
        old_name: &str,
        new_name: &str,
        result: Result<(), String>,
    ) -> (cmds: Vec<Command>)
        requires
            old(self).wf(),
        ensures
            final(self).wf(),
            App::only_messages_changed(*old(self), *final(self)),
            match result {
                Ok(_) => {
                    &&& final(self).status_message matches Some(m) && m@ == "Renamed '"@
                        + old_name@ + "' -> '"@ + new_name@ + "'"@
                    &&& final(self).error_message == old(self).error_message
                    &&& cmds@ == seq![Command::RefreshSessions]
                },
                Err(e) => {
                    &&& final(self).status_message == old(self).status_message
                    &&& final(self).error_message matches Some(m) && m@
                        == "Failed to rename session: "@ + e@
                    &&& cmds@.len() == 0
                },
            },
    {
        match result {
            Ok(_) => {
                proof {
                    reveal_strlit("Renamed '");
                    reveal_strlit("' -> '");
                    reveal_strlit("'");
                }
                let head = concat3("Renamed '", old_name, "' -> '");
                let msg = concat3(head.as_str(), new_name, "'");
                self.status_message = Some(msg);
                let mut cmds: Vec<Command> = Vec::new();
                cmds.push(Command::RefreshSessions);
                proof {
                    assert(cmds@ =~= seq![Command::RefreshSessions]);
                }
                cmds
            },
            Err(e) => {
                proof {
                    reveal_strlit("Failed to rename session: ");
                }
                let msg = concat2("Failed to rename session: ", e.as_str());
                self.error_message = Some(msg);
                Vec::new()
            },
        }
    }

    /// Fold the outcome of a create-window command back in.
    pub fn finish_create_window(&mut self, name: &str, result: Result<(), String>) -> (cmds: Vec<
        Command,
    >)
        requires
            old(self).wf(),
        ensures
            final(self).wf(),
            App::only_messages_changed(*old(self), *final(self)),
            match result {
                Ok(_) => {
                    &&& final(self).status_message matches Some(m) && m@ == "Created window '"@
                        + name@ + "'"@
                    &&& final(self).error_message == old(self).error_message
                    &&& cmds@ == (match old(self).selected_session {
                        Some(sess) => seq![Command::ListWindows { session: sess }],
                        None => Seq::empty(),
                    })
                },
                Err(e) => {
                    &&& final(self).status_message == old(self).status_message
                    &&& final(self).error_message matches Some(m) && m@
                        == "Failed to create window: "@ + e@
                    &&& cmds@.len() == 0
                },
            },
    {
        match result {
            Ok(_) => {
                proof {
                    reveal_strlit("Created window '");
                    reveal_strlit("'");
                }
                let msg = concat3("Created window '", name, "'");
                self.status_message = Some(msg);
                match &self.selected_session {
                    Some(sess) => {
                        let mut cmds: Vec<Command> = Vec::new();
                        cmds.push(Command::ListWindows { session: sess.clone() });
                        proof {
                            assert(cmds@ =~= seq![
                                Command::ListWindows {
                                    session: old(self).selected_session->Some_0,
                                },
                            ]);
                        }
                        cmds
                    },
                    None => Vec::new(),
                }
            },
            Err(e) => {
                proof {
                    reveal_strlit("Failed to create window: ");
                }
                let msg = concat2("Failed to create window: ", e.as_str());
                self.error_message = Some(msg);
                Vec::new()
            },
        }
    }

    /// Fold the outcome of a spawn-attach back in.
    pub fn finish_attach_spawn(&mut self, result: Result<(), String>)
        requires
            old(self).wf(),
        ensures
            final(self).wf(),
            App::only_messages_changed(*old(self), *final(self)),
            match result {
                Ok(_) => {
                    &&& final(self).status_message matches Some(m) && m@
                        == "Opened in new terminal"@
                    &&& final(self).error_message == old(self).error_message
                },
                Err(e) => {
                    &&& final(self).status_message == old(self).status_message
                    &&& final(self).error_message matches Some(m) && m@ == "Failed to spawn: "@
                        + e@
                },
            },
    {
        match result {
            Ok(_) => {
                self.status_message = Some("Opened in new terminal".to_owned());
            },
            Err(e) => {
                proof {
                    reveal_strlit("Failed to spawn: ");
                }
                let msg = concat2("Failed to spawn: ", e.as_str());
                self.error_message = Some(msg);
            },
        }
    }

    /// A process-replacing attach only ever reports back on failure:
    /// control returning at all is the failure signal.
    pub fn finish_attach_exec_returned(&mut self)
        requires
            old(self).wf(),
        ensures
            final(self).wf(),
            App::only_messages_changed(*old(self), *final(self)),
            final(self).status_message == old(self).status_message,
            final(self).error_message matches Some(m) && m@ == "Failed to attach"@,
    {
        self.error_message = Some("Failed to attach".to_owned());
    }

    /// Fold a preview capture back in: a fresh capture replaces the
    /// preview; a failed capture is ignored.
    pub fn finish_preview(&mut self, result: Result<Preview, String>)
        requires
            old(self).wf(),
        ensures
            final(self).wf(),
            match result {
                Ok(p) => final(self).preview == p,
                Err(_) => final(self).preview == old(self).preview,
            },
            *final(self) == (App { preview: final(self).preview, ..*old(self) }),
    {
        match result {
            Ok(p) => {
                self.preview = p;
            },
            Err(_) => {
            },
        }
    }

    /// Fold a template listing back in: the templates replace the old
    /// collection and the selection is re-clamped; a failure is reported.
    pub fn finish_templates(&mut self, result: Result<Vec<Template>, String>)
        requires
            old(self).wf(),
        ensures
            final(self).wf(),
            match result {
                Ok(t) => {
                    &&& final(self).templates == t
                    &&& final(self).template_index == if (old(self).template_index as int)
                        < t@.len() {
                        old(self).template_index as int
                    } else if t@.len() > 0 {
                        t@.len() - 1
                    } else {
                        0
                    }
                    &&& final(self).error_message == old(self).error_message
                },
                Err(e) => {
                    &&& final(self).templates == old(self).templates
                    &&& final(self).template_index == old(self).template_index
                    &&& final(self).error_message matches Some(m) && m@
                        == "Failed to load templates: "@ + e@
                },
            },
            final(self).status_message == old(self).status_message,
            final(self).sessions == old(self).sessions,
            App::same_filter(*old(self), *final(self)),
            final(self).windows == old(self).windows,
            final(self).window_index == old(self).window_index,
            final(self).view == old(self).view,
            final(self).config == old(self).config,
            final(self).should_quit == old(self).should_quit,
    {
        match result {
            Ok(t) => {
                self.templates = t;
                if self.template_index >= self.templates.len() {
                    let len = self.templates.len();
                    self.template_index = if len > 0 {
                        len - 1
                    } else {
                        0
                    };
                }
            },
            Err(e) => {
                proof {
                    reveal_strlit("Failed to load templates: ");
                }
                let msg = concat2("Failed to load templates: ", e.as_str());
                self.error_message = Some(msg);
            },
        }
    }

    /// Fold the outcome of a create-from-template command back in: success
    /// reports it, returns to the session list and asks for one refresh.
    pub fn finish_create_from_template(&mut self, name: &str, result: Result<(), String>) -> (cmds:
        Vec<Command>)
        requires
            old(self).wf(),
        ensures
            final(self).wf(),
            App::same_core(*old(self), *final(self)),
            App::same_filter(*old(self), *final(self)),
            App::same_mode(*old(self), *final(self)),
            final(self).show_help == old(self).show_help,
            final(self).window_index == old(self).window_index,
            final(self).settings_category_index == old(self).settings_category_index,
            final(self).settings_item_index == old(self).settings_item_index,
            final(self).should_quit == old(self).should_quit,
            match result {
                Ok(_) => {
                    &&& final(self).view == View::Sessions
                    &&& final(self).status_message matches Some(m) && m@
                        == "Created session from template '"@ + name@ + "'"@
                    &&& final(self).error_message == old(self).error_message
                    &&& cmds@ == seq![Command::RefreshSessions]
                },
                Err(e) => {
                    &&& final(self).view == old(self).view
                    &&& final(self).status_message == old(self).status_message
                    &&& final(self).error_message matches Some(m) && m@
                        == "Failed to create session: "@ + e@
                    &&& cmds@.len() == 0
                },
            },
    {
        match result {
            Ok(_) => {
                proof {
                    reveal_strlit("Created session from template '");
                    reveal_strlit("'");
                }
                let msg = concat3("Created session from template '", name, "'");
                self.status_message = Some(msg);
                self.view = View::Sessions;
                let mut cmds: Vec<Command> = Vec::new();
                cmds.push(Command::RefreshSessions);
                proof {
                    assert(cmds@ =~= seq![Command::RefreshSessions]);
                }
                cmds
            },
            Err(e) => {
                proof {
                    reveal_strlit("Failed to create session: ");
                }
                let msg = concat2("Failed to create session: ", e.as_str());
                self.error_message = Some(msg);
                Vec::new()
            },
        }
    }
}

/// Filtering is idempotent: applying the same query twice over the same
/// session collection yields the index list and selection of a single
/// application, because the derived list is a function of the sessions and
/// the query alone, never of the previous filtered list.
pub proof fn lemma_filter_idempotent(a: App, b: App, c: App)
    requires
        App::filter_step(a, b),
        App::filter_step(b, c),
    ensures
        idxs(c.filtered_sessions@) == idxs(b.filtered_sessions@),
        c.session_index == b.session_index,
{
}

/// Adding a host and immediately removing it restores the host list to its
/// prior exact contents and ordering. `finish_add_host` appends the staged
/// host at the end, and `delete_host` removes at an index, so removing at
/// the appended position undoes the addition exactly.
pub proof fn lemma_host_add_remove_roundtrip(hosts: Seq<HostConfig>, h: HostConfig)
    ensures
        hosts.push(h).remove(hosts.len() as int) == hosts,
{
    assert(hosts.push(h).remove(hosts.len() as int) =~= hosts);
}

/// Detaching an already-detached session twice in a row succeeds both
/// times and leaves the very same state after the second success as after
/// the first: the status message is the same single line, never
/// accumulated.
pub proof fn lemma_detach_idempotent(a: App, b: App, c: App)
    requires
        App::detach_ok_step(a, b),
        App::detach_ok_step(b, c),
    ensures
        App::same_core(b, c),
        App::same_filter(b, c),
        App::same_panel(b, c),
        App::same_mode(b, c),
        c.should_quit == b.should_quit,
        c.error_message == b.error_message,
        c.status_message matches Some(m) && b.status_message matches Some(m2) && m@ == m2@,
{
}

} // verus!
