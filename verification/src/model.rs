//! Data model for screen sessions, windows and preview snapshots.

use vstd::prelude::*;

use crate::text::{dec_rep, u64_to_string};

verus! {

/// Status of a screen session.
#[derive(Debug, Clone, Copy, PartialEq, Eq, Structural, Default)]
pub enum SessionStatus {
    /// Session has no attached displays.
    Detached,
    /// Session has one or more attached displays.
    Attached,
    /// Session is in multiuser mode with multiple attachments.
    Multi,
    /// Session status is unknown.
    #[default]
    Unknown,
}

/// Label used when rendering a session status.
pub open spec fn status_label(s: SessionStatus) -> Seq<char> {
    match s {
        SessionStatus::Detached => "detached"@,
        SessionStatus::Attached => "attached"@,
        SessionStatus::Multi => "multi"@,
        SessionStatus::Unknown => "unknown"@,
    }
}

impl SessionStatus {
    /// Human-readable label for this status.
    pub fn as_str(&self) -> (r: &'static str)
        ensures
            r@ == status_label(*self),
    {
        match self {
            SessionStatus::Detached => "detached",
            SessionStatus::Attached => "attached",
            SessionStatus::Multi => "multi",
            SessionStatus::Unknown => "unknown",
        }
    }
}

/// Activity state of a window.
#[derive(Debug, Clone, Copy, PartialEq, Eq, Structural, Default)]
pub enum WindowActivity {
    /// Window is idle.
    #[default]
    Idle,
    /// Window has recent activity.
    Active,
    /// Window has output (bell/activity monitoring).
    Bell,
    /// Process is running.
    Running,
}

/// Label used when rendering a window activity.
pub open spec fn activity_label(a: WindowActivity) -> Seq<char> {
    match a {
        WindowActivity::Idle => "idle"@,
        WindowActivity::Active => "active"@,
        WindowActivity::Bell => "bell"@,
        WindowActivity::Running => "running"@,
    }
}

impl WindowActivity {
    /// Human-readable label for this activity state.
    pub fn as_str(&self) -> (r: &'static str)
        ensures
            r@ == activity_label(*self),
    {
        match self {
            WindowActivity::Idle => "idle",
            WindowActivity::Active => "active",
            WindowActivity::Bell => "bell",
            WindowActivity::Running => "running",
        }
    }
}

/// Represents a screen session, local or remote.
#[derive(Debug, Clone)]
pub struct Session {
    /// Session name (the part after the process id, e.g. `dev` in `12345.dev`).
    pub name: String,
    /// Full session identifier in `pid.name` form.
    pub id: String,
    /// Process id of the screen backend.
    pub pid: u32,
    /// Current status.
    pub status: SessionStatus,
    /// Number of windows in the session.
    pub window_count: usize,
    /// Creation time in seconds since the epoch; 0 when unknown.
    pub created: i64,
    /// Host this session is on (`None` for local).
    pub host: Option<String>,
    /// Working directory of the session, if known.
    pub working_dir: Option<String>,
    /// Version-control branch, if known.
    pub git_branch: Option<String>,
    /// Whether the working tree is clean, if known.
    pub git_clean: Option<bool>,
    /// Names of attached users, for multiuser sessions.
    pub attached_users: Vec<String>,
}

/// Display name of a session: the plain name locally, `name@host` remotely.
pub open spec fn display_name_spec(name: Seq<char>, host: Option<Seq<char>>) -> Seq<char> {
    match host {
        Some(h) => name + "@"@ + h,
        None => name,
    }
}

/// Age label for a session: days, hours or minutes since creation, or `now`.
pub open spec fn age_label(secs: int) -> Seq<char> {
    if secs >= 86400 {
        dec_rep((secs / 86400) as nat) + "d"@
    } else if secs >= 3600 {
        dec_rep((secs / 3600) as nat) + "h"@
    } else if secs >= 60 {
        dec_rep((secs / 60) as nat) + "m"@
    } else {
        "now"@
    }
}

impl Session {
    /// Create a new session with minimal information; the creation time is
    /// unknown until a listing supplies it.
    pub fn new(id: String, name: String, pid: u32, status: SessionStatus) -> (s: Session)
        ensures
            s.id == id,
            s.name == name,
            s.pid == pid,
            s.status == status,
            s.window_count == 0,
            s.created == 0,
            s.host is None,
            s.working_dir is None,
            s.git_branch is None,
            s.git_clean is None,
            s.attached_users@.len() == 0,
    {
        Session {
            name,
            id,
            pid,
            status,
            window_count: 0,
            created: 0,
            host: None,
            working_dir: None,
            git_branch: None,
            git_clean: None,
            attached_users: Vec::new(),
        }
    }

    /// Display name: includes the host when the session is remote.
    pub fn display_name(&self) -> (r: String)
        ensures
            r@ == display_name_spec(
                self.name@,
                match self.host {
                    Some(ref h) => Some(h@),
                    None => None,
                },
            ),
    {
        match &self.host {
            Some(host) => {
                let mut r = self.name.clone();
                proof {
                    reveal_strlit("@");
                }
                r.append("@");
                r.append(host.as_str());
                assert(r@ =~= self.name@ + "@"@ + host@);
                r
            },
            None => self.name.clone(),
        }
    }

    /// A session is local exactly when it has no host reference.
    pub fn is_local(&self) -> (r: bool)
        ensures
            r == (self.host is None),
    {
        self.host.is_none()
    }

    /// A session counts as attached in both single and multiuser mode.
    pub fn is_attached(&self) -> (r: bool)
        ensures
            r == (self.status == SessionStatus::Attached || self.status == SessionStatus::Multi),
    {
        match self.status {
            SessionStatus::Attached => true,
            SessionStatus::Multi => true,
            _ => false,
        }
    }

    /// Age of the session relative to `now` (seconds since the epoch), as a
    /// short human-readable label.
    pub fn age_string(&self, now: i64) -> (r: String)
        requires
            i64::MIN <= now - self.created <= i64::MAX,
        ensures
            r@ == age_label(now - self.created),
    {
        let secs: i64 = now - self.created;
        if secs >= 86400 {
            let mut r = u64_to_string((secs / 86400) as u64);
            proof {
                reveal_strlit("d");
            }
            r.append("d");
            assert(r@ =~= age_label(secs as int));
            r
        } else if secs >= 3600 {
            let mut r = u64_to_string((secs / 3600) as u64);
            proof {
                reveal_strlit("h");
            }
            r.append("h");
            assert(r@ =~= age_label(secs as int));
            r
        } else if secs >= 60 {
            let mut r = u64_to_string((secs / 60) as u64);
            proof {
                reveal_strlit("m");
            }
            r.append("m");
            assert(r@ =~= age_label(secs as int));
            r
        } else {
            let r = "now".to_owned();
            r
        }
    }
}

/// Represents a window within a screen session.
#[derive(Debug, Clone)]
pub struct Window {
    /// Window number (zero-based, unique within a session).
    pub number: usize,
    /// Window name or title.
    pub name: String,
    /// Command running in the window, if known.
    pub command: Option<String>,
    /// Whether this is the currently active window.
    pub active: bool,
    /// Raw flag characters reported by the backend (`$`, `*`, `-`, ...).
    pub flags: String,
    /// Activity classification derived from the flags.
    pub activity: WindowActivity,
}

impl Window {
    /// Create a new idle window.
    pub fn new(number: usize, name: String) -> (w: Window)
        ensures
            w.number == number,
            w.name == name,
            w.command is None,
            !w.active,
            w.flags@.len() == 0,
            w.activity == WindowActivity::Idle,
    {
        Window {
            number,
            name,
            command: None,
            active: false,
            flags: String::new(),
            activity: WindowActivity::Idle,
        }
    }
}

/// Terminal preview content for the selected session.
#[derive(Debug, Clone)]
pub struct Preview {
    /// Captured lines of terminal content.
    pub lines: Vec<String>,
    /// Total number of lines in the capture.
    pub total_lines: usize,
    /// Current scroll offset into `lines`.
    pub scroll_offset: usize,
    /// Whether the preview is being refreshed.
    pub updating: bool,
}

impl Preview {
    /// Create a new empty preview.
    pub fn new() -> (p: Preview)
        ensures
            p.lines@.len() == 0,
            p.total_lines == 0,
            p.scroll_offset == 0,
            !p.updating,
    {
        Preview { lines: Vec::new(), total_lines: 0, scroll_offset: 0, updating: false }
    }

    /// Number of lines the viewport shows, given the scroll position.
    pub open spec fn visible_count(&self, height: nat) -> nat {
        let avail: nat = if self.scroll_offset as nat <= self.lines@.len() {
            (self.lines@.len() - self.scroll_offset as nat) as nat
        } else {
            0
        };
        if height <= avail {
            height
        } else {
            avail
        }
    }

    /// The window of lines starting at the scroll offset, each paired with
    /// its one-based line number.
    pub fn visible_lines(&self, height: usize) -> (r: Vec<(usize, String)>)
        ensures
            r@.len() == self.visible_count(height as nat),
            forall|i: int|
                0 <= i < r@.len() ==> r@[i].0 == self.scroll_offset + i + 1 && r@[i].1
                    == self.lines@[self.scroll_offset + i],
    {
        let mut r: Vec<(usize, String)> = Vec::new();
        let mut i: usize = 0;
        let len = self.lines.len();
        let avail = if self.scroll_offset < len {
            len - self.scroll_offset
        } else {
            0
        };
        let count = if height < avail {
            height
        } else {
            avail
        };
        while i < count
            invariant
                len == self.lines@.len(),
                count == self.visible_count(height as nat),
                count + self.scroll_offset <= len || count == 0,
                i <= count,
                r@.len() == i,
                forall|j: int|
                    0 <= j < i ==> r@[j].0 == self.scroll_offset + j + 1 && r@[j].1
                        == self.lines@[self.scroll_offset + j],
            decreases count - i,
        {
            let line = &self.lines[self.scroll_offset + i];
            r.push((self.scroll_offset + i + 1, line.clone()));
            i += 1;
        }
        r
    }

    /// Scroll up by `n` lines, stopping at the top.
    pub fn scroll_up(&mut self, n: usize)
        ensures
            final(self).scroll_offset == if old(self).scroll_offset >= n {
                old(self).scroll_offset - n
            } else {
                0
            },
            final(self).lines == old(self).lines,
            final(self).total_lines == old(self).total_lines,
            final(self).updating == old(self).updating,
    {
        self.scroll_offset = if self.scroll_offset >= n {
            self.scroll_offset - n
        } else {
            0
        };
    }

    /// Scroll down by `n` lines, stopping where the last viewport-full of
    /// lines begins.
    pub fn scroll_down(&mut self, n: usize, height: usize)
        ensures
            ({
                let max_offset: int = if old(self).lines@.len() >= height {
                    old(self).lines@.len() - height
                } else {
                    0
                };
                final(self).scroll_offset == if old(self).scroll_offset + n <= max_offset {
                    old(self).scroll_offset + n
                } else {
                    max_offset
                }
            }),
            final(self).lines == old(self).lines,
            final(self).total_lines == old(self).total_lines,
            final(self).updating == old(self).updating,
    {
        let len = self.lines.len();
        let max_offset = if len >= height {
            len - height
        } else {
            0
        };
        let target = if self.scroll_offset <= usize::MAX - n {
            self.scroll_offset + n
        } else {
            usize::MAX
        };
        self.scroll_offset = if target <= max_offset {
            target
        } else {
            max_offset
        };
    }
}

/// Sessions grouped by host.
#[derive(Debug, Clone)]
pub struct SessionGroup {
    /// Host name, `None` for the local group.
    pub host: Option<String>,
    /// Sessions in this group.
    pub sessions: Vec<Session>,
}

impl SessionGroup {
    /// Create a new empty group for one host.
    pub fn new(host: Option<String>) -> (g: SessionGroup)
        ensures
            g.host == host,
            g.sessions@.len() == 0,
    {
        SessionGroup { host, sessions: Vec::new() }
    }

    /// Display name for the group header.
    pub fn display_name(&self) -> (r: &str)
        ensures
            r@ == match self.host {
                Some(ref h) => h@,
                None => "LOCAL"@,
            },
    {
        match &self.host {
            Some(h) => h.as_str(),
            None => "LOCAL",
        }
    }

    /// Whether this is the local group.
    pub fn is_local(&self) -> (r: bool)
        ensures
            r == (self.host is None),
    {
        self.host.is_none()
    }
}

} // verus!
