//! Parsers for the text the screen backend prints: session listings,
//! window listings, captured terminal content and query responses.
//!
//! The grammar of each listing is written out as spec functions over the
//! string view, and every parser is proved against it.

use vstd::prelude::*;

use crate::model::{Session, SessionStatus, Window, WindowActivity};
use crate::scan::{
    digits_val, find_char_from, find_from, has_char, is_digit, lemma_run_end, lines_spec, rtrim,
    run_end, scan_digits, scan_nonblank, scan_word, skip_blanks, split_lines, trim, trim_end_str,
    trim_str, CharClass, contains_char, digits_to_u64, eq_ignore_ascii_case, lower_seq,
};
use crate::text::{contains_sub, dec_rep, str_contains, str_eq, u64_to_string};

verus! {

/// Relies on `chrono::NaiveDateTime::parse_from_str` and
/// `chrono::TimeZone::from_local_datetime` to read a timestamp in the given
/// format as local time. The result depends on the machine's time zone, so
/// nothing is assumed about it.
#[verifier::external_body]
fn parse_local_datetime(s: &str, fmt: &str) -> Option<i64> {
    let naive = chrono::NaiveDateTime::parse_from_str(s, fmt).ok()?;
    chrono::TimeZone::from_local_datetime(&chrono::Local, &naive).single().map(|dt| dt.timestamp())
}

/// Relies on `std::time::SystemTime::now` for the current time; nothing is
/// assumed about the result.
#[verifier::external_body]
fn now_epoch_seconds() -> i64 {
    match std::time::SystemTime::now().duration_since(std::time::UNIX_EPOCH) {
        Ok(d) => d.as_secs() as i64,
        Err(_) => 0,
    }
}

/// Timestamp of a listing's date column, read in the first format that
/// accepts it, as seconds since the epoch in local time.
fn parse_screen_datetime(s: &str) -> Option<i64> {
    let trimmed = trim_str(s);
    let formats: [&'static str; 5] = [
        "%m/%d/%Y %I:%M:%S %p",
        "%m/%d/%y %I:%M:%S %p",
        "%m/%d/%Y %H:%M:%S",
        "%m/%d/%y %H:%M:%S",
        "%Y-%m-%d %H:%M:%S",
    ];
    let mut i: usize = 0;
    while i < 5
        invariant
            i <= 5,
        decreases 5 - i,
    {
        let r = parse_local_datetime(trimmed.as_str(), formats[i]);
        if r.is_some() {
            return r;
        }
        i += 1;
    }
    None
}

/// A `u32` read from a digit run: the value when it fits, 0 otherwise,
/// mirroring a failed integer parse.
pub open spec fn clamp_u32(v: nat) -> nat {
    if v <= u32::MAX {
        v
    } else {
        0
    }
}

/// A `usize` read from a digit run: the value when it fits, 0 otherwise.
pub open spec fn clamp_usize(v: nat) -> nat {
    if v <= usize::MAX {
        v
    } else {
        0
    }
}

/// The session status named by a word, compared without regard to ASCII
/// case; anything unrecognised is `Unknown`.
pub open spec fn status_of(w: Seq<char>) -> SessionStatus {
    if lower_seq(w) == "detached"@ {
        SessionStatus::Detached
    } else if lower_seq(w) == "attached"@ {
        SessionStatus::Attached
    } else if lower_seq(w) == "multi"@ {
        SessionStatus::Multi
    } else {
        SessionStatus::Unknown
    }
}

/// Read a session status word from a listing.
pub fn parse_status(status: &str) -> (r: SessionStatus)
    ensures
        r == status_of(status@),
{
    proof {
        reveal_strlit("detached");
        reveal_strlit("attached");
        reveal_strlit("multi");
        assert(lower_seq("detached"@) =~= "detached"@);
        assert(lower_seq("attached"@) =~= "attached"@);
        assert(lower_seq("multi"@) =~= "multi"@);
    }
    if eq_ignore_ascii_case(status, "detached") {
        SessionStatus::Detached
    } else if eq_ignore_ascii_case(status, "attached") {
        SessionStatus::Attached
    } else if eq_ignore_ascii_case(status, "multi") {
        SessionStatus::Multi
    } else {
        SessionStatus::Unknown
    }
}

/// The fields of one session line, in listing order: process-id digits,
/// name, date text and status word.
///
/// A line matches when it has the shape
/// `<blanks> <digits> . <name> <blanks> ( <date> ) <blanks> ( <status> )`,
/// where the name is a non-blank run, the date runs to the first closing
/// parenthesis, and the status is a word run.
pub open spec fn session_line_fields(l: Seq<char>) -> Option<
    (Seq<char>, Seq<char>, Seq<char>, Seq<char>),
> {
    let i0 = run_end(l, 0, CharClass::Blank);
    let d = run_end(l, i0, CharClass::Digit);
    let n = run_end(l, d + 1, CharClass::NonBlank);
    let w1 = run_end(l, n, CharClass::Blank);
    let p = find_from(l, w1 + 1, ')');
    let w2 = run_end(l, p + 1, CharClass::Blank);
    let sw = run_end(l, w2 + 1, CharClass::Word);
    if d == i0 || !(d < l.len() && l[d] == '.') {
        None
    } else if n == d + 1 {
        None
    } else if w1 == n || !(w1 < l.len() && l[w1] == '(') {
        None
    } else if p == w1 + 1 || p >= l.len() {
        None
    } else if w2 == p + 1 || !(w2 < l.len() && l[w2] == '(') {
        None
    } else if sw == w2 + 1 || !(sw < l.len() && l[sw] == ')') {
        None
    } else {
        Some((l.subrange(i0, d), l.subrange(d + 1, n), l.subrange(w1 + 1, p), l.subrange(w2 + 1, sw)))
    }
}

/// The view of an optional host argument.
pub open spec fn opt_view(h: Option<&str>) -> Option<Seq<char>> {
    match h {
        Some(x) => Some(x@),
        None => None,
    }
}

/// A parsed session agrees with the fields of its listing line: same name,
/// the process id read from the digits, the `pid.name` identifier, the
/// status named by the status word, the given host, and everything else at
/// its initial value. The creation time comes from the date text and the
/// clock and is not constrained here.
pub open spec fn session_matches(
    s: Session,
    f: (Seq<char>, Seq<char>, Seq<char>, Seq<char>),
    host: Option<Seq<char>>,
) -> bool {
    &&& s.name@ == f.1
    &&& s.pid == clamp_u32(digits_val(f.0))
    &&& s.id@ == dec_rep(clamp_u32(digits_val(f.0))) + "."@ + f.1
    &&& s.status == status_of(f.3)
    &&& match (s.host, host) {
        (Some(a), Some(b)) => a@ == b,
        (None, None) => true,
        _ => false,
    }
    &&& s.window_count == 0
    &&& s.working_dir is None
    &&& s.git_branch is None
    &&& s.git_clean is None
    &&& s.attached_users@.len() == 0
}

/// Parse one line of a session listing.
fn parse_session_line(line: &str, host: Option<&str>) -> (r: Option<Session>)
    ensures
        r is Some <==> session_line_fields(line@) is Some,
        r matches Some(s) ==> session_matches(s, session_line_fields(line@)->Some_0, opt_view(host)),
{
    let len = line.unicode_len();
    let i0 = skip_blanks(line, 0);
    let d = scan_digits(line, i0);
    if d == i0 || d >= len || line.get_char(d) != '.' {
        return None;
    }
    let n = scan_nonblank(line, d + 1);
    if n == d + 1 {
        return None;
    }
    let w1 = skip_blanks(line, n);
    if w1 == n || w1 >= len || line.get_char(w1) != '(' {
        return None;
    }
    let p = find_char_from(line, w1 + 1, ')');
    if p == w1 + 1 || p >= len {
        return None;
    }
    let w2 = skip_blanks(line, p + 1);
    if w2 == p + 1 || w2 >= len || line.get_char(w2) != '(' {
        return None;
    }
    let sw = scan_word(line, w2 + 1);
    if sw == w2 + 1 || sw >= len || line.get_char(sw) != ')' {
        return None;
    }
    proof {
        lemma_run_end(line@, i0 as int, CharClass::Digit);
    }
    let pid64 = digits_to_u64(line, i0, d);
    let pid: u32 = if pid64 <= u32::MAX as u64 {
        pid64 as u32
    } else {
        0
    };
    proof {
        assert(pid == clamp_u32(digits_val(line@.subrange(i0 as int, d as int))));
    }
    let name = line.substring_char(d + 1, n).to_owned();
    let date_str = line.substring_char(w1 + 1, p);
    let status_str = line.substring_char(w2 + 1, sw);
    let status = parse_status(status_str);
    let mut id = u64_to_string(pid as u64);
    proof {
        reveal_strlit(".");
    }
    id.append(".");
    id.append(name.as_str());
    let created = match parse_screen_datetime(date_str) {
        Some(t) => t,
        None => now_epoch_seconds(),
    };
    let host_owned = match host {
        Some(h) => Some(h.to_owned()),
        None => None,
    };
    let s = Session {
        name,
        id,
        pid,
        status,
        window_count: 0,
        created,
        host: host_owned,
        working_dir: None,
        git_branch: None,
        git_clean: None,
        attached_users: Vec::new(),
    };
    proof {
        assert(s.id@ =~= dec_rep(clamp_u32(digits_val(line@.subrange(i0 as int, d as int))))
            + "."@ + line@.subrange(d + 1, n as int));
    }
    Some(s)
}

/// The fields of every matching line, from line `i` on.
pub open spec fn session_fields_from(ls: Seq<Seq<char>>, i: int) -> Seq<
    (Seq<char>, Seq<char>, Seq<char>, Seq<char>),
>
    decreases ls.len() - i,
{
    if i < 0 || i >= ls.len() {
        Seq::empty()
    } else {
        (match session_line_fields(ls[i]) {
            Some(f) => seq![f],
            None => Seq::empty(),
        }) + session_fields_from(ls, i + 1)
    }
}

/// Parse the full output of a session listing: one session per matching
/// line, in listing order. Lines that do not match the grammar are skipped.
pub fn parse_session_list(output: &str, host: Option<&str>) -> (r: Vec<Session>)
    ensures
        r@.len() == session_fields_from(lines_spec(output@), 0).len(),
        forall|i: int|
            0 <= i < r@.len() ==> session_matches(
                r@[i],
                session_fields_from(lines_spec(output@), 0)[i],
                opt_view(host),
            ),
{
    let ghost ls = lines_spec(output@);
    let lines = split_lines(output);
    let mut r: Vec<Session> = Vec::new();
    let mut i: usize = 0;
    while i < lines.len()
        invariant
            i <= lines.len(),
            lines@.len() == ls.len(),
            forall|j: int| 0 <= j < ls.len() ==> lines@[j]@ == ls[j],
            r@.len() + session_fields_from(ls, i as int).len() == session_fields_from(ls, 0).len(),
            forall|j: int|
                0 <= j < session_fields_from(ls, i as int).len() ==> session_fields_from(
                    ls,
                    i as int,
                )[j] == session_fields_from(ls, 0)[r@.len() + j],
            forall|j: int|
                0 <= j < r@.len() ==> session_matches(
                    r@[j],
                    session_fields_from(ls, 0)[j],
                    opt_view(host),
                ),
        decreases lines@.len() - i,
    {
        let line = &lines[i];
        let parsed = parse_session_line(line.as_str(), host);
        proof {
            assert(session_fields_from(ls, i as int) == (match session_line_fields(ls[i as int]) {
                Some(f) => seq![f],
                None => Seq::empty(),
            }) + session_fields_from(ls, i + 1));
        }
        let ghost old_len = r@.len() as int;
        match parsed {
            Some(s) => {
                proof {
                    let f = session_line_fields(ls[i as int])->Some_0;
                    assert(session_fields_from(ls, i as int)[0] == f);
                    assert(session_fields_from(ls, 0)[old_len] == f);
                    assert(forall|j: int|
                        0 <= j < session_fields_from(ls, i + 1).len() ==> #[trigger] session_fields_from(
                            ls,
                            i + 1,
                        )[j] == session_fields_from(ls, i as int)[j + 1]);
                }
                r.push(s);
            },
            None => {
                proof {
                    assert(session_fields_from(ls, i as int) =~= session_fields_from(ls, i + 1));
                }
            },
        }
        i += 1;
    }
    proof {
        assert(session_fields_from(ls, lines@.len() as int).len() == 0);
    }
    r
}

/// A listing output announces that there are no sessions.
pub open spec fn no_sessions_spec(s: Seq<char>) -> bool {
    contains_sub(s, "No Sockets found"@) || contains_sub(s, "No sessions"@)
}

/// Whether a listing output announces that there are no sessions.
pub fn is_no_sessions(output: &str) -> (r: bool)
    ensures
        r == no_sessions_spec(output@),
{
    str_contains(output, "No Sockets found") || str_contains(output, "No sessions")
}

/// The sessions named by a raw listing output: none when the output says
/// there are no sessions, the parsed lines otherwise.
pub fn sessions_from_output(output: &str, host: Option<&str>) -> (r: Vec<Session>)
    ensures
        no_sessions_spec(output@) ==> r@.len() == 0,
        !no_sessions_spec(output@) ==> {
            &&& r@.len() == session_fields_from(lines_spec(output@), 0).len()
            &&& forall|i: int|
                0 <= i < r@.len() ==> session_matches(
                    r@[i],
                    session_fields_from(lines_spec(output@), 0)[i],
                    opt_view(host),
                )
        },
{
    if is_no_sessions(output) {
        Vec::new()
    } else {
        parse_session_list(output, host)
    }
}

/// Captured terminal content, line by line, each line stripped of trailing
/// whitespace.
pub fn parse_hardcopy(content: &str) -> (r: Vec<String>)
    ensures
        r@.len() == lines_spec(content@).len(),
        forall|i: int| 0 <= i < r@.len() ==> r@[i]@ == rtrim(lines_spec(content@)[i]),
{
    let lines = split_lines(content);
    let mut r: Vec<String> = Vec::new();
    let mut i: usize = 0;
    while i < lines.len()
        invariant
            i <= lines.len(),
            lines@.len() == lines_spec(content@).len(),
            forall|j: int| 0 <= j < lines@.len() ==> lines@[j]@ == lines_spec(content@)[j],
            r@.len() == i,
            forall|j: int| 0 <= j < i ==> r@[j]@ == rtrim(lines_spec(content@)[j]),
        decreases lines@.len() - i,
    {
        let trimmed = trim_end_str(lines[i].as_str());
        r.push(trimmed);
        i += 1;
    }
    r
}

/// The answer carried by a query response: the trimmed output, unless it is
/// empty or the failure marker `-1`.
pub open spec fn query_response_spec(s: Seq<char>) -> Option<Seq<char>> {
    if trim(s).len() == 0 || trim(s) == "-1"@ {
        None
    } else {
        Some(trim(s))
    }
}

/// Read a query response.
pub fn parse_query_response(output: &str) -> (r: Option<String>)
    ensures
        r is Some <==> query_response_spec(output@) is Some,
        r matches Some(v) ==> query_response_spec(output@) == Some(v@),
{
    let trimmed = trim_str(output);
    if trimmed.as_str().unicode_len() == 0 || str_eq(trimmed.as_str(), "-1") {
        None
    } else {
        Some(trimmed)
    }
}

/// A window flag character in a listing.
pub open spec fn is_flag_char(c: char) -> bool {
    c == '-' || c == '*' || c == '$' || c == '#' || c == '!' || c == '@' || c == '+'
}

/// The activity classification a flag string implies: a bell marker first,
/// then the current-window markers, then the running marker.
pub open spec fn activity_of(flags: Seq<char>) -> WindowActivity {
    if has_char(flags, '@') {
        WindowActivity::Bell
    } else if has_char(flags, '$') || has_char(flags, '*') {
        WindowActivity::Active
    } else if has_char(flags, '+') {
        WindowActivity::Running
    } else {
        WindowActivity::Idle
    }
}

/// Classify a window's activity from its flag string.
pub fn parse_window_flags(flags: &str) -> (r: WindowActivity)
    ensures
        r == activity_of(flags@),
{
    if contains_char(flags, '@') {
        WindowActivity::Bell
    } else if contains_char(flags, '$') || contains_char(flags, '*') {
        WindowActivity::Active
    } else if contains_char(flags, '+') {
        WindowActivity::Running
    } else {
        WindowActivity::Idle
    }
}

/// A window token found at position `i` of a listing line: a digit run,
/// at most one flag character, at least one blank, then a non-blank name.
/// The result is the position after the token and its three fields
/// (digits, flags, name).
pub open spec fn win_match_at(l: Seq<char>, i: int) -> Option<
    (int, (Seq<char>, Seq<char>, Seq<char>)),
> {
    if !(0 <= i < l.len() && is_digit(l[i])) {
        None
    } else {
        let d = run_end(l, i, CharClass::Digit);
        let f = if d < l.len() && is_flag_char(l[d]) {
            d + 1
        } else {
            d
        };
        let b = run_end(l, f, CharClass::Blank);
        let n = run_end(l, b, CharClass::NonBlank);
        if b == f || n == b {
            None
        } else {
            Some((n, (l.subrange(i, d), l.subrange(d, f), l.subrange(b, n))))
        }
    }
}

/// All window tokens of one line, scanning from position `i`: the earliest
/// token at or after `i`, then the tokens after it.
pub open spec fn win_fields_from(l: Seq<char>, i: int) -> Seq<(Seq<char>, Seq<char>, Seq<char>)>
    decreases l.len() - i,
    via win_fields_from_decreases
{
    if i < 0 || i >= l.len() {
        Seq::empty()
    } else {
        match win_match_at(l, i) {
            Some(m) => seq![m.1] + win_fields_from(l, m.0),
            None => win_fields_from(l, i + 1),
        }
    }
}

#[via_fn]
proof fn win_fields_from_decreases(l: Seq<char>, i: int) {
    if 0 <= i < l.len() && is_digit(l[i]) {
        lemma_run_end(l, i, CharClass::Digit);
        let d = run_end(l, i, CharClass::Digit);
        let f = if d < l.len() && is_flag_char(l[d]) {
            d + 1
        } else {
            d
        };
        lemma_run_end(l, f, CharClass::Blank);
        let b = run_end(l, f, CharClass::Blank);
        lemma_run_end(l, b, CharClass::NonBlank);
    }
}

/// All window tokens of a listing, line by line, from line `i` on.
pub open spec fn win_fields_lines(ls: Seq<Seq<char>>, i: int) -> Seq<
    (Seq<char>, Seq<char>, Seq<char>),
>
    decreases ls.len() - i,
{
    if i < 0 || i >= ls.len() {
        Seq::empty()
    } else {
        win_fields_from(ls[i], 0) + win_fields_lines(ls, i + 1)
    }
}

/// A parsed window agrees with its token: the number read from the digits,
/// the flag string, the name, the active mark when the flags hold a
/// current-window marker, and the activity classification.
pub open spec fn window_matches(w: Window, f: (Seq<char>, Seq<char>, Seq<char>)) -> bool {
    &&& w.number == clamp_usize(digits_val(f.0))
    &&& w.flags@ == f.1
    &&& w.name@ == f.2
    &&& w.active == (has_char(f.1, '$') || has_char(f.1, '*'))
    &&& w.activity == activity_of(f.1)
    &&& w.command is None
}

/// Collect the window tokens of one line, in scanning order.
fn scan_window_line(line: &str, r: &mut Vec<Window>)
    ensures
        final(r)@.len() == old(r)@.len() + win_fields_from(line@, 0).len(),
        forall|j: int| 0 <= j < old(r)@.len() ==> final(r)@[j] == old(r)@[j],
        forall|j: int|
            0 <= j < win_fields_from(line@, 0).len() ==> window_matches(
                final(r)@[old(r)@.len() + j],
                win_fields_from(line@, 0)[j],
            ),
{
    let len = line.unicode_len();
    let mut i: usize = 0;
    while i < len
        invariant
            i <= len,
            len == line@.len(),
            r@.len() - old(r)@.len() + win_fields_from(line@, i as int).len() == win_fields_from(
                line@,
                0,
            ).len(),
            forall|j: int|
                0 <= j < win_fields_from(line@, i as int).len() ==> #[trigger] win_fields_from(
                    line@,
                    i as int,
                )[j] == win_fields_from(line@, 0)[r@.len() - old(r)@.len() + j],
            old(r)@.len() <= r@.len(),
            forall|j: int| 0 <= j < old(r)@.len() ==> r@[j] == old(r)@[j],
            forall|j: int|
                old(r)@.len() <= j < r@.len() ==> window_matches(
                    r@[j],
                    win_fields_from(line@, 0)[j - old(r)@.len()],
                ),
        decreases len - i,
    {
        let c = line.get_char(i);
        if '0' <= c && c <= '9' {
            let d = scan_digits(line, i);
            proof {
                lemma_run_end(line@, i as int, CharClass::Digit);
            }
            let f = if d < len {
                let fc = line.get_char(d);
                if fc == '-' || fc == '*' || fc == '$' || fc == '#' || fc == '!' || fc == '@' || fc
                    == '+' {
                    d + 1
                } else {
                    d
                }
            } else {
                d
            };
            let b = skip_blanks(line, f);
            let n = scan_nonblank(line, b);
            if b != f && n != b {
                proof {
                    assert(win_match_at(line@, i as int) == Some(
                        (
                            n as int,
                            (
                                line@.subrange(i as int, d as int),
                                line@.subrange(d as int, f as int),
                                line@.subrange(b as int, n as int),
                            ),
                        ),
                    ));
                }
                let num64 = digits_to_u64(line, i, d);
                let number: usize = if num64 <= usize::MAX as u64 {
                    num64 as usize
                } else {
                    0
                };
                let name = line.substring_char(b, n).to_owned();
                let flags = line.substring_char(d, f).to_owned();
                let active = contains_char(flags.as_str(), '$') || contains_char(
                    flags.as_str(),
                    '*',
                );
                let activity = parse_window_flags(flags.as_str());
                let w = Window { number, name, command: None, active, flags, activity };
                let ghost done = r@.len() - old(r)@.len();
                proof {
                    let wf = win_fields_from(line@, i as int);
                    assert(wf[0] == win_match_at(line@, i as int)->Some_0.1);
                    assert(forall|j: int|
                        0 <= j < win_fields_from(line@, n as int).len() ==> #[trigger] win_fields_from(
                            line@,
                            n as int,
                        )[j] == wf[j + 1]);
                }
                r.push(w);
                i = n;
            } else {
                proof {
                    assert(win_match_at(line@, i as int) is None);
                    assert(win_fields_from(line@, i as int) =~= win_fields_from(line@, i + 1));
                }
                i += 1;
            }
        } else {
            proof {
                assert(win_match_at(line@, i as int) is None);
                assert(win_fields_from(line@, i as int) =~= win_fields_from(line@, i + 1));
            }
            i += 1;
        }
    }
}

/// The sequence is sorted by window number.
pub open spec fn sorted_by_number(s: Seq<Window>) -> bool {
    forall|a: int, b: int| 0 <= a < b < s.len() ==> s[a].number <= s[b].number
}

/// Sort windows by their number, keeping exactly the same collection of
/// windows.
fn sort_windows(v: &mut Vec<Window>)
    ensures
        final(v)@.len() == old(v)@.len(),
        sorted_by_number(final(v)@),
        final(v)@.to_multiset() == old(v)@.to_multiset(),
{
    broadcast use vstd::seq_lib::group_to_multiset_ensures, vstd::seq_lib::to_multiset_update;

    let len = v.len();
    let mut i: usize = 1;
    while i < len
        invariant
            1 <= i <= len || len == 0,
            len == v@.len(),
            v@.to_multiset() == old(v)@.to_multiset(),
            forall|a: int, b: int| 0 <= a < b < i ==> v@[a].number <= v@[b].number,
        decreases len - i,
    {
        let mut j: usize = i;
        while j > 0 && v[j - 1].number > v[j].number
            invariant
                0 <= j <= i < len,
                len == v@.len(),
                v@.to_multiset() == old(v)@.to_multiset(),
                forall|a: int, b: int|
                    0 <= a < b <= i && b != j ==> v@[a].number <= v@[b].number,
                forall|a: int| j < a <= i ==> v@[j as int].number <= v@[a].number,
            decreases j,
        {
            let ghost before = v@;
            let wj = v.remove(j);
            v.insert(j - 1, wj);
            proof {
                broadcast use vstd::multiset::group_multiset_axioms, vstd::multiset::group_multiset_properties;

                let bj = before[j as int];
                let bjm1 = before[j - 1];
                assert(v@ =~= before.update(j as int, bjm1).update(j - 1, bj));
                let s1 = before.update(j as int, bjm1);
                vstd::seq_lib::to_multiset_update(before, j as int, bjm1);
                assert(s1.to_multiset() == before.to_multiset().insert(bjm1).remove(bj));
                assert(s1[j - 1] == bjm1);
                vstd::seq_lib::to_multiset_update(s1, j - 1, bj);
                assert(v@.to_multiset() == s1.to_multiset().insert(bj).remove(bjm1));
                assert(before.to_multiset().contains(bj)) by {
                    assert(0 <= j < before.len() && before[j as int] == bj);
                    assert(before.contains(bj));
                    vstd::seq_lib::to_multiset_contains(before, bj);
                }
                assert(v@.to_multiset() =~= before.to_multiset());
            }
            j -= 1;
        }
        i += 1;
    }
    proof {
        if len == 0 {
            assert(sorted_by_number(v@));
        }
    }
}

/// Parse the output of a window listing: every window token on every line,
/// sorted by window number. The result is a reordering of the tokens in
/// scanning order.
pub fn parse_window_list(output: &str) -> (r: Vec<Window>)
    ensures
        r@.len() == win_fields_lines(lines_spec(output@), 0).len(),
        sorted_by_number(r@),
        exists|u: Seq<Window>|
            {
                &&& u.len() == win_fields_lines(lines_spec(output@), 0).len()
                &&& forall|i: int|
                    0 <= i < u.len() ==> window_matches(
                        u[i],
                        win_fields_lines(lines_spec(output@), 0)[i],
                    )
                &&& r@.to_multiset() == #[trigger] u.to_multiset()
            },
{
    let ghost ls = lines_spec(output@);
    let lines = split_lines(output);
    let mut r: Vec<Window> = Vec::new();
    let mut i: usize = 0;
    while i < lines.len()
        invariant
            ls == lines_spec(output@),
            i <= lines.len(),
            lines@.len() == ls.len(),
            forall|j: int| 0 <= j < ls.len() ==> lines@[j]@ == ls[j],
            r@.len() + win_fields_lines(ls, i as int).len() == win_fields_lines(ls, 0).len(),
            forall|j: int|
                0 <= j < win_fields_lines(ls, i as int).len() ==> #[trigger] win_fields_lines(
                    ls,
                    i as int,
                )[j] == win_fields_lines(ls, 0)[r@.len() + j],
            forall|j: int|
                0 <= j < r@.len() ==> window_matches(r@[j], win_fields_lines(ls, 0)[j]),
        decreases lines@.len() - i,
    {
        let ghost done = r@.len() as int;
        scan_window_line(lines[i].as_str(), &mut r);
        proof {
            assert(win_fields_lines(ls, i as int) == win_fields_from(ls[i as int], 0)
                + win_fields_lines(ls, i + 1));
            let k = win_fields_from(ls[i as int], 0).len() as int;
            assert(forall|j: int|
                0 <= j < k ==> win_fields_lines(ls, i as int)[j] == #[trigger] win_fields_from(
                    ls[i as int],
                    0,
                )[j]);
            assert(forall|j: int|
                0 <= j < win_fields_lines(ls, i + 1).len() ==> #[trigger] win_fields_lines(
                    ls,
                    i + 1,
                )[j] == win_fields_lines(ls, i as int)[k + j]);
            assert forall|j: int| 0 <= j < r@.len() implies window_matches(
                r@[j],
                win_fields_lines(ls, 0)[j],
            ) by {
                if j >= done {
                    let jj = j - done;
                    assert(window_matches(r@[j], win_fields_from(ls[i as int], 0)[jj]));
                    assert(win_fields_lines(ls, i as int)[jj] == win_fields_lines(ls, 0)[done
                        + jj]);
                }
            }
        }
        i += 1;
    }
    proof {
        assert(win_fields_lines(ls, lines@.len() as int).len() == 0);
    }
    let ghost unsorted = r@;
    sort_windows(&mut r);
    proof {
        assert(unsorted.len() == win_fields_lines(ls, 0).len() && (forall|j: int|
            0 <= j < unsorted.len() ==> window_matches(unsorted[j], win_fields_lines(ls, 0)[j]))
            && r@.to_multiset() == unsorted.to_multiset());
        broadcast use vstd::seq_lib::group_to_multiset_ensures;

        assert(r@.len() == r@.to_multiset().len());
        assert(unsorted.len() == unsorted.to_multiset().len());
    }
    r
}

/// A character kept when trimming punctuation off the tail of a socket
/// directory path.
pub open spec fn is_path_char(c: char) -> bool {
    ('a' <= c && c <= 'z') || ('A' <= c && c <= 'Z') || is_digit(c) || c == '/' || c == '-' || c
        == '_'
}

/// The path with trailing non-path punctuation removed.
pub open spec fn path_rtrim(p: Seq<char>) -> Seq<char>
    decreases p.len(),
{
    if p.len() > 0 && !is_path_char(p.last()) {
        path_rtrim(p.drop_last())
    } else {
        p
    }
}

/// The socket directory named by the listing, scanning from line `i`: the
/// tail of the first line that mentions a socket and holds a slash,
/// starting at that slash, with trailing punctuation removed.
pub open spec fn socket_dir_from(ls: Seq<Seq<char>>, i: int) -> Option<Seq<char>>
    decreases ls.len() - i,
{
    if i < 0 || i >= ls.len() {
        None
    } else {
        let l = ls[i];
        if (contains_sub(l, "Socket"@) || contains_sub(l, "socket"@)) && find_from(l, 0, '/')
            < l.len() {
            Some(path_rtrim(l.skip(find_from(l, 0, '/'))))
        } else {
            socket_dir_from(ls, i + 1)
        }
    }
}

/// A suffix that ends on a path character is already path-trimmed.
proof fn lemma_path_rtrim_exact(s: Seq<char>, e: int)
    requires
        0 <= e <= s.len(),
        forall|j: int| e <= j < s.len() ==> !is_path_char(s[j]),
        e > 0 ==> is_path_char(s[e - 1]),
    ensures
        path_rtrim(s) == s.take(e),
    decreases s.len(),
{
    if s.len() > e {
        lemma_path_rtrim_exact(s.drop_last(), e);
        assert(s.drop_last().take(e) =~= s.take(e));
    } else {
        assert(s.take(e) =~= s);
    }
}

/// Extract the socket directory from a session listing.
pub fn parse_socket_dir(output: &str) -> (r: Option<String>)
    ensures
        r is Some <==> socket_dir_from(lines_spec(output@), 0) is Some,
        r matches Some(v) ==> socket_dir_from(lines_spec(output@), 0) == Some(v@),
{
    let ghost ls = lines_spec(output@);
    let lines = split_lines(output);
    let mut i: usize = 0;
    while i < lines.len()
        invariant
            ls == lines_spec(output@),
            i <= lines.len(),
            lines@.len() == ls.len(),
            forall|j: int| 0 <= j < ls.len() ==> lines@[j]@ == ls[j],
            socket_dir_from(ls, i as int) == socket_dir_from(ls, 0),
        decreases lines@.len() - i,
    {
        let line = lines[i].as_str();
        let len = line.unicode_len();
        if str_contains(line, "Socket") || str_contains(line, "socket") {
            let slash = find_char_from(line, 0, '/');
            if slash < len {
                proof {
                    lemma_run_end(line@, 0, CharClass::NotChar('/'));
                    assert(line@[slash as int] == '/');
                }
                let mut e = len;
                while e > slash
                    invariant
                        ls == lines_spec(output@),
                        slash <= e <= len,
                        slash < len,
                        len == line@.len(),
                        line@ == ls[i as int],
                        line@[slash as int] == '/',
                        slash == find_from(ls[i as int], 0, '/'),
                        socket_dir_from(ls, i as int) == socket_dir_from(ls, 0),
                        i < ls.len(),
                        contains_sub(ls[i as int], "Socket"@) || contains_sub(
                            ls[i as int],
                            "socket"@,
                        ),
                        forall|j: int| e <= j < len ==> !is_path_char(line@[j]),
                    decreases e,
                {
                    let c = line.get_char(e - 1);
                    if ('a' <= c && c <= 'z') || ('A' <= c && c <= 'Z') || ('0' <= c && c <= '9')
                        || c == '/' || c == '-' || c == '_' {
                        proof {
                            lemma_path_rtrim_exact(line@.skip(slash as int), e - slash);
                            assert(line@.skip(slash as int).take(e - slash) =~= line@.subrange(
                                slash as int,
                                e as int,
                            ));
                            assert(socket_dir_from(ls, i as int) == Some(
                                path_rtrim(ls[i as int].skip(slash as int)),
                            ));
                        }
                        let path = line.substring_char(slash, e).to_owned();
                        assert(path@ == path_rtrim(ls[i as int].skip(slash as int)));
                        return Some(path);
                    }
                    e -= 1;
                }
                proof {
                    assert(is_path_char(line@[slash as int]));
                    assert(false);
                }
                return None;
            }
        }
        proof {
            assert(socket_dir_from(ls, i as int) == socket_dir_from(ls, i + 1));
        }
        i += 1;
    }
    None
}

} // verus!
