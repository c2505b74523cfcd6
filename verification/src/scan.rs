//! Low-level character scanning: character classes, maximal runs, line
//! splitting, digit-run evaluation and trimming. The listing parsers are
//! built on these primitives; every function is proved against a direct
//! specification over the string view.

use vstd::prelude::*;

verus! {

/// Blank characters: ASCII whitespace other than the line separator itself.
pub open spec fn is_blank(c: char) -> bool {
    c == ' ' || c == '\t' || c == '\r' || c == '\n' || c == '\u{b}' || c == '\u{c}'
}

/// ASCII decimal digit.
pub open spec fn is_digit(c: char) -> bool {
    '0' <= c && c <= '9'
}

/// ASCII word character: letter, digit or underscore.
pub open spec fn is_word_char(c: char) -> bool {
    ('a' <= c && c <= 'z') || ('A' <= c && c <= 'Z') || is_digit(c) || c == '_'
}

/// The classes of characters the scanners recognise.
pub enum CharClass {
    /// Blank characters.
    Blank,
    /// ASCII decimal digits.
    Digit,
    /// Everything but a blank.
    NonBlank,
    /// ASCII word characters.
    Word,
    /// Everything but the given character.
    NotChar(char),
}

/// Whether a character belongs to a class.
pub open spec fn class_holds(k: CharClass, c: char) -> bool {
    match k {
        CharClass::Blank => is_blank(c),
        CharClass::Digit => is_digit(c),
        CharClass::NonBlank => !is_blank(c),
        CharClass::Word => is_word_char(c),
        CharClass::NotChar(x) => c != x,
    }
}

/// First index at or after `i` whose character falls outside the class `k`;
/// the length of the sequence when every remaining character is in `k`.
pub open spec fn run_end(s: Seq<char>, i: int, k: CharClass) -> int
    decreases s.len() - i,
{
    if i < 0 || i >= s.len() {
        i
    } else if class_holds(k, s[i]) {
        run_end(s, i + 1, k)
    } else {
        i
    }
}

/// Bounds and content of a maximal run: it starts at `i`, stays within the
/// sequence, consists of characters of class `k`, and is maximal.
pub proof fn lemma_run_end(s: Seq<char>, i: int, k: CharClass)
    requires
        0 <= i <= s.len(),
    ensures
        i <= run_end(s, i, k) <= s.len(),
        forall|j: int| i <= j < run_end(s, i, k) ==> class_holds(k, s[j]),
        run_end(s, i, k) < s.len() ==> !class_holds(k, s[run_end(s, i, k)]),
    decreases s.len() - i,
{
    if i < s.len() && class_holds(k, s[i]) {
        lemma_run_end(s, i + 1, k);
    }
}

/// Skip blanks starting at `i`.
pub fn skip_blanks(s: &str, i: usize) -> (r: usize)
    requires
        i <= s@.len(),
    ensures
        r == run_end(s@, i as int, CharClass::Blank),
        i <= r <= s@.len(),
{
    let len = s.unicode_len();
    let mut j = i;
    while j < len
        invariant
            i <= j <= len,
            len == s@.len(),
            run_end(s@, j as int, CharClass::Blank) == run_end(s@, i as int, CharClass::Blank),
        decreases len - j,
    {
        let c = s.get_char(j);
        if !(c == ' ' || c == '\t' || c == '\r' || c == '\n' || c == '\u{b}' || c == '\u{c}') {
            proof {
                lemma_run_end(s@, i as int, CharClass::Blank);
            }
            return j;
        }
        j += 1;
    }
    proof {
        lemma_run_end(s@, i as int, CharClass::Blank);
    }
    j
}

/// Scan a run of decimal digits starting at `i`.
pub fn scan_digits(s: &str, i: usize) -> (r: usize)
    requires
        i <= s@.len(),
    ensures
        r == run_end(s@, i as int, CharClass::Digit),
        i <= r <= s@.len(),
{
    let len = s.unicode_len();
    let mut j = i;
    while j < len
        invariant
            i <= j <= len,
            len == s@.len(),
            run_end(s@, j as int, CharClass::Digit) == run_end(s@, i as int, CharClass::Digit),
        decreases len - j,
    {
        let c = s.get_char(j);
        if !('0' <= c && c <= '9') {
            proof {
                lemma_run_end(s@, i as int, CharClass::Digit);
            }
            return j;
        }
        j += 1;
    }
    proof {
        lemma_run_end(s@, i as int, CharClass::Digit);
    }
    j
}

/// Scan a run of non-blank characters starting at `i`.
pub fn scan_nonblank(s: &str, i: usize) -> (r: usize)
    requires
        i <= s@.len(),
    ensures
        r == run_end(s@, i as int, CharClass::NonBlank),
        i <= r <= s@.len(),
{
    let len = s.unicode_len();
    let mut j = i;
    while j < len
        invariant
            i <= j <= len,
            len == s@.len(),
            run_end(s@, j as int, CharClass::NonBlank) == run_end(s@, i as int, CharClass::NonBlank),
        decreases len - j,
    {
        let c = s.get_char(j);
        if c == ' ' || c == '\t' || c == '\r' || c == '\n' || c == '\u{b}' || c == '\u{c}' {
            proof {
                lemma_run_end(s@, i as int, CharClass::NonBlank);
            }
            return j;
        }
        j += 1;
    }
    proof {
        lemma_run_end(s@, i as int, CharClass::NonBlank);
    }
    j
}

/// Scan a run of word characters starting at `i`.
pub fn scan_word(s: &str, i: usize) -> (r: usize)
    requires
        i <= s@.len(),
    ensures
        r == run_end(s@, i as int, CharClass::Word),
        i <= r <= s@.len(),
{
    let len = s.unicode_len();
    let mut j = i;
    while j < len
        invariant
            i <= j <= len,
            len == s@.len(),
            run_end(s@, j as int, CharClass::Word) == run_end(s@, i as int, CharClass::Word),
        decreases len - j,
    {
        let c = s.get_char(j);
        if !(('a' <= c && c <= 'z') || ('A' <= c && c <= 'Z') || ('0' <= c && c <= '9') || c
            == '_') {
            proof {
                lemma_run_end(s@, i as int, CharClass::Word);
            }
            return j;
        }
        j += 1;
    }
    proof {
        lemma_run_end(s@, i as int, CharClass::Word);
    }
    j
}

/// First index at or after `i` holding exactly `c`, or the length when `c`
/// does not occur there.
pub open spec fn find_from(s: Seq<char>, i: int, c: char) -> int {
    run_end(s, i, CharClass::NotChar(c))
}

/// Find the next occurrence of `c` at or after `i`.
pub fn find_char_from(s: &str, i: usize, c: char) -> (r: usize)
    requires
        i <= s@.len(),
    ensures
        r == find_from(s@, i as int, c),
        i <= r <= s@.len(),
{
    let len = s.unicode_len();
    let mut j = i;
    while j < len
        invariant
            i <= j <= len,
            len == s@.len(),
            run_end(s@, j as int, CharClass::NotChar(c)) == run_end(s@, i as int, CharClass::NotChar(c)),
        decreases len - j,
    {
        if s.get_char(j) == c {
            proof {
                lemma_run_end(s@, i as int, CharClass::NotChar(c));
            }
            return j;
        }
        j += 1;
    }
    proof {
        lemma_run_end(s@, i as int, CharClass::NotChar(c));
    }
    j
}

/// A character occurs somewhere in the sequence.
pub open spec fn has_char(s: Seq<char>, c: char) -> bool {
    exists|i: int| 0 <= i < s.len() && s[i] == c
}

/// Check whether a character occurs in the string.
pub fn contains_char(s: &str, c: char) -> (r: bool)
    ensures
        r == has_char(s@, c),
{
    let len = s.unicode_len();
    let r = find_char_from(s, 0, c);
    proof {
        lemma_run_end(s@, 0, CharClass::NotChar(c));
        if r < s@.len() {
            assert(s@[r as int] == c);
        } else {
            assert(forall|i: int| 0 <= i < s@.len() ==> s@[i] != c);
        }
    }
    r < len
}

/// Numeric value of a digit character; 0 for anything else.
pub open spec fn digit_of(c: char) -> nat {
    if c == '1' {
        1
    } else if c == '2' {
        2
    } else if c == '3' {
        3
    } else if c == '4' {
        4
    } else if c == '5' {
        5
    } else if c == '6' {
        6
    } else if c == '7' {
        7
    } else if c == '8' {
        8
    } else if c == '9' {
        9
    } else {
        0
    }
}

/// Value of a run of decimal digits, most significant first.
pub open spec fn digits_val(s: Seq<char>) -> nat
    decreases s.len(),
{
    if s.len() == 0 {
        0
    } else {
        digits_val(s.drop_last()) * 10 + digit_of(s.last())
    }
}

/// Once a digit run exceeds a bound, any extension of it still exceeds it.
proof fn lemma_digits_val_grows(s: Seq<char>, c: char, bound: nat)
    requires
        digits_val(s) > bound,
    ensures
        digits_val(s.push(c)) > bound,
{
    assert(s.push(c).drop_last() =~= s);
    assert(s.push(c).last() == c);
}

/// Evaluate the digit run `s[from..to]` as a `u64`; 0 when the value does
/// not fit, mirroring a failed integer parse.
pub fn digits_to_u64(s: &str, from: usize, to: usize) -> (r: u64)
    requires
        from <= to <= s@.len(),
        forall|j: int| from <= j < to ==> is_digit(s@[j]),
    ensures
        r == if digits_val(s@.subrange(from as int, to as int)) <= u64::MAX {
            digits_val(s@.subrange(from as int, to as int))
        } else {
            0
        },
{
    let mut val: u64 = 0;
    let mut overflow = false;
    let mut j = from;
    while j < to
        invariant
            from <= j <= to <= s@.len(),
            forall|k: int| from <= k < to ==> is_digit(s@[k]),
            !overflow ==> val == digits_val(s@.subrange(from as int, j as int)),
            overflow ==> digits_val(s@.subrange(from as int, j as int)) > u64::MAX,
        decreases to - j,
    {
        let c = s.get_char(j);
        let d: u64 = if c == '1' {
            1
        } else if c == '2' {
            2
        } else if c == '3' {
            3
        } else if c == '4' {
            4
        } else if c == '5' {
            5
        } else if c == '6' {
            6
        } else if c == '7' {
            7
        } else if c == '8' {
            8
        } else if c == '9' {
            9
        } else {
            0
        };
        proof {
            assert(s@.subrange(from as int, j + 1).drop_last() =~= s@.subrange(
                from as int,
                j as int,
            ));
            assert(s@.subrange(from as int, j + 1).last() == s@[j as int]);
            assert(d == digit_of(s@[j as int]));
            if overflow {
                lemma_digits_val_grows(s@.subrange(from as int, j as int), s@[j as int], u64::MAX as nat);
                assert(s@.subrange(from as int, j as int).push(s@[j as int]) =~= s@.subrange(
                    from as int,
                    j + 1,
                ));
            }
        }
        if !overflow {
            if val > (u64::MAX - d) / 10 {
                overflow = true;
            } else {
                val = val * 10 + d;
            }
        }
        proof {
            if overflow && val == digits_val(s@.subrange(from as int, j as int)) {
                // Overflow was detected just now: the extended run exceeds the bound.
                assert(digits_val(s@.subrange(from as int, j + 1)) == val * 10 + d);
            }
        }
        j += 1;
    }
    if overflow {
        0
    } else {
        val
    }
}

/// Lower-case image of one character, for ASCII letters only.
pub open spec fn lower_char(c: char) -> char {
    if 'A' <= c && c <= 'Z' {
        ((c as u8) + 32) as char
    } else {
        c
    }
}

/// Lower-case image of a character sequence, for ASCII letters only.
pub open spec fn lower_seq(s: Seq<char>) -> Seq<char> {
    s.map_values(|c: char| lower_char(c))
}

/// ASCII-case-insensitive string equality.
pub fn eq_ignore_ascii_case(a: &str, b: &str) -> (r: bool)
    ensures
        r == (lower_seq(a@) == lower_seq(b@)),
{
    let alen = a.unicode_len();
    let blen = b.unicode_len();
    if alen != blen {
        assert(lower_seq(a@).len() != lower_seq(b@).len());
        return false;
    }
    let mut i: usize = 0;
    while i < alen
        invariant
            i <= alen,
            alen == a@.len(),
            alen == b@.len(),
            forall|j: int| 0 <= j < i ==> lower_char(a@[j]) == lower_char(b@[j]),
        decreases alen - i,
    {
        let ca = a.get_char(i);
        let cb = b.get_char(i);
        let la: char = if 'A' <= ca && ca <= 'Z' {
            ((ca as u8) + 32) as char
        } else {
            ca
        };
        let lb: char = if 'A' <= cb && cb <= 'Z' {
            ((cb as u8) + 32) as char
        } else {
            cb
        };
        if la != lb {
            assert(lower_seq(a@)[i as int] != lower_seq(b@)[i as int]);
            return false;
        }
        i += 1;
    }
    proof {
        assert(lower_seq(a@) =~= lower_seq(b@));
    }
    true
}

/// Characters stripped by end-trimming: ASCII whitespace.
pub open spec fn is_trim_ws(c: char) -> bool {
    is_blank(c)
}

/// The sequence with trailing whitespace removed.
pub open spec fn rtrim(s: Seq<char>) -> Seq<char>
    decreases s.len(),
{
    if s.len() > 0 && is_trim_ws(s.last()) {
        rtrim(s.drop_last())
    } else {
        s
    }
}

/// The sequence with leading whitespace removed.
pub open spec fn ltrim(s: Seq<char>) -> Seq<char> {
    s.skip(run_end(s, 0, CharClass::Blank))
}

/// The sequence with whitespace removed from both ends.
pub open spec fn trim(s: Seq<char>) -> Seq<char> {
    rtrim(ltrim(s))
}

/// A prefix that ends on a non-blank character is already end-trimmed.
proof fn lemma_rtrim_exact(s: Seq<char>, e: int)
    requires
        0 <= e <= s.len(),
        forall|j: int| e <= j < s.len() ==> is_trim_ws(s[j]),
        e > 0 ==> !is_trim_ws(s[e - 1]),
    ensures
        rtrim(s) == s.take(e),
    decreases s.len(),
{
    if s.len() > e {
        assert(is_trim_ws(s.last()));
        lemma_rtrim_exact(s.drop_last(), e);
        assert(s.drop_last().take(e) =~= s.take(e));
    } else {
        assert(s.take(e) =~= s);
        if s.len() > 0 {
            assert(!is_trim_ws(s.last()));
        }
    }
}

/// Remove trailing whitespace from a string.
pub fn trim_end_str(s: &str) -> (r: String)
    ensures
        r@ == rtrim(s@),
{
    let len = s.unicode_len();
    let mut e = len;
    while e > 0
        invariant
            e <= len,
            len == s@.len(),
            forall|j: int| e <= j < len ==> is_trim_ws(s@[j]),
        decreases e,
    {
        let c = s.get_char(e - 1);
        if c == ' ' || c == '\t' || c == '\r' || c == '\n' || c == '\u{b}' || c == '\u{c}' {
            e -= 1;
        } else {
            proof {
                lemma_rtrim_exact(s@, e as int);
            }
            let r = s.substring_char(0, e).to_owned();
            assert(r@ =~= s@.take(e as int));
            return r;
        }
    }
    proof {
        lemma_rtrim_exact(s@, 0);
    }
    let r = s.substring_char(0, 0).to_owned();
    assert(r@ =~= s@.take(0));
    r
}

/// Remove whitespace from both ends of a string.
pub fn trim_str(s: &str) -> (r: String)
    ensures
        r@ == trim(s@),
{
    let len = s.unicode_len();
    let start = skip_blanks(s, 0);
    let tail = s.substring_char(start, len);
    proof {
        assert(tail@ =~= ltrim(s@));
    }
    trim_end_str(tail)
}

/// The lines of a text, split on the line separator, each line stripped of
/// one trailing carriage return. Equal to the view of the standard
/// line iterator for such texts.
pub open spec fn strip_cr(l: Seq<char>) -> Seq<char> {
    if l.len() > 0 && l.last() == '\r' {
        l.drop_last()
    } else {
        l
    }
}

/// The lines of the suffix of `s` starting at `i`.
pub open spec fn lines_from(s: Seq<char>, i: int) -> Seq<Seq<char>>
    decreases s.len() - i,
    via lines_from_decreases
{
    if i < 0 || i >= s.len() {
        Seq::empty()
    } else {
        let e = find_from(s, i, '\n');
        let rest = if e < s.len() {
            lines_from(s, e + 1)
        } else {
            Seq::empty()
        };
        seq![strip_cr(s.subrange(i, if e <= s.len() { e } else { s.len() as int }))] + rest
    }
}

#[via_fn]
proof fn lines_from_decreases(s: Seq<char>, i: int) {
    if 0 <= i < s.len() {
        lemma_run_end(s, i, CharClass::NotChar('\n'));
    }
}

/// The lines of a whole text.
pub open spec fn lines_spec(s: Seq<char>) -> Seq<Seq<char>> {
    lines_from(s, 0)
}

/// Split a text into lines.
pub fn split_lines(s: &str) -> (r: Vec<String>)
    ensures
        r@.len() == lines_spec(s@).len(),
        forall|i: int| 0 <= i < r@.len() ==> r@[i]@ == lines_spec(s@)[i],
{
    let len = s.unicode_len();
    let mut r: Vec<String> = Vec::new();
    let mut pos: usize = 0;
    while pos < len
        invariant
            pos <= len,
            len == s@.len(),
            lines_spec(s@) =~= r@.map_values(|l: String| l@) + lines_from(s@, pos as int),
        decreases len - pos,
    {
        let e = find_char_from(s, pos, '\n');
        proof {
            lemma_run_end(s@, pos as int, CharClass::NotChar('\n'));
        }
        let line_end = if e > pos && s.get_char(e - 1) == '\r' {
            e - 1
        } else {
            e
        };
        let line = s.substring_char(pos, line_end).to_owned();
        proof {
            assert(line@ =~= strip_cr(s@.subrange(pos as int, e as int))) by {
                if e > pos && s@[e - 1] == '\r' {
                    assert(s@.subrange(pos as int, e as int).last() == s@[e - 1]);
                    assert(s@.subrange(pos as int, e as int).drop_last() =~= s@.subrange(
                        pos as int,
                        e - 1,
                    ));
                } else {
                    if e > pos {
                        assert(s@.subrange(pos as int, e as int).last() == s@[e - 1]);
                    }
                }
            }
        }
        let ghost old_r = r@;
        r.push(line);
        proof {
            assert(r@.map_values(|l: String| l@) =~= old_r.map_values(|l: String| l@).push(
                line@,
            ));
        }
        if e < len {
            pos = e + 1;
        } else {
            pos = len;
            proof {
                assert(lines_from(s@, e as int + 1) =~= Seq::<Seq<char>>::empty());
            }
        }
        proof {
            assert(lines_spec(s@) =~= r@.map_values(|l: String| l@) + lines_from(
                s@,
                pos as int,
            ));
        }
    }
    proof {
        assert(lines_from(s@, pos as int) =~= Seq::<Seq<char>>::empty());
        assert(lines_spec(s@) =~= r@.map_values(|l: String| l@));
    }
    r
}

} // verus!
