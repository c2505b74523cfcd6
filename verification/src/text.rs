//! Small text utilities shared by the rest of the library: character-level
//! string comparison, substring search, decimal formatting and truncation.

use vstd::prelude::*;

verus! {

/// Character-by-character string equality, proved against the string views.
pub fn str_eq(a: &str, b: &str) -> (r: bool)
    ensures
        r == (a@ == b@),
{
    let alen = a.unicode_len();
    let blen = b.unicode_len();
    if alen != blen {
        assert(a@ != b@) by {
            assert(a@.len() != b@.len());
        }
        return false;
    }
    let mut i: usize = 0;
    while i < alen
        invariant
            i <= alen,
            alen == a@.len(),
            alen == b@.len(),
            forall|j: int| 0 <= j < i ==> a@[j] == b@[j],
        decreases alen - i,
    {
        if a.get_char(i) != b.get_char(i) {
            return false;
        }
        i += 1;
    }
    proof {
        assert(a@ =~= b@);
    }
    true
}

/// The needle `n` occurs in `h` starting at position `i`.
pub open spec fn is_sub_at(h: Seq<char>, n: Seq<char>, i: int) -> bool {
    &&& 0 <= i
    &&& i + n.len() <= h.len()
    &&& h.subrange(i, i + n.len() as int) == n
}

/// The needle `n` occurs somewhere in `h`.
pub open spec fn contains_sub(h: Seq<char>, n: Seq<char>) -> bool {
    exists|i: int| is_sub_at(h, n, i)
}

/// Substring search, proved against `contains_sub`.
pub fn str_contains(h: &str, n: &str) -> (r: bool)
    ensures
        r == contains_sub(h@, n@),
{
    let hlen = h.unicode_len();
    let nlen = n.unicode_len();
    if nlen > hlen {
        assert(!contains_sub(h@, n@)) by {
            assert(forall|i: int| !is_sub_at(h@, n@, i));
        }
        return false;
    }
    if nlen == 0 {
        proof {
            assert(h@.subrange(0, 0) =~= n@);
            assert(is_sub_at(h@, n@, 0));
        }
        return true;
    }
    let mut i: usize = 0;
    while i <= hlen - nlen
        invariant
            1 <= nlen <= hlen,
            hlen == h@.len(),
            nlen == n@.len(),
            i <= hlen - nlen + 1,
            forall|k: int| 0 <= k < i ==> !is_sub_at(h@, n@, k),
        decreases hlen + 1 - nlen - i,
    {
        let mut j: usize = 0;
        let mut mismatch = false;
        while j < nlen
            invariant
                i + nlen <= hlen,
                hlen == h@.len(),
                nlen == n@.len(),
                j <= nlen,
                !mismatch ==> forall|l: int| 0 <= l < j ==> h@[i + l] == n@[l],
                mismatch ==> !is_sub_at(h@, n@, i as int),
            decreases nlen - j,
        {
            if h.get_char(i + j) != n.get_char(j) {
                proof {
                    if is_sub_at(h@, n@, i as int) {
                        assert(h@.subrange(i as int, i + n@.len() as int)[j as int]
                            == n@[j as int]);
                    }
                }
                mismatch = true;
                j = nlen;
            } else {
                j += 1;
            }
        }
        if !mismatch {
            proof {
                assert(h@.subrange(i as int, i + n@.len() as int) =~= n@);
                assert(is_sub_at(h@, n@, i as int));
            }
            return true;
        }
        i += 1;
    }
    proof {
        assert(forall|k: int| !is_sub_at(h@, n@, k) ==> true);
        assert(!contains_sub(h@, n@)) by {
            assert forall|k: int| !is_sub_at(h@, n@, k) by {
                if 0 <= k < i {
                } else {
                    assert(k < 0 || k + n@.len() > h@.len());
                }
            }
        }
    }
    false
}

/// Spec-level character for a single decimal digit.
pub open spec fn digit_char(d: int) -> char {
    if d == 0 {
        '0'
    } else if d == 1 {
        '1'
    } else if d == 2 {
        '2'
    } else if d == 3 {
        '3'
    } else if d == 4 {
        '4'
    } else if d == 5 {
        '5'
    } else if d == 6 {
        '6'
    } else if d == 7 {
        '7'
    } else if d == 8 {
        '8'
    } else {
        '9'
    }
}

/// Decimal representation of a natural number, most significant digit first.
pub open spec fn dec_rep(n: nat) -> Seq<char>
    decreases n,
{
    if n < 10 {
        seq![digit_char(n as int)]
    } else {
        dec_rep(n / 10).push(digit_char((n % 10) as int))
    }
}

fn digit_str(d: u64) -> (r: &'static str)
    requires
        d < 10,
    ensures
        r@ =~= seq![digit_char(d as int)],
{
    proof {
        reveal_strlit("0");
        reveal_strlit("1");
        reveal_strlit("2");
        reveal_strlit("3");
        reveal_strlit("4");
        reveal_strlit("5");
        reveal_strlit("6");
        reveal_strlit("7");
        reveal_strlit("8");
        reveal_strlit("9");
    }
    if d == 0 {
        "0"
    } else if d == 1 {
        "1"
    } else if d == 2 {
        "2"
    } else if d == 3 {
        "3"
    } else if d == 4 {
        "4"
    } else if d == 5 {
        "5"
    } else if d == 6 {
        "6"
    } else if d == 7 {
        "7"
    } else if d == 8 {
        "8"
    } else {
        "9"
    }
}

/// Render an unsigned number in decimal.
pub fn u64_to_string(n: u64) -> (r: String)
    ensures
        r@ == dec_rep(n as nat),
    decreases n,
{
    if n < 10 {
        let s = digit_str(n);
        let r = s.to_owned();
        assert(r@ =~= dec_rep(n as nat));
        r
    } else {
        let mut r = u64_to_string(n / 10);
        r.append(digit_str(n % 10));
        assert(r@ =~= dec_rep(n as nat));
        r
    }
}

/// Decimal representation of a signed number.
pub open spec fn dec_rep_signed(n: int) -> Seq<char> {
    if n >= 0 {
        dec_rep(n as nat)
    } else {
        seq!['-'] + dec_rep((-n) as nat)
    }
}

/// Render a signed number in decimal.
pub fn i64_to_string(n: i64) -> (r: String)
    ensures
        r@ == dec_rep_signed(n as int),
{
    if n >= 0 {
        u64_to_string(n as u64)
    } else {
        // Avoid overflow on the smallest value: negate via n + 1.
        let m: u64 = ((-(n + 1)) as u64) + 1;
        assert(m == -(n as int));
        let mut r = String::new();
        proof {
            reveal_strlit("-");
        }
        r.append("-");
        assert(r@ =~= seq!['-']);
        let digits = u64_to_string(m);
        r.append(digits.as_str());
        r
    }
}

/// Truncation to at most `max_len` characters, with a `...` marker when the
/// text was cut.
pub open spec fn truncate_spec(s: Seq<char>, max_len: nat) -> Seq<char> {
    if s.len() <= max_len {
        s
    } else {
        s.subrange(0, (if max_len >= 3 {
            max_len - 3
        } else {
            0
        }) as int) + seq!['.', '.', '.']
    }
}

/// Truncate a string for display in a fixed-width column.
pub fn truncate_str(s: &str, max_len: usize) -> (r: String)
    ensures
        r@ == truncate_spec(s@, max_len as nat),
{
    let len = s.unicode_len();
    if len <= max_len {
        s.to_owned()
    } else {
        let keep = if max_len >= 3 {
            max_len - 3
        } else {
            0
        };
        let mut r = s.substring_char(0, keep).to_owned();
        proof {
            reveal_strlit("...");
        }
        r.append("...");
        assert(r@ =~= truncate_spec(s@, max_len as nat));
        r
    }
}

/// Session-count label: `N` when everything is local, `N local, M remote`
/// otherwise.
pub open spec fn session_count_spec(local: nat, remote: nat) -> Seq<char> {
    if remote > 0 {
        dec_rep(local) + " local, "@ + dec_rep(remote) + " remote"@
    } else {
        dec_rep(local)
    }
}

/// Format the session-count label shown in the header.
pub fn format_session_count(local: usize, remote: usize) -> (r: String)
    ensures
        r@ == session_count_spec(local as nat, remote as nat),
{
    if remote > 0 {
        let mut r = u64_to_string(local as u64);
        r.append(" local, ");
        let rem = u64_to_string(remote as u64);
        r.append(rem.as_str());
        r.append(" remote");
        assert(r@ =~= session_count_spec(local as nat, remote as nat));
        r
    } else {
        u64_to_string(local as u64)
    }
}

/// Window-count label, always of the form `N win`.
pub open spec fn window_count_spec(count: nat) -> Seq<char> {
    dec_rep(count) + " win"@
}

/// Format the window-count label shown next to a session.
pub fn format_window_count(count: usize) -> (r: String)
    ensures
        r@ == window_count_spec(count as nat),
{
    let mut r = u64_to_string(count as u64);
    r.append(" win");
    assert(r@ =~= window_count_spec(count as nat));
    r
}

/// Format an already-rendered age string; the hook point for future
/// locale-aware formatting.
pub fn format_time_ago(age: &str) -> (r: String)
    ensures
        r@ == age@,
{
    age.to_owned()
}

} // verus!
