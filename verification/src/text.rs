//! Small verified operations on text: equality, building messages, and the
//! ASCII trimming and prefix tests that the authorization check relies on.
use vstd::prelude::*;

verus! {

/// The characters that `char::is_whitespace` accepts within ASCII.
pub open spec fn is_ascii_whitespace(c: char) -> bool {
    c == ' ' || c == '\t' || c == '\n' || c == '\x0B' || c == '\x0C' || c == '\r'
}

/// Every character is ASCII.
pub open spec fn all_ascii(s: Seq<char>) -> bool {
    vstd::utf8::is_ascii_chars(s)
}

/// What `str::trim` leaves of an ASCII string.
pub open spec fn trim_spec(s: Seq<char>) -> Seq<char>
    decreases s.len(),
{
    if s.len() == 0 {
        s
    } else if is_ascii_whitespace(s[0]) {
        trim_spec(s.drop_first())
    } else if is_ascii_whitespace(s.last()) {
        trim_spec(s.drop_last())
    } else {
        s
    }
}

/// What `str::trim_end` leaves of an ASCII string.
pub open spec fn trim_end_spec(s: Seq<char>) -> Seq<char>
    decreases s.len(),
{
    if s.len() == 0 {
        s
    } else if is_ascii_whitespace(s.last()) {
        trim_end_spec(s.drop_last())
    } else {
        s
    }
}

/// The ASCII upper-case form of a character (other characters are kept).
pub open spec fn ascii_upper(c: char) -> char {
    if 'a' <= c && c <= 'z' {
        ((c as u32) - 32) as char
    } else {
        c
    }
}

/// `s` starts with `prefix` once `s` is upper-cased (ASCII).
pub open spec fn starts_with_upper(s: Seq<char>, prefix: Seq<char>) -> bool {
    prefix.len() <= s.len() && forall|i: int|
        0 <= i < prefix.len() ==> ascii_upper(#[trigger] s[i]) == prefix[i]
}

/// Compares two strings character by character.
pub fn str_eq(a: &str, b: &str) -> (r: bool)
    ensures
        r == (a@ == b@),
{
    let n = a.unicode_len();
    let m = b.unicode_len();
    if n != m {
        return false;
    }
    let mut i: usize = 0;
    while i < n
        invariant
            n == a@.len(),
            m == b@.len(),
            n == m,
            i <= n,
            forall|j: int| 0 <= j < i ==> a@[j] == b@[j],
        decreases n - i,
    {
        if a.get_char(i) != b.get_char(i) {
            return false;
        }
        i = i + 1;
    }
    assert(a@ =~= b@);
    true
}

/// A new string holding `a` followed by `b`.
pub fn concat2(a: &str, b: &str) -> (r: String)
    ensures
        r@ == a@ + b@,
{
    let mut s = String::from_str(a);
    s.append(b);
    s
}

/// A new string holding `a`, `b` and `c` one after the other.
pub fn concat3(a: &str, b: &str, c: &str) -> (r: String)
    ensures
        r@ == a@ + b@ + c@,
{
    let mut s = String::from_str(a);
    s.append(b);
    s.append(c);
    s
}

proof fn lemma_trim_step_front(s: Seq<char>, i: int, j: int)
    requires
        0 <= i < j <= s.len(),
        is_ascii_whitespace(s[i]),
    ensures
        trim_spec(s.subrange(i, j)) == trim_spec(s.subrange(i + 1, j)),
{
    assert(s.subrange(i, j).drop_first() =~= s.subrange(i + 1, j));
}

proof fn lemma_trim_step_back(s: Seq<char>, i: int, j: int)
    requires
        0 <= i < j <= s.len(),
        !is_ascii_whitespace(s[i]),
        is_ascii_whitespace(s[j - 1]),
    ensures
        trim_spec(s.subrange(i, j)) == trim_spec(s.subrange(i, j - 1)),
{
    assert(s.subrange(i, j).drop_last() =~= s.subrange(i, j - 1));
}

proof fn lemma_trim_end_step(s: Seq<char>, i: int, j: int)
    requires
        0 <= i < j <= s.len(),
        is_ascii_whitespace(s[j - 1]),
    ensures
        trim_end_spec(s.subrange(i, j)) == trim_end_spec(s.subrange(i, j - 1)),
{
    assert(s.subrange(i, j).drop_last() =~= s.subrange(i, j - 1));
}

/// The bounds `(start, end)` of what `str::trim` keeps of an ASCII string.
pub fn trim_bounds(s: &str) -> (r: (usize, usize))
    requires
        all_ascii(s@),
    ensures
        r.0 <= r.1 <= s@.len(),
        s@.subrange(r.0 as int, r.1 as int) == trim_spec(s@),
{
    let n = s.unicode_len();
    let mut i: usize = 0;
    assert(s@.subrange(0, n as int) =~= s@);
    while i < n && is_ascii_whitespace_exec(s.get_char(i))
        invariant
            n == s@.len(),
            i <= n,
            trim_spec(s@.subrange(i as int, n as int)) == trim_spec(s@),
        decreases n - i,
    {
        proof {
            lemma_trim_step_front(s@, i as int, n as int);
        }
        i = i + 1;
    }
    if i == n {
        assert(s@.subrange(i as int, n as int).len() == 0);
        return (i, i);
    }
    let mut j: usize = n;
    while j > i + 1 && is_ascii_whitespace_exec(s.get_char(j - 1))
        invariant
            n == s@.len(),
            i < j <= n,
            !is_ascii_whitespace(s@[i as int]),
            trim_spec(s@.subrange(i as int, j as int)) == trim_spec(s@),
        decreases j,
    {
        proof {
            lemma_trim_step_back(s@, i as int, j as int);
        }
        j = j - 1;
    }
    proof {
        let t = s@.subrange(i as int, j as int);
        assert(t[0] == s@[i as int]);
        assert(t.last() == s@[j - 1]);
    }
    (i, j)
}

/// The end of what `str::trim_end` keeps of an ASCII string.
pub fn trim_end_bound(s: &str) -> (r: usize)
    requires
        all_ascii(s@),
    ensures
        r <= s@.len(),
        s@.subrange(0, r as int) == trim_end_spec(s@),
{
    let n = s.unicode_len();
    let mut j: usize = n;
    assert(s@.subrange(0, n as int) =~= s@);
    while j > 0 && is_ascii_whitespace_exec(s.get_char(j - 1))
        invariant
            n == s@.len(),
            j <= n,
            trim_end_spec(s@.subrange(0, j as int)) == trim_end_spec(s@),
        decreases j,
    {
        proof {
            lemma_trim_end_step(s@, 0, j as int);
        }
        j = j - 1;
    }
    proof {
        let t = s@.subrange(0, j as int);
        if j > 0 {
            assert(t.last() == s@[j - 1]);
        }
    }
    j
}

/// Whether a character is ASCII whitespace in the sense of `char::is_whitespace`.
pub fn is_ascii_whitespace_exec(c: char) -> (r: bool)
    ensures
        r == is_ascii_whitespace(c),
{
    c == ' ' || c == '\t' || c == '\n' || c == '\x0B' || c == '\x0C' || c == '\r'
}

/// Whether `s`, upper-cased, starts with `prefix`.
pub fn starts_with_upper_exec(s: &str, prefix: &str) -> (r: bool)
    ensures
        r == starts_with_upper(s@, prefix@),
{
    let n = s.unicode_len();
    let m = prefix.unicode_len();
    if m > n {
        return false;
    }
    let mut i: usize = 0;
    while i < m
        invariant
            n == s@.len(),
            m == prefix@.len(),
            m <= n,
            i <= m,
            forall|k: int| 0 <= k < i ==> ascii_upper(#[trigger] s@[k]) == prefix@[k],
        decreases m - i,
    {
        let c = s.get_char(i);
        let u = if 'a' <= c && c <= 'z' {
            char_minus_32(c)
        } else {
            c
        };
        if u != prefix.get_char(i) {
            return false;
        }
        i = i + 1;
    }
    true
}

fn char_minus_32(c: char) -> (r: char)
    requires
        'a' <= c && c <= 'z',
    ensures
        r == ascii_upper(c),
{
    let code: u32 = c as u32;
    let up: u8 = (code - 32) as u8;
    let r = up as char;
    assert(r == ((c as u32) - 32) as char);
    r
}

} // verus!
