//! Identifiers travel as text (GraphQL `ID`) and are stored as `i32`; this
//! module reads them the way `str::parse::<i32>` does.
use vstd::prelude::*;

verus! {

pub open spec fn is_digit(c: char) -> bool {
    '0' <= c && c <= '9'
}

pub open spec fn digit_value(c: char) -> int {
    (c as int) - ('0' as int)
}

pub open spec fn all_digits(s: Seq<char>) -> bool {
    forall|i: int| 0 <= i < s.len() ==> is_digit(#[trigger] s[i])
}

/// The number that a run of decimal digits writes.
pub open spec fn digits_value(s: Seq<char>) -> int
    decreases s.len(),
{
    if s.len() == 0 {
        0
    } else {
        digits_value(s.drop_last()) * 10 + digit_value(s.last())
    }
}

/// The `i32` that `str::parse::<i32>` reads from `s`: an optional `+` or
/// `-`, then at least one decimal digit and nothing else, the value within
/// the range of `i32`.
pub open spec fn parse_i32_spec(s: Seq<char>) -> Option<i32> {
    if s.len() == 0 {
        None
    } else {
        let negative = s[0] == '-';
        let digits = if s[0] == '-' || s[0] == '+' {
            s.drop_first()
        } else {
            s
        };
        let value = if negative {
            -digits_value(digits)
        } else {
            digits_value(digits)
        };
        if digits.len() == 0 || !all_digits(digits) {
            None
        } else if i32::MIN <= value <= i32::MAX {
            Some(value as i32)
        } else {
            None
        }
    }
}

/// Reads an `i32` from text as `str::parse::<i32>` does.
pub fn parse_i32(s: &str) -> (r: Option<i32>)
    ensures
        r == parse_i32_spec(s@),
{
    let n = s.unicode_len();
    if n == 0 {
        return None;
    }
    let first = s.get_char(0);
    let negative = first == '-';
    let start: usize = if first == '-' || first == '+' {
        1
    } else {
        0
    };
    let ghost digits = if first == '-' || first == '+' {
        s@.drop_first()
    } else {
        s@
    };
    assert(digits =~= s@.subrange(start as int, n as int));
    if start == n {
        return None;
    }
    // the magnitude read so far, held at `cap` once it passes every `i32`
    let cap: i64 = 2_147_483_649;
    let mut magnitude: i64 = 0;
    let mut i: usize = start;
    while i < n
        invariant
            n == s@.len(),
            start <= i <= n,
            n > 0,
            first == s@[0],
            negative == (first == '-'),
            start == (if first == '-' || first == '+' { 1usize } else { 0usize }),
            start < n,
            digits == (if first == '-' || first == '+' { s@.drop_first() } else { s@ }),
            digits == s@.subrange(start as int, n as int),
            cap == 2_147_483_649,
            all_digits(s@.subrange(start as int, i as int)),
            0 <= digits_value(s@.subrange(start as int, i as int)),
            magnitude == if digits_value(s@.subrange(start as int, i as int)) < cap {
                digits_value(s@.subrange(start as int, i as int))
            } else {
                cap as int
            },
        decreases n - i,
    {
        let c = s.get_char(i);
        if !('0' <= c && c <= '9') {
            assert(digits[i - start] == c);
            assert(!is_digit(digits[i - start]));
            assert(!all_digits(digits));
            return None;
        }
        let d: i64 = (c as u32 - '0' as u32) as i64;
        let ghost prefix = s@.subrange(start as int, i as int);
        let ghost next = s@.subrange(start as int, i + 1);
        assert(next.drop_last() =~= prefix);
        assert(next.last() == c);
        assert(digits_value(next) == digits_value(prefix) * 10 + d);
        magnitude = if magnitude >= cap {
            cap
        } else {
            let m = magnitude * 10 + d;
            if m >= cap {
                cap
            } else {
                m
            }
        };
        assert(all_digits(next)) by {
            assert forall|j: int| 0 <= j < next.len() implies is_digit(#[trigger] next[j]) by {
                if j < prefix.len() {
                    assert(next[j] == prefix[j]);
                }
            }
        }
        i = i + 1;
    }
    assert(s@.subrange(start as int, n as int) == s@.subrange(start as int, i as int));
    if negative {
        if magnitude > 2_147_483_648 {
            None
        } else {
            Some((0 - magnitude) as i32)
        }
    } else {
        if magnitude > 2_147_483_647 {
            None
        } else {
            Some(magnitude as i32)
        }
    }
}

/// The decimal digit for `d` (0 to 9).
pub open spec fn digit_char(d: int) -> char {
    (d + ('0' as int)) as char
}

/// The decimal digits of a natural number, most significant first, with no
/// leading zero.
pub open spec fn digits_text(m: nat) -> Seq<char>
    decreases m,
{
    if m < 10 {
        seq![digit_char(m as int)]
    } else {
        digits_text(m / 10) + seq![digit_char((m % 10) as int)]
    }
}

/// The decimal text of an integer, as `i32::to_string` writes it.
pub open spec fn decimal_text(n: int) -> Seq<char> {
    if n < 0 {
        seq!['-'] + digits_text((-n) as nat)
    } else {
        digits_text(n as nat)
    }
}

proof fn lemma_digits_text(m: nat)
    ensures
        all_digits(digits_text(m)),
        digits_value(digits_text(m)) == m,
        digits_text(m).len() > 0,
    decreases m,
{
    if m < 10 {
        let t = digits_text(m);
        assert(t.drop_last() =~= Seq::<char>::empty());
        assert(digit_value(digit_char(m as int)) == m as int);
        assert(digits_value(t.drop_last()) == 0);
        assert(digits_value(t) == digits_value(t.drop_last()) * 10 + digit_value(t.last()));
    } else {
        lemma_digits_text(m / 10);
        let t = digits_text(m);
        let front = digits_text(m / 10);
        assert(t.drop_last() =~= front);
        assert(t.last() == digit_char((m % 10) as int));
        assert(digit_value(digit_char((m % 10) as int)) == (m % 10) as int);
        assert(digits_value(t) == digits_value(front) * 10 + (m % 10) as int);
        assert((m / 10) * 10 + m % 10 == m);
        assert forall|i: int| 0 <= i < t.len() implies is_digit(#[trigger] t[i]) by {
            if i < front.len() {
                assert(t[i] == front[i]);
            }
        }
    }
}

/// Law: reading the decimal text of an `i32` gives the number back.
pub proof fn decimal_text_round_trip(n: i32)
    ensures
        parse_i32_spec(decimal_text(n as int)) == Some(n),
{
    let t = decimal_text(n as int);
    if n < 0 {
        lemma_digits_text((-n) as nat);
        assert(t.drop_first() =~= digits_text((-n) as nat));
    } else {
        lemma_digits_text(n as nat);
        let d = digits_text(n as nat);
        assert(is_digit(d[0]));
    }
}

fn digit_str(d: u32) -> (r: &'static str)
    requires
        d < 10,
    ensures
        r@ == seq![digit_char(d as int)],
{
    proof {
        reveal_strlit("0");
        reveal_strlit("1");
        reveal_strlit("2");
        reveal_strlit("3");
        reveal_strlit("4");
        reveal_strlit("5");
        reveal_strlit("6");
        reveal_strlit("7");
        reveal_strlit("8");
        reveal_strlit("9");
    }
    let r = if d == 0 {
        "0"
    } else if d == 1 {
        "1"
    } else if d == 2 {
        "2"
    } else if d == 3 {
        "3"
    } else if d == 4 {
        "4"
    } else if d == 5 {
        "5"
    } else if d == 6 {
        "6"
    } else if d == 7 {
        "7"
    } else if d == 8 {
        "8"
    } else {
        "9"
    };
    assert(r@ =~= seq![digit_char(d as int)]);
    r
}

fn append_digits(out: &mut String, m: u32)
    ensures
        final(out)@ == old(out)@ + digits_text(m as nat),
    decreases m,
{
    if m >= 10 {
        append_digits(out, m / 10);
    }
    out.append(digit_str(m % 10));
    proof {
        if m >= 10 {
            assert(old(out)@ + digits_text((m / 10) as nat) + seq![digit_char((m % 10) as int)] =~= old(out)@ + digits_text(m as nat));
        } else {
            assert(digits_text(m as nat) == seq![digit_char((m % 10) as int)]);
        }
    }
}

/// The decimal text of an `i32`, as `i32::to_string` writes it (the text a
/// GraphQL `ID` made from the number holds).
pub fn i32_to_text(n: i32) -> (r: String)
    ensures
        r@ == decimal_text(n as int),
{
    let mut out = String::new();
    if n < 0 {
        out.append("-");
        proof {
            reveal_strlit("-");
        }
        let magnitude: u32 = if n == i32::MIN {
            2_147_483_648
        } else {
            (0 - n) as u32
        };
        append_digits(&mut out, magnitude);
        assert(out@ =~= seq!['-'] + digits_text((-n) as nat));
    } else {
        append_digits(&mut out, n as u32);
        assert(out@ =~= digits_text(n as nat));
    }
    out
}

/// Reads an id that is known to be an `i32` in decimal (reading any other
/// text stops the services).
pub fn parse_id(id: &str) -> (r: i32)
    requires
        parse_i32_spec(id@) is Some,
    ensures
        Some(r) == parse_i32_spec(id@),
{
    match parse_i32(id) {
        Some(n) => n,
        None => 0,
    }
}

} // verus!
