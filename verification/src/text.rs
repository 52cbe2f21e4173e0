//! Text helpers: whitespace, trimming and decimal rendering.

use vstd::prelude::*;
use vstd::string::*;

verus! {

/// The code points that count as white space when a line is trimmed.
pub open spec fn spec_is_space(c: char) -> bool {
    let n = c as u32;
    (0x09 <= n <= 0x0D) || n == 0x20 || n == 0x85 || n == 0xA0 || n == 0x1680
        || (0x2000 <= n <= 0x200A) || n == 0x2028 || n == 0x2029 || n == 0x202F
        || n == 0x205F || n == 0x3000
}

/// `s` without its leading white space.
pub open spec fn skip_leading(s: Seq<char>) -> Seq<char>
    decreases s.len(),
{
    if s.len() > 0 && spec_is_space(s.first()) {
        skip_leading(s.drop_first())
    } else {
        s
    }
}

/// `s` without its trailing white space.
pub open spec fn skip_trailing(s: Seq<char>) -> Seq<char>
    decreases s.len(),
{
    if s.len() > 0 && spec_is_space(s.last()) {
        skip_trailing(s.drop_last())
    } else {
        s
    }
}

/// `s` without white space at either end.
pub open spec fn trimmed(s: Seq<char>) -> Seq<char> {
    skip_trailing(skip_leading(s))
}

/// Whether `c` is white space.
pub fn is_space(c: char) -> (r: bool)
    ensures
        r == spec_is_space(c),
{
    let n: u32 = c as u32;
    (0x09 <= n && n <= 0x0D) || n == 0x20 || n == 0x85 || n == 0xA0 || n == 0x1680
        || (0x2000 <= n && n <= 0x200A) || n == 0x2028 || n == 0x2029 || n == 0x202F
        || n == 0x205F || n == 0x3000
}

/// The line without white space at either end.
pub fn trim<'a>(line: &'a str) -> (r: &'a str)
    ensures
        r@ == trimmed(line@),
{
    let n: usize = line.unicode_len();
    let mut a: usize = 0;
    assert(line@.subrange(0, n as int) =~= line@);
    while a < n && is_space(line.get_char(a))
        invariant
            a <= n,
            n == line@.len(),
            skip_leading(line@) == skip_leading(line@.subrange(a as int, n as int)),
        decreases n - a,
    {
        proof {
            let cur = line@.subrange(a as int, n as int);
            assert(cur.first() == line@[a as int]);
            assert(cur.drop_first() =~= line@.subrange(a + 1, n as int));
        }
        a = a + 1;
    }
    proof {
        let cur = line@.subrange(a as int, n as int);
        if a < n {
            assert(cur.first() == line@[a as int]);
        }
        assert(skip_leading(line@) == cur);
    }
    let mut b: usize = n;
    while b > a && is_space(line.get_char(b - 1))
        invariant
            a <= b <= n,
            n == line@.len(),
            trimmed(line@) == skip_trailing(line@.subrange(a as int, b as int)),
        decreases b - a,
    {
        proof {
            let cur = line@.subrange(a as int, b as int);
            assert(cur.last() == line@[b - 1]);
            assert(cur.drop_last() =~= line@.subrange(a as int, b - 1));
        }
        b = b - 1;
    }
    proof {
        let cur = line@.subrange(a as int, b as int);
        if b > a {
            assert(cur.last() == line@[b - 1]);
        }
        assert(trimmed(line@) == cur);
    }
    line.substring_char(a, b)
}

/// The character that writes the digit `d`.
pub open spec fn digit_char(d: int) -> char {
    if d == 0 {
        '0'
    } else if d == 1 {
        '1'
    } else if d == 2 {
        '2'
    } else if d == 3 {
        '3'
    } else if d == 4 {
        '4'
    } else if d == 5 {
        '5'
    } else if d == 6 {
        '6'
    } else if d == 7 {
        '7'
    } else if d == 8 {
        '8'
    } else {
        '9'
    }
}

/// `n` written in base ten, without sign or leading zeros.
pub open spec fn decimal(n: nat) -> Seq<char>
    decreases n,
{
    if n < 10 {
        seq![digit_char(n as int)]
    } else {
        decimal(n / 10).push(digit_char((n % 10) as int))
    }
}

fn digit_str(d: u64) -> (r: &'static str)
    requires
        d < 10,
    ensures
        r@ == seq![digit_char(d as int)],
{
    proof {
        reveal_strlit("0");
        reveal_strlit("1");
        reveal_strlit("2");
        reveal_strlit("3");
        reveal_strlit("4");
        reveal_strlit("5");
        reveal_strlit("6");
        reveal_strlit("7");
        reveal_strlit("8");
        reveal_strlit("9");
    }
    let r: &'static str = match d {
        0 => "0",
        1 => "1",
        2 => "2",
        3 => "3",
        4 => "4",
        5 => "5",
        6 => "6",
        7 => "7",
        8 => "8",
        _ => "9",
    };
    assert(r@ =~= seq![digit_char(d as int)]);
    r
}

/// `n` in base ten.
pub fn decimal_string(n: u64) -> (r: String)
    ensures
        r@ == decimal(n as nat),
    decreases n,
{
    if n < 10 {
        String::from_str(digit_str(n))
    } else {
        let mut r: String = decimal_string(n / 10);
        r.append(digit_str(n % 10));
        assert(r@ =~= decimal((n / 10) as nat).push(digit_char((n % 10) as int)));
        r
    }
}

/// What the standard debug formatting writes for an optional string.
pub uninterp spec fn option_debug(value: Option<Seq<char>>) -> Seq<char>;

/// The view of an optional string.
pub open spec fn option_text(value: &Option<String>) -> Option<Seq<char>> {
    match value {
        Some(s) => Some(s@),
        None => None,
    }
}

/// Calls the standard library's `Debug` formatting of `Option<String>`
/// (`format!("{:?}", ..)`). The contract only gives the result its name: the
/// same optional text always formats to the same characters. Nothing is
/// claimed about the escaping that the formatting applies.
#[verifier::external_body]
pub(crate) fn debug_text(value: &Option<String>) -> (r: String)
    ensures
        r@ == option_debug(option_text(value)),
{
    format!("{:?}", value)
}

/// Whether two strings hold the same characters.
pub fn same_text(a: &str, b: &str) -> (r: bool)
    ensures
        r == (a@ == b@),
{
    let x: String = String::from_str(a);
    let y: String = String::from_str(b);
    x == y
}

} // verus!
