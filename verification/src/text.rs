//! Decimal text of integers, as it appears in the paths of outbound requests.

use vstd::prelude::*;
use vstd::string::*;

verus! {

/// The character of one decimal digit.
pub open spec fn digit_char(d: nat) -> char
    recommends
        d < 10,
{
    if d == 0 {
        '0'
    } else if d == 1 {
        '1'
    } else if d == 2 {
        '2'
    } else if d == 3 {
        '3'
    } else if d == 4 {
        '4'
    } else if d == 5 {
        '5'
    } else if d == 6 {
        '6'
    } else if d == 7 {
        '7'
    } else if d == 8 {
        '8'
    } else {
        '9'
    }
}

/// The decimal digits of a natural number, most significant first, without
/// leading zeros (zero itself is the single digit `0`).
pub open spec fn decimal_digits(n: nat) -> Seq<char>
    decreases n,
{
    if n < 10 {
        seq![digit_char(n)]
    } else {
        decimal_digits(n / 10).push(digit_char(n % 10))
    }
}

/// The decimal text of an integer: a minus sign in front of the digits of a
/// negative number, the bare digits otherwise.
pub open spec fn decimal_text(i: int) -> Seq<char> {
    if i < 0 {
        seq!['-'] + decimal_digits((-i) as nat)
    } else {
        decimal_digits(i as nat)
    }
}

/// The one-character text of a decimal digit.
pub fn digit_str(d: u64) -> (r: &'static str)
    requires
        d < 10,
    ensures
        r@ == seq![digit_char(d as nat)],
{
    proof {
        reveal_strlit("0");
        reveal_strlit("1");
        reveal_strlit("2");
        reveal_strlit("3");
        reveal_strlit("4");
        reveal_strlit("5");
        reveal_strlit("6");
        reveal_strlit("7");
        reveal_strlit("8");
        reveal_strlit("9");
    }
    let r = if d == 0 {
        "0"
    } else if d == 1 {
        "1"
    } else if d == 2 {
        "2"
    } else if d == 3 {
        "3"
    } else if d == 4 {
        "4"
    } else if d == 5 {
        "5"
    } else if d == 6 {
        "6"
    } else if d == 7 {
        "7"
    } else if d == 8 {
        "8"
    } else {
        "9"
    };
    assert(r@ =~= seq![digit_char(d as nat)]);
    r
}

/// Appends the decimal digits of `n` to `prefix`.
pub fn push_decimal(prefix: String, n: u64) -> (r: String)
    ensures
        r@ == prefix@ + decimal_digits(n as nat),
    decreases n,
{
    if n < 10 {
        let r = prefix.concat(digit_str(n));
        assert(r@ =~= prefix@ + decimal_digits(n as nat));
        r
    } else {
        let head = push_decimal(prefix, n / 10);
        let r = head.concat(digit_str(n % 10));
        assert(r@ =~= prefix@ + decimal_digits(n as nat));
        r
    }
}

/// Appends the decimal text of an identifier to `prefix`.
pub fn push_id(prefix: String, id: i32) -> (r: String)
    ensures
        r@ == prefix@ + decimal_text(id as int),
{
    if id < 0 {
        let magnitude: u64 = (-(id as i64)) as u64;
        let signed = prefix.concat("-");
        proof {
            reveal_strlit("-");
        }
        let r = push_decimal(signed, magnitude);
        assert(r@ =~= prefix@ + decimal_text(id as int));
        r
    } else {
        push_decimal(prefix, id as u64)
    }
}

/// Whether a character stands for itself inside a JSON string: any but the
/// quote, the backslash and the control characters below the space.
pub open spec fn is_plain_char(c: char) -> bool {
    c != '"' && c != '\\' && ' ' <= c
}

/// Whether a text stands for itself inside a JSON string.
pub open spec fn is_plain(s: Seq<char>) -> bool {
    forall|i: int| 0 <= i < s.len() ==> is_plain_char(#[trigger] s[i])
}

/// A text between two quotes: the JSON string of a plain text.
pub open spec fn quoted(s: Seq<char>) -> Seq<char> {
    seq!['"'] + s + seq!['"']
}

/// Whether a text stands for itself inside a JSON string.
pub fn is_plain_text(s: &str) -> (r: bool)
    ensures
        r == is_plain(s@),
{
    let n = s.unicode_len();
    let mut i: usize = 0;
    while i < n
        invariant
            i <= n,
            n == s@.len(),
            forall|j: int| 0 <= j < i ==> is_plain_char(#[trigger] s@[j]),
        decreases n - i,
    {
        let c = s.get_char(i);
        if c == '"' || c == '\\' || ' ' > c {
            return false;
        }
        i += 1;
    }
    true
}

/// Appends a text between two quotes to `prefix`.
pub fn push_quoted(prefix: String, s: &str) -> (r: String)
    ensures
        r@ == prefix@ + quoted(s@),
{
    proof {
        reveal_strlit("\"");
    }
    let r = prefix.concat("\"").concat(s).concat("\"");
    assert(r@ =~= prefix@ + quoted(s@));
    r
}

} // verus!
