//! Decimal rendering of the integer field kinds.
//!
//! Every integer kind is rendered in canonical base ten: a minus sign for
//! negative values, no grouping separators, and no leading zeros except for
//! the value zero itself.

use crate::strutil::push_char;
use vstd::prelude::*;

verus! {

/// The decimal digit character for a value below ten.
pub open spec fn dec_digit(d: int) -> char {
    if d == 0 {
        '0'
    } else if d == 1 {
        '1'
    } else if d == 2 {
        '2'
    } else if d == 3 {
        '3'
    } else if d == 4 {
        '4'
    } else if d == 5 {
        '5'
    } else if d == 6 {
        '6'
    } else if d == 7 {
        '7'
    } else if d == 8 {
        '8'
    } else {
        '9'
    }
}

/// The decimal digits of a non-negative integer, most significant first;
/// empty for zero.
pub open spec fn dec_rec(n: int) -> Seq<char>
    decreases n,
{
    if n <= 0 {
        Seq::<char>::empty()
    } else {
        dec_rec(n / 10) + seq![dec_digit(n % 10)]
    }
}

/// The decimal text of a non-negative integer: its digits, or a single zero.
pub open spec fn dec_str(n: int) -> Seq<char> {
    if n == 0 {
        seq!['0']
    } else {
        dec_rec(n)
    }
}

/// The decimal text of an integer: a minus sign for negative values followed
/// by the digits of the magnitude.
pub open spec fn int_str(n: int) -> Seq<char> {
    if n < 0 {
        seq!['-'] + dec_str(-n)
    } else {
        dec_str(n)
    }
}

/// The value of a decimal digit character, or a negative value for any other
/// character.
pub open spec fn dec_val(c: char) -> int {
    if c == '0' {
        0
    } else if c == '1' {
        1
    } else if c == '2' {
        2
    } else if c == '3' {
        3
    } else if c == '4' {
        4
    } else if c == '5' {
        5
    } else if c == '6' {
        6
    } else if c == '7' {
        7
    } else if c == '8' {
        8
    } else if c == '9' {
        9
    } else {
        -1
    }
}

/// Whether every character of the text is a decimal digit.
pub open spec fn all_digits(s: Seq<char>) -> bool {
    forall|i: int| 0 <= i < s.len() ==> dec_val(#[trigger] s[i]) >= 0
}

/// The value of a digit string read in base ten.
pub open spec fn digits_val(s: Seq<char>) -> int
    decreases s.len(),
{
    if s.len() == 0 {
        0
    } else {
        digits_val(s.drop_last()) * 10 + dec_val(s.last())
    }
}

/// A conforming base-ten parser: an optional minus sign followed by at least
/// one decimal digit, and nothing else.
pub open spec fn parse_dec(s: Seq<char>) -> Option<int> {
    if s.len() > 0 && s[0] == '-' {
        if s.len() > 1 && all_digits(s.drop_first()) {
            Some(-digits_val(s.drop_first()))
        } else {
            None
        }
    } else if s.len() > 0 && all_digits(s) {
        Some(digits_val(s))
    } else {
        None
    }
}

/// The digit run of a positive integer is made of digits, reads back as that
/// integer, and never starts with a zero.
proof fn lemma_dec_rec_digits(n: int)
    requires
        n >= 0,
    ensures
        all_digits(dec_rec(n)),
        digits_val(dec_rec(n)) == n,
        n > 0 ==> dec_rec(n).len() > 0 && dec_rec(n)[0] != '0',
    decreases n,
{
    if n > 0 {
        lemma_dec_rec_digits(n / 10);
        let s = dec_rec(n);
        let head = dec_rec(n / 10);
        assert(s.drop_last() =~= head);
        assert(s.last() == dec_digit(n % 10));
        vstd::arithmetic::div_mod::lemma_fundamental_div_mod(n, 10);
        assert(digits_val(s) == n);
        assert forall|i: int| 0 <= i < s.len() implies dec_val(#[trigger] s[i]) >= 0 by {
            if i < head.len() {
                assert(s[i] == head[i]);
            } else {
                assert(s[i] == dec_digit(n % 10));
            }
        }
        if n / 10 == 0 {
            assert(s =~= seq![dec_digit(n % 10)]);
            assert(n % 10 == n);
        } else {
            assert(s[0] == head[0]);
        }
    }
}

/// Parsing the decimal text of any integer with a conforming base-ten parser
/// recovers exactly that integer; the text holds nothing besides an optional
/// leading minus sign and decimal digits, so it has no grouping separators,
/// and its digits never start with a superfluous zero.
pub proof fn lemma_int_str_parses_back(n: int)
    ensures
        parse_dec(int_str(n)) == Some(n),
        n >= 0 ==> all_digits(int_str(n)),
        n < 0 ==> int_str(n)[0] == '-' && all_digits(int_str(n).drop_first()),
        n != 0 ==> int_str(n).last() == dec_digit(
            if n < 0 {
                (-n) % 10
            } else {
                n % 10
            },
        ),
{
    if n >= 0 {
        if n == 0 {
            let s = int_str(n);
            assert(s == seq!['0']);
            assert(s.drop_last() =~= Seq::<char>::empty());
            assert(digits_val(Seq::<char>::empty()) == 0);
            assert(digits_val(s) == digits_val(s.drop_last()) * 10 + dec_val(s.last()));
            assert(digits_val(s) == 0);
            assert(s[0] != '-');
        } else {
            lemma_dec_rec_digits(n);
            let s = int_str(n);
            assert(s == dec_rec(n));
            assert(dec_val(s[0]) >= 0);
            assert(s[0] != '-');
        }
    } else {
        lemma_dec_rec_digits(-n);
        let s = int_str(n);
        assert(s == seq!['-'] + dec_rec(-n));
        assert(s[0] == '-');
        assert(s.drop_first() =~= dec_rec(-n));
    }
}

/// The decimal digit character for a value below ten.
fn dec_char(d: u64) -> (c: char)
    requires
        d < 10,
    ensures
        c == dec_digit(d as int),
{
    match d {
        0 => '0',
        1 => '1',
        2 => '2',
        3 => '3',
        4 => '4',
        5 => '5',
        6 => '6',
        7 => '7',
        8 => '8',
        _ => '9',
    }
}

/// Renders an unsigned 64-bit value in decimal.
pub fn u64_text(n: u64) -> (r: String)
    ensures
        r@ == dec_str(n as int),
{
    if n == 0 {
        let r = String::from_str("0");
        proof {
            reveal_strlit("0");
            assert(r@ =~= seq!['0']);
        }
        return r;
    }
    let mut digits: Vec<char> = Vec::new();
    let mut m: u64 = n;
    proof {
        assert(dec_rec(m as int) + digits@ =~= dec_rec(n as int));
    }
    while m > 0
        invariant
            dec_rec(m as int) + digits@ == dec_rec(n as int),
        decreases m,
    {
        let ghost dprev = digits@;
        let ghost mprev = m as int;
        let c = dec_char(m % 10);
        digits.insert(0, c);
        m = m / 10;
        proof {
            assert(dec_rec(mprev) == dec_rec(mprev / 10) + seq![dec_digit(mprev % 10)]);
            assert(digits@ =~= seq![c] + dprev);
            assert(dec_rec(m as int) + digits@ =~= dec_rec(mprev) + dprev);
        }
    }
    proof {
        assert(digits@ =~= dec_rec(n as int));
    }
    let mut out = String::new();
    let mut i: usize = 0;
    while i < digits.len()
        invariant
            i <= digits@.len(),
            out@ == digits@.subrange(0, i as int),
        decreases digits@.len() - i,
    {
        push_char(&mut out, digits[i]);
        proof {
            assert(out@ =~= digits@.subrange(0, i as int + 1));
        }
        i += 1;
    }
    proof {
        assert(digits@.subrange(0, digits@.len() as int) =~= digits@);
        assert(out@ =~= dec_str(n as int));
    }
    out
}

/// Renders an unsigned 32-bit value in decimal.
pub fn u32_text(n: u32) -> (r: String)
    ensures
        r@ == dec_str(n as int),
{
    u64_text(n as u64)
}

/// Renders a signed 64-bit value in decimal, with a minus sign when negative.
pub fn i64_text(n: i64) -> (r: String)
    ensures
        r@ == int_str(n as int),
{
    if n >= 0 {
        u64_text(n as u64)
    } else {
        let mag: u64 = ((-(n + 1)) as u64) + 1;
        proof {
            assert(mag as int == -(n as int));
        }
        let mut out = String::from_str("-");
        let digits = u64_text(mag);
        out.append(digits.as_str());
        proof {
            reveal_strlit("-");
            assert(out@ =~= int_str(n as int));
        }
        out
    }
}

/// Renders a signed 32-bit value in decimal, with a minus sign when negative.
pub fn i32_text(n: i32) -> (r: String)
    ensures
        r@ == int_str(n as int),
{
    i64_text(n as i64)
}

} // verus!
