//! The byte-quoting algorithm.
//!
//! An arbitrary byte sequence becomes a double-quoted text literal: the
//! double-quote and backslash bytes are backslash-escaped, newline, carriage
//! return and tab become `\n`, `\r`, `\t`, every other printable ASCII byte is
//! emitted as itself, and every remaining byte (control characters and bytes
//! at or above 0x80) becomes a three-digit octal escape, so that adjacent
//! escapes stay unambiguous.

use crate::strutil::push_char;
use vstd::prelude::*;

verus! {

/// The octal digit character for a value below eight.
pub open spec fn oct_digit(d: int) -> char {
    if d == 0 {
        '0'
    } else if d == 1 {
        '1'
    } else if d == 2 {
        '2'
    } else if d == 3 {
        '3'
    } else if d == 4 {
        '4'
    } else if d == 5 {
        '5'
    } else if d == 6 {
        '6'
    } else {
        '7'
    }
}

/// Whether a byte is in the printable ASCII range that is emitted verbatim
/// (the double-quote and backslash bytes are escaped instead).
pub open spec fn is_plain_byte(b: u8) -> bool {
    &&& 0x20 <= b <= 0x7e
    &&& b != 0x22
    &&& b != 0x5c
}

/// The escape sequence that the quoting algorithm emits for one byte.
pub open spec fn esc_byte(b: u8) -> Seq<char> {
    if b == 0x22 {
        seq!['\\', '"']
    } else if b == 0x5c {
        seq!['\\', '\\']
    } else if b == 0x0a {
        seq!['\\', 'n']
    } else if b == 0x0d {
        seq!['\\', 'r']
    } else if b == 0x09 {
        seq!['\\', 't']
    } else if is_plain_byte(b) {
        seq![b as char]
    } else {
        seq!['\\', oct_digit(b as int / 64), oct_digit((b as int % 64) / 8), oct_digit(b as int % 8)]
    }
}

/// The escaped body of a quoted byte sequence, without the surrounding quotes.
pub open spec fn quote_body(bs: Seq<u8>) -> Seq<char>
    decreases bs.len(),
{
    if bs.len() == 0 {
        Seq::<char>::empty()
    } else {
        esc_byte(bs[0]) + quote_body(bs.drop_first())
    }
}

/// The full quoted text literal for a byte sequence: the escaped body wrapped
/// in ASCII double quotes.
pub open spec fn quote_text(bs: Seq<u8>) -> Seq<char> {
    seq!['"'] + quote_body(bs) + seq!['"']
}

/// The value of an octal digit character, or a negative value for any other
/// character.
pub open spec fn oct_val(c: char) -> int {
    if c == '0' {
        0
    } else if c == '1' {
        1
    } else if c == '2' {
        2
    } else if c == '3' {
        3
    } else if c == '4' {
        4
    } else if c == '5' {
        5
    } else if c == '6' {
        6
    } else if c == '7' {
        7
    } else {
        -1
    }
}

/// Prepends a byte to the result of unescaping the rest of the input, keeping
/// a malformed rest malformed.
pub open spec fn prepend_byte(b: u8, rest: Option<Seq<u8>>) -> Option<Seq<u8>> {
    match rest {
        Some(t) => Some(seq![b] + t),
        None => None,
    }
}

/// A conforming unescaper for the body of a quoted literal (the part between
/// the surrounding double quotes): backslash escapes and three-digit octal
/// escapes become single bytes, every other printable character becomes its
/// own byte, and anything else is malformed.
pub open spec fn unescape_body(s: Seq<char>) -> Option<Seq<u8>>
    decreases s.len(),
{
    if s.len() == 0 {
        Some(Seq::<u8>::empty())
    } else if s[0] == '\\' {
        if s.len() >= 2 && s[1] == 'n' {
            prepend_byte(0x0a, unescape_body(s.skip(2)))
        } else if s.len() >= 2 && s[1] == 'r' {
            prepend_byte(0x0d, unescape_body(s.skip(2)))
        } else if s.len() >= 2 && s[1] == 't' {
            prepend_byte(0x09, unescape_body(s.skip(2)))
        } else if s.len() >= 2 && s[1] == '"' {
            prepend_byte(0x22, unescape_body(s.skip(2)))
        } else if s.len() >= 2 && s[1] == '\\' {
            prepend_byte(0x5c, unescape_body(s.skip(2)))
        } else if s.len() >= 4 && oct_val(s[1]) >= 0 && oct_val(s[2]) >= 0 && oct_val(s[3]) >= 0
            && 64 * oct_val(s[1]) + 8 * oct_val(s[2]) + oct_val(s[3]) < 256 {
            prepend_byte(
                (64 * oct_val(s[1]) + 8 * oct_val(s[2]) + oct_val(s[3])) as u8,
                unescape_body(s.skip(4)),
            )
        } else {
            None
        }
    } else if 0x20 <= s[0] as u32 && s[0] as u32 <= 0x7e && s[0] != '"' {
        prepend_byte(s[0] as u8, unescape_body(s.skip(1)))
    } else {
        None
    }
}

/// A conforming unescaper for a whole quoted literal: strips the surrounding
/// double quotes and unescapes the body.
pub open spec fn unquote(s: Seq<char>) -> Option<Seq<u8>> {
    if s.len() >= 2 && s[0] == '"' && s[s.len() - 1] == '"' {
        unescape_body(s.subrange(1, s.len() - 1))
    } else {
        None
    }
}

/// Appending one byte to a sequence appends that byte's escape to the body.
proof fn lemma_quote_body_snoc(bs: Seq<u8>, b: u8)
    ensures
        quote_body(bs.push(b)) == quote_body(bs) + esc_byte(b),
    decreases bs.len(),
{
    if bs.len() == 0 {
        assert(bs.push(b).drop_first() =~= Seq::<u8>::empty());
        assert(quote_body(Seq::<u8>::empty()) == Seq::<char>::empty());
        assert(quote_body(bs.push(b)) =~= esc_byte(b));
        assert(quote_body(bs) + esc_byte(b) =~= esc_byte(b));
    } else {
        assert(bs.push(b).drop_first() =~= bs.drop_first().push(b));
        lemma_quote_body_snoc(bs.drop_first(), b);
        assert(quote_body(bs.push(b)) =~= quote_body(bs) + esc_byte(b));
    }
}

/// A byte splits into its three octal digits.
proof fn lemma_octal_split(n: int)
    requires
        0 <= n < 256,
    ensures
        0 <= n / 64 < 8,
        0 <= (n % 64) / 8 < 8,
        0 <= n % 8 < 8,
        64 * (n / 64) + 8 * ((n % 64) / 8) + n % 8 == n,
{
    vstd::arithmetic::div_mod::lemma_fundamental_div_mod(n, 64);
    vstd::arithmetic::div_mod::lemma_fundamental_div_mod(n % 64, 8);
    vstd::arithmetic::div_mod::lemma_mod_mod(n, 8, 8);
}

/// The unescaper consumes exactly the escape of one byte from the front of
/// the input and hands that byte back.
proof fn lemma_unescape_esc(b: u8, t: Seq<char>)
    ensures
        unescape_body(esc_byte(b) + t) == prepend_byte(b, unescape_body(t)),
{
    let s = esc_byte(b) + t;
    if b == 0x22 || b == 0x5c || b == 0x0a || b == 0x0d || b == 0x09 {
        assert(s.skip(2) =~= t);
    } else if is_plain_byte(b) {
        assert(s[0] == b as char);
        assert(s[0] as u32 == b);
        assert(s[0] as u8 == b);
        assert(s.skip(1) =~= t);
    } else {
        lemma_octal_split(b as int);
        let d1 = b as int / 64;
        let d2 = (b as int % 64) / 8;
        let d3 = b as int % 8;
        assert(s[1] == oct_digit(d1) && s[2] == oct_digit(d2) && s[3] == oct_digit(d3));
        assert(oct_val(oct_digit(d1)) == d1);
        assert(oct_val(oct_digit(d2)) == d2);
        assert(oct_val(oct_digit(d3)) == d3);
        assert(64 * oct_val(s[1]) + 8 * oct_val(s[2]) + oct_val(s[3]) == b as int);
        assert(s.skip(4) =~= t);
    }
}

/// Unescaping the escaped body of any byte sequence recovers that sequence.
proof fn lemma_unescape_quote_body(bs: Seq<u8>)
    ensures
        unescape_body(quote_body(bs)) == Some(bs),
    decreases bs.len(),
{
    if bs.len() == 0 {
        assert(bs =~= Seq::<u8>::empty());
    } else {
        lemma_unescape_esc(bs[0], quote_body(bs.drop_first()));
        lemma_unescape_quote_body(bs.drop_first());
        assert(seq![bs[0]] + bs.drop_first() =~= bs);
    }
}

/// Round trip: a conforming unescaper applied to the quoted literal of any
/// byte sequence yields exactly that sequence.
pub proof fn lemma_unquote_quote(bs: Seq<u8>)
    ensures
        unquote(quote_text(bs)) == Some(bs),
{
    let s = quote_text(bs);
    assert(s[0] == '"');
    assert(s[s.len() - 1] == '"');
    assert(s.subrange(1, s.len() - 1) =~= quote_body(bs));
    lemma_unescape_quote_body(bs);
}

/// The octal digit character for a byte value below eight.
fn oct_char(d: u8) -> (c: char)
    requires
        d < 8,
    ensures
        c == oct_digit(d as int),
{
    match d {
        0 => '0',
        1 => '1',
        2 => '2',
        3 => '3',
        4 => '4',
        5 => '5',
        6 => '6',
        _ => '7',
    }
}

/// Appends the escape sequence of a single byte to the output.
fn push_escaped_byte(out: &mut String, b: u8)
    ensures
        final(out)@ == old(out)@ + esc_byte(b),
{
    if b == 0x22 {
        push_char(out, '\\');
        push_char(out, '"');
    } else if b == 0x5c {
        push_char(out, '\\');
        push_char(out, '\\');
    } else if b == 0x0a {
        push_char(out, '\\');
        push_char(out, 'n');
    } else if b == 0x0d {
        push_char(out, '\\');
        push_char(out, 'r');
    } else if b == 0x09 {
        push_char(out, '\\');
        push_char(out, 't');
    } else if 0x20 <= b && b <= 0x7e {
        push_char(out, b as char);
    } else {
        push_char(out, '\\');
        push_char(out, oct_char(b / 64));
        push_char(out, oct_char((b % 64) / 8));
        push_char(out, oct_char(b % 8));
    }
    assert(out@ =~= old(out)@ + esc_byte(b));
}

/// Produces the quoted text literal for a byte sequence: the escaped body of
/// the bytes, wrapped in ASCII double quotes.
pub fn quote_bytes(bs: &[u8]) -> (r: String)
    ensures
        r@ == quote_text(bs@),
{
    let mut out = String::new();
    push_char(&mut out, '"');
    let mut i: usize = 0;
    while i < bs.len()
        invariant
            i <= bs@.len(),
            out@ == seq!['"'] + quote_body(bs@.subrange(0, i as int)),
        decreases bs@.len() - i,
    {
        let b = bs[i];
        push_escaped_byte(&mut out, b);
        proof {
            lemma_quote_body_snoc(bs@.subrange(0, i as int), bs@[i as int]);
            assert(bs@.subrange(0, i as int).push(bs@[i as int]) =~= bs@.subrange(
                0,
                i as int + 1,
            ));
            assert(seq!['"'] + quote_body(bs@.subrange(0, i as int)) + esc_byte(bs@[i as int])
                =~= seq!['"'] + quote_body(bs@.subrange(0, i as int + 1)));
        }
        i += 1;
    }
    proof {
        assert(bs@.subrange(0, bs@.len() as int) =~= bs@);
    }
    push_char(&mut out, '"');
    proof {
        assert(out@ =~= quote_text(bs@));
    }
    out
}

} // verus!
