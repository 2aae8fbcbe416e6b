//! The JSON fragment the backend calls are written in.
//!
//! Remote procedure parameters travel as a JSON object of string and integer
//! fields.  The functions here build that text and read the backend's decimal
//! numerals, and their contracts pin the exact character sequences down, so a
//! caller's contract can state the full parameter text it sends.

use vstd::prelude::*;
use vstd::string::StringExecFns;
use vstd::string::StrSliceExecFns;

verus! {

/// The hexadecimal digit for a value below sixteen.
pub open spec fn hex_digit(n: nat) -> char {
    if n == 0 {
        '0'
    } else if n == 1 {
        '1'
    } else if n == 2 {
        '2'
    } else if n == 3 {
        '3'
    } else if n == 4 {
        '4'
    } else if n == 5 {
        '5'
    } else if n == 6 {
        '6'
    } else if n == 7 {
        '7'
    } else if n == 8 {
        '8'
    } else if n == 9 {
        '9'
    } else if n == 10 {
        'a'
    } else if n == 11 {
        'b'
    } else if n == 12 {
        'c'
    } else if n == 13 {
        'd'
    } else if n == 14 {
        'e'
    } else {
        'f'
    }
}

/// How one character appears inside a JSON string literal: the quote and the
/// backslash are escaped, the common control characters get their short
/// escapes, any other control character gets a `\u00..` escape, and every
/// remaining character stands as itself.
pub open spec fn esc_char(c: char) -> Seq<char> {
    if c == '"' {
        seq!['\\', '"']
    } else if c == '\\' {
        seq!['\\', '\\']
    } else if c == '\u{8}' {
        seq!['\\', 'b']
    } else if c == '\u{c}' {
        seq!['\\', 'f']
    } else if c == '\n' {
        seq!['\\', 'n']
    } else if c == '\r' {
        seq!['\\', 'r']
    } else if c == '\t' {
        seq!['\\', 't']
    } else if (c as u32) < 0x20 {
        seq!['\\', 'u', '0', '0', hex_digit(((c as u32) / 16) as nat), hex_digit(
            ((c as u32) % 16) as nat,
        )]
    } else {
        seq![c]
    }
}

/// A whole character sequence escaped for a JSON string literal.
pub open spec fn json_escape(s: Seq<char>) -> Seq<char>
    decreases s.len(),
{
    if s.len() == 0 {
        Seq::empty()
    } else {
        json_escape(s.drop_last()) + esc_char(s.last())
    }
}

/// A JSON string literal: the escaped text between double quotes.
pub open spec fn json_string(s: Seq<char>) -> Seq<char> {
    seq!['"'] + json_escape(s) + seq!['"']
}

/// The decimal digit for a value below ten.
pub open spec fn dec_digit(n: nat) -> char {
    hex_digit(n % 10)
}

/// The decimal numeral of a natural number, without leading zeros.
pub open spec fn dec_rep(n: nat) -> Seq<char>
    decreases n,
{
    if n < 10 {
        seq![dec_digit(n)]
    } else {
        dec_rep(n / 10).push(dec_digit(n % 10))
    }
}

/// Whether the character is a decimal digit.
pub open spec fn is_dec_digit(c: char) -> bool {
    '0' <= c && c <= '9'
}

/// Whether every character of the sequence is a decimal digit.
pub open spec fn all_dec_digits(s: Seq<char>) -> bool {
    forall|i: int| 0 <= i < s.len() ==> is_dec_digit(#[trigger] s[i])
}

/// The numeric value of a decimal digit character; zero off the digits.
pub open spec fn digit_val(c: char) -> nat {
    if '0' <= c && c <= '9' {
        (c as int - '0' as int) as nat
    } else {
        0
    }
}

/// The value of a sequence of decimal digits, most significant first.
pub open spec fn dec_val(s: Seq<char>) -> nat
    decreases s.len(),
{
    if s.len() == 0 {
        0
    } else {
        dec_val(s.drop_last()) * 10 + digit_val(s.last())
    }
}

/// Relies on `String::push` of std: it appends the one given character at the
/// end of the string and changes nothing else.
#[verifier::external_body]
pub fn push_char(out: &mut String, c: char)
    ensures
        final(out)@ == old(out)@.push(c),
{
    out.push(c);
}

/// The decimal digit character for a value below ten.
fn dec_digit_char(d: u64) -> (c: char)
    requires
        d < 10,
    ensures
        c == dec_digit(d as nat),
{
    if d == 0 {
        '0'
    } else if d == 1 {
        '1'
    } else if d == 2 {
        '2'
    } else if d == 3 {
        '3'
    } else if d == 4 {
        '4'
    } else if d == 5 {
        '5'
    } else if d == 6 {
        '6'
    } else if d == 7 {
        '7'
    } else if d == 8 {
        '8'
    } else {
        '9'
    }
}

/// The hexadecimal digit character for a value below sixteen.
fn hex_digit_char(d: u32) -> (c: char)
    requires
        d < 16,
    ensures
        c == hex_digit(d as nat),
{
    if d < 10 {
        dec_digit_char(d as u64)
    } else if d == 10 {
        'a'
    } else if d == 11 {
        'b'
    } else if d == 12 {
        'c'
    } else if d == 13 {
        'd'
    } else if d == 14 {
        'e'
    } else {
        'f'
    }
}

/// Appends the decimal numeral of `n`.
pub fn append_dec(out: &mut String, n: u64)
    ensures
        final(out)@ == old(out)@ + dec_rep(n as nat),
    decreases n,
{
    if n < 10 {
        let c = dec_digit_char(n);
        push_char(out, c);
        proof {
            assert(old(out)@.push(c) =~= old(out)@ + dec_rep(n as nat));
        }
    } else {
        append_dec(out, n / 10);
        let c = dec_digit_char(n % 10);
        push_char(out, c);
        proof {
            assert((old(out)@ + dec_rep((n / 10) as nat)).push(c) =~= old(out)@ + dec_rep(
                n as nat,
            ));
        }
    }
}

/// Appends the escape of one character.
fn append_escaped_char(out: &mut String, c: char)
    ensures
        final(out)@ == old(out)@ + esc_char(c),
{
    if c == '"' {
        out.append("\\\"");
        proof {
            reveal_strlit("\\\"");
            assert(old(out)@ + "\\\""@ =~= old(out)@ + esc_char(c));
        }
    } else if c == '\\' {
        out.append("\\\\");
        proof {
            reveal_strlit("\\\\");
            assert(old(out)@ + "\\\\"@ =~= old(out)@ + esc_char(c));
        }
    } else if c == '\u{8}' {
        out.append("\\b");
        proof {
            reveal_strlit("\\b");
            assert(old(out)@ + "\\b"@ =~= old(out)@ + esc_char(c));
        }
    } else if c == '\u{c}' {
        out.append("\\f");
        proof {
            reveal_strlit("\\f");
            assert(old(out)@ + "\\f"@ =~= old(out)@ + esc_char(c));
        }
    } else if c == '\n' {
        out.append("\\n");
        proof {
            reveal_strlit("\\n");
            assert(old(out)@ + "\\n"@ =~= old(out)@ + esc_char(c));
        }
    } else if c == '\r' {
        out.append("\\r");
        proof {
            reveal_strlit("\\r");
            assert(old(out)@ + "\\r"@ =~= old(out)@ + esc_char(c));
        }
    } else if c == '\t' {
        out.append("\\t");
        proof {
            reveal_strlit("\\t");
            assert(old(out)@ + "\\t"@ =~= old(out)@ + esc_char(c));
        }
    } else if (c as u32) < 0x20 {
        out.append("\\u00");
        let v: u32 = c as u32;
        let hi = hex_digit_char(v / 16);
        push_char(out, hi);
        let lo = hex_digit_char(v % 16);
        push_char(out, lo);
        proof {
            reveal_strlit("\\u00");
            assert((old(out)@ + "\\u00"@).push(hi).push(lo) =~= old(out)@ + esc_char(c));
        }
    } else {
        push_char(out, c);
        proof {
            assert(old(out)@.push(c) =~= old(out)@ + esc_char(c));
        }
    }
}

proof fn lemma_json_escape_take_snoc(s: Seq<char>, i: int)
    requires
        0 <= i < s.len(),
    ensures
        json_escape(s.take(i + 1)) == json_escape(s.take(i)) + esc_char(s[i]),
{
    assert(s.take(i + 1).drop_last() =~= s.take(i));
    assert(s.take(i + 1).last() == s[i]);
}

/// Appends the JSON string literal holding `s`.
pub fn append_json_string(out: &mut String, s: &str)
    ensures
        final(out)@ == old(out)@ + json_string(s@),
{
    out.append("\"");
    proof {
        reveal_strlit("\"");
        assert(old(out)@ + "\""@ =~= old(out)@ + seq!['"']);
        assert(s@.take(0) =~= Seq::<char>::empty());
    }
    let n = s.unicode_len();
    let mut i: usize = 0;
    while i < n
        invariant
            n == s@.len(),
            i <= n,
            out@ == old(out)@ + seq!['"'] + json_escape(s@.take(i as int)),
        decreases n - i,
    {
        let c = s.get_char(i);
        append_escaped_char(out, c);
        proof {
            lemma_json_escape_take_snoc(s@, i as int);
            assert(old(out)@ + seq!['"'] + (json_escape(s@.take(i as int)) + esc_char(s@[i as int]))
                =~= old(out)@ + seq!['"'] + json_escape(s@.take(i + 1)));
        }
        i = i + 1;
    }
    out.append("\"");
    proof {
        reveal_strlit("\"");
        assert(s@.take(n as int) =~= s@);
        assert(old(out)@ + seq!['"'] + json_escape(s@) + "\""@ =~= old(out)@ + json_string(s@));
    }
}

proof fn lemma_dec_val_take_snoc(s: Seq<char>, i: int)
    requires
        0 <= i < s.len(),
    ensures
        dec_val(s.take(i + 1)) == dec_val(s.take(i)) * 10 + digit_val(s[i]),
{
    assert(s.take(i + 1).drop_last() =~= s.take(i));
    assert(s.take(i + 1).last() == s[i]);
}

proof fn lemma_dec_val_take_mono(s: Seq<char>, i: int, j: int)
    requires
        0 <= i <= j <= s.len(),
    ensures
        dec_val(s.take(i)) <= dec_val(s.take(j)),
    decreases j - i,
{
    if i < j {
        lemma_dec_val_take_mono(s, i, j - 1);
        lemma_dec_val_take_snoc(s, j - 1);
    }
}

/// Reads a decimal numeral as an unsigned 32-bit value.  Returns `Some`
/// exactly when the text is one or more decimal digits whose value fits.
pub fn parse_u32(s: &str) -> (r: Option<u32>)
    ensures
        match r {
            Some(v) => s@.len() > 0 && all_dec_digits(s@) && v == dec_val(s@) && dec_val(s@)
                <= u32::MAX,
            None => s@.len() == 0 || !all_dec_digits(s@) || dec_val(s@) > u32::MAX,
        },
{
    let n = s.unicode_len();
    if n == 0 {
        return None;
    }
    let mut acc: u64 = 0;
    let mut i: usize = 0;
    proof {
        assert(s@.take(0) =~= Seq::<char>::empty());
    }
    while i < n
        invariant
            n == s@.len(),
            0 < n,
            i <= n,
            acc == dec_val(s@.take(i as int)),
            acc <= u32::MAX,
            all_dec_digits(s@.take(i as int)),
        decreases n - i,
    {
        let c = s.get_char(i);
        if c < '0' || c > '9' {
            proof {
                assert(!is_dec_digit(s@[i as int]));
            }
            return None;
        }
        let d: u64 = (c as u64) - ('0' as u64);
        proof {
            assert(d == digit_val(s@[i as int]));
            lemma_dec_val_take_snoc(s@, i as int);
        }
        acc = acc * 10 + d;
        if acc > 0xffff_ffff {
            proof {
                lemma_dec_val_take_mono(s@, i + 1, s@.len() as int);
                assert(s@.take(s@.len() as int) =~= s@);
            }
            return None;
        }
        proof {
            assert(all_dec_digits(s@.take(i + 1))) by {
                assert(forall|k: int|
                    0 <= k < i + 1 ==> s@.take(i + 1)[k] == #[trigger] s@.take(i as int + 1)[k]);
            }
        }
        i = i + 1;
    }
    proof {
        assert(s@.take(n as int) =~= s@);
    }
    Some(acc as u32)
}

} // verus!
