use vstd::prelude::*;
use vstd::string::{StrSliceExecFns, StringExecFns};

verus! {

/// The character of decimal digit `d`.
pub open spec fn digit_char(d: nat) -> char {
    ('0' as u32 + d) as char
}

/// The decimal digits of `n`, without leading zeros.
pub open spec fn decimal_of(n: nat) -> Seq<char>
    decreases n,
{
    if n < 10 {
        seq![digit_char(n)]
    } else {
        decimal_of(n / 10) + seq![digit_char(n % 10)]
    }
}

pub open spec fn is_hex_digit(c: char) -> bool {
    ('0' <= c && c <= '9') || ('a' <= c && c <= 'f') || ('A' <= c && c <= 'F')
}

pub open spec fn hex_digit_value(c: char) -> nat {
    if '0' <= c && c <= '9' {
        (c as u32 - '0' as u32) as nat
    } else if 'a' <= c && c <= 'f' {
        (c as u32 - 'a' as u32 + 10) as nat
    } else {
        (c as u32 - 'A' as u32 + 10) as nat
    }
}

/// The value of a string of hex digits, most significant first.
pub open spec fn hex_value(s: Seq<char>) -> nat
    decreases s.len(),
{
    if s.len() == 0 {
        0
    } else {
        hex_value(s.drop_last()) * 16 + hex_digit_value(s.last())
    }
}

/// `s` without one leading `+`.
pub open spec fn unsigned_digits(s: Seq<char>) -> Seq<char> {
    if s.len() > 0 && s[0] == '+' {
        s.drop_first()
    } else {
        s
    }
}

/// Whether `s` reads as a byte in base 16: an optional `+`, then one or more
/// hex digits whose value is below 256.
pub open spec fn hex_byte_parses(s: Seq<char>) -> bool {
    let d = unsigned_digits(s);
    &&& d.len() > 0
    &&& forall|i: int| 0 <= i < d.len() ==> is_hex_digit(#[trigger] d[i])
    &&& hex_value(d) < 256
}

/// `s` without a leading `0x` or `0X`.
pub open spec fn without_hex_prefix(s: Seq<char>) -> Seq<char> {
    if s.len() >= 2 && s[0] == '0' && (s[1] == 'x' || s[1] == 'X') {
        s.subrange(2, s.len() as int)
    } else {
        s
    }
}

/// Whether `c` has the Unicode White_Space property (the characters that
/// `char::is_whitespace` accepts).
pub open spec fn is_white_space(c: char) -> bool {
    ('\u{9}' <= c && c <= '\u{d}') || c == ' ' || c == '\u{85}' || c == '\u{a0}' || c == '\u{1680}'
        || ('\u{2000}' <= c && c <= '\u{200a}') || c == '\u{2028}' || c == '\u{2029}' || c == '\u{202f}'
        || c == '\u{205f}' || c == '\u{3000}'
}

/// `s` without its leading white space.
pub open spec fn trim_start_of(s: Seq<char>) -> Seq<char>
    decreases s.len(),
{
    if s.len() > 0 && is_white_space(s[0]) {
        trim_start_of(s.drop_first())
    } else {
        s
    }
}

/// `s` without its trailing white space.
pub open spec fn trim_end_of(s: Seq<char>) -> Seq<char>
    decreases s.len(),
{
    if s.len() > 0 && is_white_space(s.last()) {
        trim_end_of(s.drop_last())
    } else {
        s
    }
}

/// `s` without leading and trailing white space.
pub open spec fn trimmed(s: Seq<char>) -> Seq<char> {
    trim_end_of(trim_start_of(s))
}

/// The text that every parse error message starts with.
pub open spec fn hex_error_prefix(input: Seq<char>) -> Seq<char> {
    "invalid hex byte '"@ + input + "': "@
}

/// The one-character string of decimal digit `d`.
fn digit_str(d: u8) -> (r: &'static str)
    requires
        d < 10,
    ensures
        r@ == seq![digit_char(d as nat)],
{
    proof {
        reveal_strlit("0");
        reveal_strlit("1");
        reveal_strlit("2");
        reveal_strlit("3");
        reveal_strlit("4");
        reveal_strlit("5");
        reveal_strlit("6");
        reveal_strlit("7");
        reveal_strlit("8");
        reveal_strlit("9");
    }
    let r = match d {
        0 => "0",
        1 => "1",
        2 => "2",
        3 => "3",
        4 => "4",
        5 => "5",
        6 => "6",
        7 => "7",
        8 => "8",
        _ => "9",
    };
    assert(r@ =~= seq![digit_char(d as nat)]);
    r
}

/// Relies on `str::trim`: leading and trailing characters with the Unicode
/// White_Space property removed.
#[verifier::external_body]
fn trim(s: &str) -> (r: &str)
    ensures
        r@ == trimmed(s@),
{
    s.trim()
}

/// Relies on `u8::from_str_radix` with radix 16: an optional `+` and one or
/// more hex digits (either case) whose value fits a byte parse to that
/// value; anything else is an error, returned as the parse error's text.
#[verifier::external_body]
fn parse_hex_digits(digits: &str) -> (r: Result<u8, String>)
    ensures
        r is Ok <==> hex_byte_parses(digits@),
        r matches Ok(v) ==> v as nat == hex_value(unsigned_digits(digits@)),
{
    match u8::from_str_radix(digits, 16) {
        Ok(v) => Ok(v),
        Err(err) => Err(err.to_string()),
    }
}

/// The string after a leading `0x` or `0X`, or the string itself.
fn strip_hex_prefix(s: &str) -> (r: &str)
    ensures
        r@ == without_hex_prefix(s@),
{
    let n = s.unicode_len();
    if n >= 2 {
        let c0 = s.get_char(0);
        let c1 = s.get_char(1);
        if c0 == '0' && (c1 == 'x' || c1 == 'X') {
            return s.substring_char(2, n);
        }
    }
    s
}

/// Parses an already trimmed hex byte, with or without a `0x` / `0X`
/// prefix. An error message names `input`, the text as the user gave it.
pub fn parse_trimmed_hex_u8(trimmed_input: &str, input: &str) -> (r: Result<u8, String>)
    ensures
        r is Ok <==> hex_byte_parses(without_hex_prefix(trimmed_input@)),
        r matches Ok(v) ==> v as nat == hex_value(unsigned_digits(without_hex_prefix(trimmed_input@))),
        r matches Err(m) ==> hex_error_prefix(input@).is_prefix_of(m@),
{
    let digits = strip_hex_prefix(trimmed_input);
    match parse_hex_digits(digits) {
        Ok(v) => Ok(v),
        Err(why) => {
            let mut msg = String::from_str("invalid hex byte '");
            msg.append(input);
            msg.append("': ");
            let ghost head = msg@;
            msg.append(why.as_str());
            assert(msg@.subrange(0, head.len() as int) =~= head);
            Err(msg)
        },
    }
}

/// Parses a byte written in hex, with or without a `0x` / `0X` prefix;
/// surrounding white space is ignored.
pub fn parse_hex_u8(input: &str) -> (r: Result<u8, String>)
    ensures
        r is Ok <==> hex_byte_parses(without_hex_prefix(trimmed(input@))),
        r matches Ok(v) ==> v as nat == hex_value(unsigned_digits(without_hex_prefix(trimmed(input@)))),
        r matches Err(m) ==> hex_error_prefix(input@).is_prefix_of(m@),
{
    parse_trimmed_hex_u8(trim(input), input)
}

/// `prefix` followed by the decimal digits of `n`.
pub(crate) fn with_decimal_suffix(prefix: &str, n: u8) -> (r: String)
    ensures
        r@ == prefix@ + decimal_of(n as nat),
{
    let mut s = String::from_str(prefix);
    let ghost n0 = n as nat;
    if n >= 100 {
        s.append(digit_str(n / 100));
    }
    if n >= 10 {
        s.append(digit_str((n / 10) % 10));
    }
    s.append(digit_str(n % 10));
    proof {
        assert(n0 / 10 / 10 == n0 / 100);
        if n0 >= 100 {
            assert(decimal_of(n0 / 100) == seq![digit_char(n0 / 100)]);
            assert(decimal_of(n0 / 10) == decimal_of(n0 / 100) + seq![digit_char((n0 / 10) % 10)]);
            assert(decimal_of(n0) == decimal_of(n0 / 10) + seq![digit_char(n0 % 10)]);
        } else if n0 >= 10 {
            assert(decimal_of(n0 / 10) == seq![digit_char(n0 / 10)]);
            assert(decimal_of(n0) == decimal_of(n0 / 10) + seq![digit_char(n0 % 10)]);
        } else {
            assert(decimal_of(n0) == seq![digit_char(n0)]);
        }
    }
    assert(s@ =~= prefix@ + decimal_of(n as nat));
    s
}

} // verus!
