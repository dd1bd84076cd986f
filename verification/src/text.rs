//! Text renderings of numbers, flags and optional values, as `{}` and `{:?}` print them.

use vstd::prelude::*;
use std::time::Duration;

verus! {

/// The character of a decimal digit.
pub open spec fn digit_char(d: int) -> char {
    if d == 0 {
        '0'
    } else if d == 1 {
        '1'
    } else if d == 2 {
        '2'
    } else if d == 3 {
        '3'
    } else if d == 4 {
        '4'
    } else if d == 5 {
        '5'
    } else if d == 6 {
        '6'
    } else if d == 7 {
        '7'
    } else if d == 8 {
        '8'
    } else {
        '9'
    }
}

/// The decimal digits of `n`, without leading zeros.
pub open spec fn decimal(n: nat) -> Seq<char>
    decreases n,
{
    if n < 10 {
        seq![digit_char(n as int)]
    } else {
        decimal(n / 10).push(digit_char((n % 10) as int))
    }
}

/// The text of a flag: `true` or `false`.
pub open spec fn bool_text(b: bool) -> Seq<char> {
    if b {
        "true"@
    } else {
        "false"@
    }
}

/// How `{:?}` prints a string.
pub uninterp spec fn str_debug(s: Seq<char>) -> Seq<char>;

/// A character that `{:?}` prints as it is inside a string: printable ASCII other
/// than the double quote and the backslash.
pub open spec fn is_plain_debug_char(c: char) -> bool {
    ' ' <= c && c <= '~' && c != '"' && c != '\\'
}

/// Whether every character of `s` is printed by `{:?}` as it is.
pub open spec fn is_plain_debug_text(s: Seq<char>) -> bool {
    forall|i: int| 0 <= i < s.len() ==> is_plain_debug_char(#[trigger] s[i])
}

/// How `{:?}` prints a string: text of plain characters between double quotes,
/// other text as `str_debug` names it.
pub open spec fn debug_text(s: Seq<char>) -> Seq<char> {
    if is_plain_debug_text(s) {
        seq!['"'] + s + seq!['"']
    } else {
        str_debug(s)
    }
}

/// How `{:?}` prints an optional string.
pub open spec fn option_str_debug(o: Option<Seq<char>>) -> Seq<char> {
    match o {
        Some(s) => "Some("@ + debug_text(s) + ")"@,
        None => "None"@,
    }
}

/// How `{:?}` prints an optional number.
pub open spec fn option_u64_debug(o: Option<u64>) -> Seq<char> {
    match o {
        Some(n) => "Some("@ + decimal(n as nat) + ")"@,
        None => "None"@,
    }
}

/// How `{:?}` prints a duration.
pub uninterp spec fn duration_debug(d: Duration) -> Seq<char>;

/// How `{:?}` prints an optional duration.
pub open spec fn option_duration_debug(o: Option<Duration>) -> Seq<char> {
    match o {
        Some(d) => "Some("@ + duration_debug(d) + ")"@,
        None => "None"@,
    }
}

fn digit_text(d: u64) -> (s: &'static str)
    requires
        d < 10,
    ensures
        s@ == seq![digit_char(d as int)],
{
    proof {
        reveal_strlit("0");
        reveal_strlit("1");
        reveal_strlit("2");
        reveal_strlit("3");
        reveal_strlit("4");
        reveal_strlit("5");
        reveal_strlit("6");
        reveal_strlit("7");
        reveal_strlit("8");
        reveal_strlit("9");
    }
    let s = if d == 0 {
        "0"
    } else if d == 1 {
        "1"
    } else if d == 2 {
        "2"
    } else if d == 3 {
        "3"
    } else if d == 4 {
        "4"
    } else if d == 5 {
        "5"
    } else if d == 6 {
        "6"
    } else if d == 7 {
        "7"
    } else if d == 8 {
        "8"
    } else {
        "9"
    };
    assert(s@ =~= seq![digit_char(d as int)]);
    s
}

/// Appends the decimal digits of `n` to `out`.
pub fn push_decimal(out: &mut String, n: u64)
    ensures
        final(out)@ == old(out)@ + decimal(n as nat),
    decreases n,
{
    if n >= 10 {
        push_decimal(out, n / 10);
    }
    out.append(digit_text(n % 10));
    assert(out@ =~= old(out)@ + decimal(n as nat));
}

/// Appends `true` or `false` to `out`.
pub fn push_bool(out: &mut String, b: bool)
    ensures
        final(out)@ == old(out)@ + bool_text(b),
{
    if b {
        out.append("true");
    } else {
        out.append("false");
    }
}

/// Calls `format!("{:?}", s)`. The contract names the result, and states what the
/// documentation of `str::escape_debug` gives for text of plain characters: the
/// text between double quotes.
#[verifier::external_body]
fn debug_str(s: &str) -> (r: String)
    ensures
        r@ == str_debug(s@),
        is_plain_debug_text(s@) ==> r@ == seq![
            '"',
        ] + s@ + seq!['"'],
{
    format!("{:?}", s)
}

/// Calls `format!("{:?}", d)` on a duration. The contract names the result.
#[verifier::external_body]
fn debug_duration(d: &Duration) -> (r: String)
    ensures
        r@ == duration_debug(*d),
{
    format!("{:?}", d)
}

/// Appends how `{:?}` prints an optional string.
pub fn push_option_str_debug(out: &mut String, o: &Option<String>)
    ensures
        final(out)@ == old(out)@ + option_str_debug(match o {
            Some(s) => Some(s@),
            None => None,
        }),
{
    match o {
        Some(s) => {
            out.append("Some(");
            let d = debug_str(s.as_str());
            out.append(d.as_str());
            out.append(")");
        },
        None => {
            out.append("None");
        },
    }
    assert(out@ =~= old(out)@ + option_str_debug(match o {
        Some(s) => Some(s@),
        None => None,
    }));
}

/// Appends how `{:?}` prints an optional number.
pub fn push_option_u64_debug(out: &mut String, o: Option<u64>)
    ensures
        final(out)@ == old(out)@ + option_u64_debug(o),
{
    match o {
        Some(n) => {
            out.append("Some(");
            push_decimal(out, n);
            out.append(")");
        },
        None => {
            out.append("None");
        },
    }
    assert(out@ =~= old(out)@ + option_u64_debug(o));
}

/// Appends how `{:?}` prints an optional duration.
pub fn push_option_duration_debug(out: &mut String, o: &Option<Duration>)
    ensures
        final(out)@ == old(out)@ + option_duration_debug(*o),
{
    match o {
        Some(d) => {
            out.append("Some(");
            let t = debug_duration(d);
            out.append(t.as_str());
            out.append(")");
        },
        None => {
            out.append("None");
        },
    }
    assert(out@ =~= old(out)@ + option_duration_debug(*o));
}

} // verus!

verus! {

/// The lowercase character of a hexadecimal digit.
pub open spec fn hex_char(d: int) -> char {
    if d < 10 {
        digit_char(d)
    } else if d == 10 {
        'a'
    } else if d == 11 {
        'b'
    } else if d == 12 {
        'c'
    } else if d == 13 {
        'd'
    } else if d == 14 {
        'e'
    } else {
        'f'
    }
}

/// The last `n` hexadecimal digits of `v`, most significant first, with leading zeros.
pub open spec fn hex_digits(v: nat, n: nat) -> Seq<char>
    decreases n,
{
    if n == 0 {
        Seq::empty()
    } else {
        hex_digits(v / 16, (n - 1) as nat).push(hex_char((v % 16) as int))
    }
}

fn hex_text(d: u128) -> (s: &'static str)
    requires
        d < 16,
    ensures
        s@ == seq![hex_char(d as int)],
{
    if d < 10 {
        digit_text(d as u64)
    } else {
        proof {
            reveal_strlit("a");
            reveal_strlit("b");
            reveal_strlit("c");
            reveal_strlit("d");
            reveal_strlit("e");
            reveal_strlit("f");
        }
        let s = if d == 10 {
            "a"
        } else if d == 11 {
            "b"
        } else if d == 12 {
            "c"
        } else if d == 13 {
            "d"
        } else if d == 14 {
            "e"
        } else {
            "f"
        };
        assert(s@ =~= seq![hex_char(d as int)]);
        s
    }
}

/// Appends the last `n` hexadecimal digits of `v`.
pub fn push_hex(out: &mut String, v: u128, n: u32)
    ensures
        final(out)@ == old(out)@ + hex_digits(v as nat, n as nat),
    decreases n,
{
    if n > 0 {
        push_hex(out, v / 16, n - 1);
        out.append(hex_text(v % 16));
    }
    assert(out@ =~= old(out)@ + hex_digits(v as nat, n as nat));
}

/// How a 128-bit identifier prints in the hyphenated form of a UUID: 32 lowercase
/// hexadecimal digits in groups of 8, 4, 4, 4 and 12.
pub open spec fn uuid_text(v: u128) -> Seq<char> {
    hex_digits((v / 0x1_0000_0000_0000_0000_0000_0000) as nat, 8) + "-"@ + hex_digits(
        ((v / 0x1_0000_0000_0000_0000_0000) % 0x1_0000) as nat,
        4,
    ) + "-"@ + hex_digits(((v / 0x1_0000_0000_0000_0000) % 0x1_0000) as nat, 4) + "-"@
        + hex_digits(((v / 0x1_0000_0000_0000) % 0x1_0000) as nat, 4) + "-"@ + hex_digits(
        (v % 0x1_0000_0000_0000) as nat,
        12,
    )
}

/// Appends the hyphenated UUID form of `v`.
pub fn push_uuid(out: &mut String, v: u128)
    ensures
        final(out)@ == old(out)@ + uuid_text(v),
{
    push_hex(out, v / 0x1_0000_0000_0000_0000_0000_0000, 8);
    out.append("-");
    push_hex(out, (v / 0x1_0000_0000_0000_0000_0000) % 0x1_0000, 4);
    out.append("-");
    push_hex(out, (v / 0x1_0000_0000_0000_0000) % 0x1_0000, 4);
    out.append("-");
    push_hex(out, (v / 0x1_0000_0000_0000) % 0x1_0000, 4);
    out.append("-");
    push_hex(out, v % 0x1_0000_0000_0000, 12);
    assert(out@ =~= old(out)@ + uuid_text(v));
}

} // verus!
