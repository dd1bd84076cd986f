//! ANSI color control codes (`ESC [ params m`) and their removal from text.

use vstd::prelude::*;

verus! {

/// The regular expression that matches one ANSI color control code.
pub const ANSI_COLOR_PATTERN: &'static str = r"\x1b\[[0-9;]*m";

/// The escape character that opens a control sequence.
pub open spec fn esc() -> char {
    '\x1b'
}

/// A character allowed among the parameters of a color code: a digit or `;`.
pub open spec fn is_code_param(c: char) -> bool {
    ('0' <= c && c <= '9') || c == ';'
}

/// The number of parameter characters in `s` from position `j` on.
pub open spec fn param_run(s: Seq<char>, j: int) -> int
    decreases s.len() - j,
{
    if 0 <= j < s.len() && is_code_param(s[j]) {
        1 + param_run(s, j + 1)
    } else {
        0
    }
}

/// The length of the color code that starts at position `i` of `s`, or 0 if none does.
/// A color code is `ESC`, `[`, any number of digits and `;`, then `m`.
pub open spec fn code_len_at(s: Seq<char>, i: int) -> int {
    if 0 <= i && i + 1 < s.len() && s[i] == esc() && s[i + 1] == '[' {
        let k = i + 2 + param_run(s, i + 2);
        if k < s.len() && s[k] == 'm' {
            k + 1 - i
        } else {
            0
        }
    } else {
        0
    }
}

/// `s` with every color code removed, scanning from the left and resuming after
/// each removed code, as a regular expression replaces its non-overlapping
/// leftmost matches.
pub open spec fn strip_color_codes(s: Seq<char>) -> Seq<char>
    decreases s.len(),
{
    if s.len() == 0 {
        Seq::empty()
    } else if 0 < code_len_at(s, 0) <= s.len() {
        strip_color_codes(s.skip(code_len_at(s, 0)))
    } else {
        seq![s[0]] + strip_color_codes(s.drop_first())
    }
}

/// Calls `regex::Regex::new` on `pattern` and then `Regex::replace_all` with
/// `replacement` on `text`. Returns `None` where the pattern does not compile.
/// The contract claims that for the color-code pattern and an empty replacement
/// the result is the text with every leftmost non-overlapping match removed,
/// which is what `strip_color_codes` states; of other patterns it claims nothing.
#[verifier::external_body]
fn regex_replace_all(pattern: &str, text: &str, replacement: &str) -> (res: Option<String>)
    ensures
        pattern@ == ANSI_COLOR_PATTERN@ && replacement@ == Seq::<char>::empty() ==> (res is Some
            && res->0@ == strip_color_codes(text@)),
{
    match regex::Regex::new(pattern) {
        Ok(re) => Some(re.replace_all(text, replacement).into_owned()),
        Err(_) => None,
    }
}

/// Removes every ANSI color code from `text`.
pub fn remove_color_codes(text: &str) -> (res: String)
    ensures
        res@ == strip_color_codes(text@),
{
    let empty = "";
    proof {
        reveal_strlit("");
        assert(empty@ =~= Seq::<char>::empty());
    }
    match regex_replace_all(ANSI_COLOR_PATTERN, text, empty) {
        Some(s) => s,
        None => {
            assert(false);
            String::new()
        },
    }
}

/// What `String::from_utf8_lossy` makes of a byte sequence.
pub uninterp spec fn lossy_utf8(bytes: Seq<u8>) -> Seq<char>;

/// Calls `String::from_utf8_lossy`. The contract names its result, and states what
/// the documentation promises: valid UTF-8 is decoded as it is.
#[verifier::external_body]
pub fn utf8_lossy(bytes: &[u8]) -> (res: String)
    ensures
        res@ == lossy_utf8(bytes@),
        vstd::utf8::valid_utf8(bytes@) ==> res@ == vstd::utf8::decode_utf8(bytes@),
{
    String::from_utf8_lossy(bytes).into_owned()
}

/// Text without an escape character is left as it is.
pub proof fn lemma_plain_text_unchanged(s: Seq<char>)
    requires
        !s.contains(esc()),
    ensures
        strip_color_codes(s) == s,
    decreases s.len(),
{
    if s.len() > 0 {
        assert(s[0] != esc()) by {
            assert(s.contains(s[0]));
        }
        assert(!s.drop_first().contains(esc())) by {
            if s.drop_first().contains(esc()) {
                let j = choose|j: int| 0 <= j < s.drop_first().len() && s.drop_first()[j] == esc();
                assert(s[j + 1] == esc());
            }
        }
        lemma_plain_text_unchanged(s.drop_first());
        assert(seq![s[0]] + s.drop_first() =~= s);
    }
}

/// Removing color codes never lengthens the text.
pub proof fn lemma_strip_not_longer(s: Seq<char>)
    ensures
        strip_color_codes(s).len() <= s.len(),
    decreases s.len(),
{
    if s.len() > 0 {
        if 0 < code_len_at(s, 0) <= s.len() {
            lemma_strip_not_longer(s.skip(code_len_at(s, 0)));
        } else {
            lemma_strip_not_longer(s.drop_first());
        }
    }
}

} // verus!

verus! {

/// A color code with parameters `params`: `ESC [ params m`.
pub open spec fn color_code(params: Seq<char>) -> Seq<char> {
    seq![esc(), '['] + params + seq!['m']
}

proof fn lemma_param_run(params: Seq<char>, rest: Seq<char>, j: int)
    requires
        0 <= j <= params.len(),
        forall|i: int| 0 <= i < params.len() ==> is_code_param(#[trigger] params[i]),
    ensures
        param_run(seq![esc(), '['] + params + seq!['m'] + rest, j + 2) == params.len() - j,
    decreases params.len() - j,
{
    let s = seq![esc(), '['] + params + seq!['m'] + rest;
    if j < params.len() {
        assert(s[j + 2] == params[j]);
        lemma_param_run(params, rest, j + 1);
    } else {
        assert(s[j + 2] == 'm');
    }
}

/// A color code at the start of the text is removed, and the rest is processed as
/// if it stood alone.
pub proof fn law_leading_color_code_removed(params: Seq<char>, rest: Seq<char>)
    requires
        forall|i: int| 0 <= i < params.len() ==> is_code_param(#[trigger] params[i]),
    ensures
        strip_color_codes(color_code(params) + rest) == strip_color_codes(rest),
{
    let s = color_code(params) + rest;
    assert(s =~= seq![esc(), '['] + params + seq!['m'] + rest);
    lemma_param_run(params, rest, 0);
    assert(s[params.len() + 2int] == 'm');
    assert(code_len_at(s, 0) == params.len() + 3);
    assert(s.skip(params.len() + 3int) =~= rest);
}

/// Valid UTF-8 text without an escape character comes out of decolorizing byte for byte.
pub proof fn law_plain_text_bytes_unchanged(b: Seq<u8>)
    requires
        vstd::utf8::valid_utf8(b),
        !vstd::utf8::decode_utf8(b).contains(esc()),
    ensures
        vstd::utf8::encode_utf8(strip_color_codes(vstd::utf8::decode_utf8(b))) == b,
{
    lemma_plain_text_unchanged(vstd::utf8::decode_utf8(b));
    vstd::utf8::decode_utf8_encode_utf8(b);
}

} // verus!
