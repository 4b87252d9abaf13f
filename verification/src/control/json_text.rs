//! JSON text of strings, as serde_json writes it.

use vstd::prelude::*;

use crate::numtext::digit_char;

verus! {

/// The JSON text of one character inside a string literal: `"` and `\`
/// are escaped, the control characters below U+0020 are written as
/// `\b \t \n \f \r` or `\u00XX` (lower-case hex), anything else as itself.
pub open spec fn json_char(c: char) -> Seq<char> {
    let n = c as u32;
    if c == '"' {
        seq!['\\', '"']
    } else if c == '\\' {
        seq!['\\', '\\']
    } else if n == 8 {
        seq!['\\', 'b']
    } else if n == 9 {
        seq!['\\', 't']
    } else if n == 10 {
        seq!['\\', 'n']
    } else if n == 12 {
        seq!['\\', 'f']
    } else if n == 13 {
        seq!['\\', 'r']
    } else if n < 32 {
        seq!['\\', 'u', '0', '0', digit_char((n / 16) as nat), digit_char((n % 16) as nat)]
    } else {
        seq![c]
    }
}

/// The escaped contents of a JSON string literal.
pub open spec fn json_escaped(s: Seq<char>) -> Seq<char>
    decreases s.len(),
{
    if s.len() == 0 {
        Seq::empty()
    } else {
        json_escaped(s.drop_last()) + json_char(s.last())
    }
}

/// A JSON string literal: the escaped text between double quotes.
pub open spec fn json_quoted(s: Seq<char>) -> Seq<char> {
    seq!['"'] + json_escaped(s) + seq!['"']
}

/// Whether a character is written escaped inside a JSON string literal.
pub open spec fn needs_escape(c: char) -> bool {
    c == '"' || c == '\\' || (c as u32) < 32
}

/// A text without quotes, backslashes or control characters is written
/// inside its JSON string literal exactly as it is.
pub proof fn law_plain_text_verbatim(s: Seq<char>)
    requires
        forall|i: int| 0 <= i < s.len() ==> !needs_escape(#[trigger] s[i]),
    ensures
        json_escaped(s) == s,
        json_quoted(s) == seq!['"'] + s + seq!['"'],
    decreases s.len(),
{
    if s.len() > 0 {
        let init = s.drop_last();
        assert forall|i: int| 0 <= i < init.len() implies !needs_escape(#[trigger] init[i]) by {
            assert(init[i] == s[i]);
        }
        law_plain_text_verbatim(init);
        assert(!needs_escape(s[s.len() - 1]));
        assert(json_char(s.last()) == seq![s.last()]);
        assert(init + seq![s.last()] =~= s);
    }
}

/// `serde_json::to_string` of a `&str`: the string as a JSON string literal.
/// Serialising a `str` into a `String` cannot fail (the writer is a `Vec`
/// and `str` serialises as a plain string), so the error arm is never taken.
#[verifier::external_body]
pub(crate) fn json_quote(s: &str) -> (r: String)
    ensures
        r@ == json_quoted(s@),
{
    match serde_json::to_string(s) {
        Ok(text) => text,
        Err(_) => String::new(),
    }
}

} // verus!
