//! JSON string encoding, done by `serde_json`.

use vstd::prelude::*;
use vstd::string::*;

verus! {

#[verifier::external_type_specification]
#[verifier::external_body]
pub struct ExJsonError(serde_json::Error);

/// The JSON text that `serde_json::to_string` produces for a string.
pub uninterp spec fn json_string_text(s: Seq<char>) -> Seq<char>;

/// A character that JSON string encoding copies unchanged: neither a quote,
/// nor a backslash, nor a control character below U+0020.
pub open spec fn is_literal_char(c: char) -> bool {
    c != '"' && c != '\\' && c >= ' '
}

/// A string made of literal characters only.
pub open spec fn is_literal(s: Seq<char>) -> bool {
    forall|i: int| 0 <= i < s.len() ==> is_literal_char(#[trigger] s[i])
}

/// The string between two double quotes.
pub open spec fn quoted(s: Seq<char>) -> Seq<char> {
    seq!['"'] + s + seq!['"']
}

/// Calls `serde_json::to_string` on a string slice.
///
/// Trusted: the call succeeds on every string (a string has no failing
/// `Serialize` impl and no map keys, and the output is written to memory); the
/// text is a function of the string alone; and a string without quotes,
/// backslashes and control characters comes back unchanged between two double
/// quotes.
#[verifier::external_body]
pub(crate) fn to_json_string(s: &str) -> (out: Result<String, serde_json::Error>)
    ensures
        out is Ok,
        out matches Ok(text) ==> text@ == json_string_text(s@),
        out matches Ok(text) ==> (is_literal(s@) ==> text@ == quoted(s@)),
{
    serde_json::to_string(s)
}

} // verus!
