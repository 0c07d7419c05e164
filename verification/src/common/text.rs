//! Operations on text that the readers share.
use vstd::prelude::*;
use vstd::string::StringExecFns;

verus! {

/// `text` without the white space at its start and at its end, where white
/// space is what Unicode calls so.
pub uninterp spec fn trimmed(text: Seq<char>) -> Seq<char>;

/// The text without leading and trailing white space.
///
/// Calls `str::trim`, which removes the characters at both ends that have
/// the Unicode property `White_Space`.
#[verifier::external_body]
pub(crate) fn trim_text(text: &str) -> (out: &str)
    ensures
        out@ == trimmed(text@),
{
    text.trim()
}

/// A text that has characters; `None` for the empty text.
pub fn non_empty(text: &str) -> (kept: Option<String>)
    ensures
        text@.len() == 0 ==> kept is None,
        text@.len() > 0 ==> kept is Some && kept->Some_0@ == text@,
{
    if text.is_empty() {
        None
    } else {
        Some(text.to_owned())
    }
}

/// The two texts one after the other.
pub fn join_text(a: &str, b: &str) -> (out: String)
    ensures
        out@ == a@ + b@,
{
    String::from_str(a).concat(b)
}

} // verus!
