//! Strings as sequences of characters, and the helpers that the other
//! modules share.

use vstd::prelude::*;
use vstd::string::*;

verus! {

/// What `Option<&str>` holds, as characters.
pub open spec fn opt_str_view(s: Option<&str>) -> Option<Seq<char>> {
    match s {
        Some(s) => Some(s@),
        None => None,
    }
}

/// What `Option<String>` holds, as characters.
pub open spec fn opt_string_view(s: Option<String>) -> Option<Seq<char>> {
    match s {
        Some(s) => Some(s@),
        None => None,
    }
}

/// What `Option<Option<String>>` holds, as characters.
pub open spec fn opt_opt_string_view(s: Option<Option<String>>) -> Option<Option<Seq<char>>> {
    match s {
        Some(s) => Some(opt_string_view(s)),
        None => None,
    }
}

/// What a sequence of strings holds, as characters.
pub open spec fn strings_view(strings: Seq<String>) -> Seq<Seq<char>> {
    Seq::new(strings.len(), |i: int| strings[i]@)
}

/// What a sequence of optional strings holds, as characters.
pub open spec fn opt_strings_view(strings: Seq<Option<String>>) -> Seq<Option<Seq<char>>> {
    Seq::new(strings.len(), |i: int| opt_string_view(strings[i]))
}

/// Calls `String::push`. The contract claims what its documentation says:
/// the character is appended to the end of the string.
#[verifier::external_body]
pub(crate) fn push_char(text: &mut String, c: char)
    ensures
        final(text)@ == old(text)@.push(c),
{
    text.push(c)
}

/// Whether two string slices hold the same characters.
pub fn str_eq(a: &str, b: &str) -> (r: bool)
    ensures
        r == (a@ == b@),
{
    let x = a.to_owned();
    let y = b.to_owned();
    x == y
}

/// What an optional string holds, borrowed.
pub fn opt_as_str(s: &Option<String>) -> (r: Option<&str>)
    ensures
        opt_str_view(r) == opt_string_view(*s),
{
    match s {
        Some(s) => Some(s.as_str()),
        None => None,
    }
}

/// Whether `text` begins with `prefix`.
pub open spec fn starts_with(text: Seq<char>, prefix: Seq<char>) -> bool {
    prefix.len() <= text.len() && text.subrange(0, prefix.len() as int) == prefix
}

/// Whether `text` begins with `prefix`.
pub fn has_prefix(text: &str, prefix: &str) -> (r: bool)
    ensures
        r == starts_with(text@, prefix@),
{
    let n = prefix.unicode_len();
    if text.unicode_len() < n {
        return false;
    }
    let mut i: usize = 0;
    while i < n
        invariant
            i <= n,
            n == prefix@.len(),
            n <= text@.len(),
            forall|k: int| 0 <= k < i ==> text@[k] == prefix@[k],
        decreases n - i,
    {
        if text.get_char(i) != prefix.get_char(i) {
            assert(text@.subrange(0, n as int)[i as int] != prefix@[i as int]);
            return false;
        }
        i += 1;
    }
    assert(text@.subrange(0, n as int) =~= prefix@);
    true
}

} // verus!
