//! Small string utilities shared by the scenes.

use vstd::prelude::*;

verus! {

/// Appends one character to a `String`, through `String::push` of std.
/// Trusted: the std documentation states that `push` appends the given `char`
/// to the end of the string, which is what the `ensures` says of the view.
#[verifier::external_body]
pub(crate) fn push_char(s: &mut String, c: char)
    ensures
        final(s)@ == old(s)@.push(c),
{
    s.push(c);
}

/// The characters of `s`, in order.
pub fn chars_of(s: &str) -> (r: Vec<char>)
    ensures
        r@ == s@,
{
    let mut out: Vec<char> = Vec::new();
    for c in it: s.chars()
        invariant
            out@ == it.seq().take(it.index() as int),
            it.seq() == s@,
    {
        out.push(c);
    }
    out
}

/// `prefix` followed by `s`, as a new `String`.
pub fn prefixed(prefix: &str, s: &str) -> (r: String)
    ensures
        r@ == prefix@ + s@,
{
    let start = String::from_str(prefix);
    start.concat(s)
}

} // verus!
