//! String building used for the messages that errors carry.

use vstd::prelude::*;

verus! {

/// `String::push_str` of std: the string afterwards is the string before
/// followed by the characters of `string`.
pub assume_specification[ String::push_str ](s: &mut String, string: &str)
    ensures
        final(s)@ == old(s)@ + string@,
;

/// The text that `{:?}` writes for a string whose characters are `s`: std's
/// `Debug` for `str`, which quotes the string and escapes what cannot be
/// printed as it stands.
pub uninterp spec fn debug_text(s: Seq<char>) -> Seq<char>;

/// Formats `s` with std's `Debug` for `str`; the contract names the result.
#[verifier::external_body]
pub(crate) fn debug_quoted(s: &str) -> (r: String)
    ensures
        r@ == debug_text(s@),
{
    format!("{:?}", s)
}

/// The characters of each string of `strings`, in order.
pub open spec fn texts(strings: Seq<String>) -> Seq<Seq<char>> {
    Seq::new(strings.len(), |i: int| strings[i]@)
}

/// A copy of every string of `source`, in order.
pub fn copied(source: &Vec<String>) -> (copy: Vec<String>)
    ensures
        copy@ == source@,
{
    let mut copy: Vec<String> = Vec::new();
    let mut i: usize = 0;
    while i < source.len()
        invariant
            i <= source.len(),
            copy@ == source@.take(i as int),
        decreases source.len() - i,
    {
        copy.push(source[i].clone());
        i += 1;
    }
    copy
}

} // verus!
