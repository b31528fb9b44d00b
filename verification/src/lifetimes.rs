//! Borrowed text: choosing between two spans without outliving either.

use vstd::prelude::*;
use vstd::utf8::encode_utf8;

verus! {

/// The length of a text span: the number of bytes its characters occupy
/// when encoded as UTF-8.
pub open spec fn span_len(text: Seq<char>) -> nat {
    encode_utf8(text).len()
}

/// The longer of two spans; the second one when neither is longer.
pub open spec fn longest_of(a: Seq<char>, b: Seq<char>) -> Seq<char> {
    if span_len(a) > span_len(b) {
        a
    } else {
        b
    }
}

/// Returns whichever of `x` and `y` is longer, and `y` when they are equally
/// long.
///
/// Both inputs share the lifetime `'a` with the result, so the result can be
/// read only while both inputs are still alive, whichever of them was chosen.
pub fn longest<'a>(x: &'a str, y: &'a str) -> (result: &'a str)
    ensures
        result@ == longest_of(x@, y@),
        span_len(x@) > span_len(y@) ==> result == x,
        span_len(x@) <= span_len(y@) ==> result == y,
        span_len(result@) >= span_len(x@),
        span_len(result@) >= span_len(y@),
{
    if x.as_bytes().len() > y.as_bytes().len() {
        x
    } else {
        y
    }
}

/// Takes ownership of a text and hands the same text back to the caller.
///
/// The argument is moved in and the result is moved out: at every moment the
/// text has exactly one owner, and nothing is copied or changed on the way.
pub fn take_and_return(s2: String) -> (returned: String)
    ensures
        returned == s2,
        returned@ == s2@,
{
    s2
}

/// The longer of two spans is at least as long as each of them, and it is the
/// second one whenever the two are equally long.
pub proof fn lemma_longest_of_is_longest(a: Seq<char>, b: Seq<char>)
    ensures
        span_len(longest_of(a, b)) >= span_len(a),
        span_len(longest_of(a, b)) >= span_len(b),
        span_len(a) == span_len(b) ==> longest_of(a, b) == b,
        span_len(a) > span_len(b) <==> longest_of(a, b) == a && a != b,
{
}

/// The longer of two spans is one of the two, character for character:
/// choosing alters nothing.
pub proof fn lemma_longest_of_is_an_input(a: Seq<char>, b: Seq<char>)
    ensures
        longest_of(a, b) == a || longest_of(a, b) == b,
        longest_of(a, b).len() == a.len() || longest_of(a, b).len() == b.len(),
        forall|i: int|
            0 <= i < longest_of(a, b).len() ==> longest_of(a, b)[i] == (if span_len(a) > span_len(
                b,
            ) {
                a[i]
            } else {
                b[i]
            }),
{
}

} // verus!
