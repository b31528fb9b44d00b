//! Borrowed access: reading a text through a reference leaves its owner in
//! possession of it.

use vstd::prelude::*;
use crate::lifetimes::span_len;

verus! {

/// Measures a borrowed text: its length in bytes.
///
/// The text is only borrowed, so the caller still owns it, unchanged, when
/// the call returns.
pub fn process(text: &str) -> (length: usize)
    ensures
        length == span_len(text@),
{
    text.as_bytes().len()
}

} // verus!
