//! Lengths of text fields, which the records cap in bytes.

use vstd::prelude::*;
use vstd::string::StringSliceAdditionalSpecFns;

verus! {

/// The number of bytes that a text takes when stored.
pub open spec fn byte_len(text: Seq<char>) -> usize {
    vstd::utf8::encode_utf8(text).len() as usize
}

/// The number of bytes that a text takes when stored.
pub fn stored_len(text: &String) -> (len: usize)
    ensures
        len == byte_len(text@),
{
    text.as_str().len()
}

} // verus!
