//! Text on its way to the client library.
//!
//! The client library takes text as a sequence of bytes that a zero byte
//! ends, so the text itself must hold none.

use vstd::prelude::*;
use vstd::utf8::encode_utf8;

verus! {

/// Whether the UTF-8 encoding of `text` holds a zero byte.
pub open spec fn holds_nul(text: Seq<char>) -> bool {
    encode_utf8(text).contains(0u8)
}

/// Whether `text` holds a zero byte, so that it cannot be handed to the
/// client library.
pub fn has_nul(text: &str) -> (found: bool)
    ensures
        found == holds_nul(text@),
{
    let bytes = text.as_bytes();
    let mut i: usize = 0;
    while i < bytes.len()
        invariant
            i <= bytes.len(),
            bytes@ == encode_utf8(text@),
            forall|j: int| 0 <= j < i ==> bytes@[j] != 0u8,
        decreases bytes.len() - i,
    {
        if bytes[i] == 0 {
            return true;
        }
        i += 1;
    }
    false
}

} // verus!
