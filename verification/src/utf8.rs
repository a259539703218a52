//! UTF-8 encoding of texts that are put together from pieces.

use vstd::prelude::*;
use vstd::utf8::encode_utf8;

verus! {

/// Encoding a text piece by piece gives the bytes of the whole: the UTF-8
/// encoding of `a + b` is that of `a` followed by that of `b`.
pub proof fn encode_utf8_concat(a: Seq<char>, b: Seq<char>)
    ensures
        encode_utf8(a + b) == encode_utf8(a) + encode_utf8(b),
    decreases a.len(),
{
    if a.len() > 0 {
        assert((a + b).drop_first() =~= a.drop_first() + b);
        encode_utf8_concat(a.drop_first(), b);
    }
}

} // verus!
