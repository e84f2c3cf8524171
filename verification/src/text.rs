//! Bytes as text: NUL-terminated fields and lossy UTF-8 decoding.

use vstd::prelude::*;
use vstd::utf8::{decode_utf8, valid_utf8};

verus! {

/// `p` is where the text of a NUL-terminated field ends: the position of the
/// first zero byte of `s`, or the length of `s` where it holds none.
pub open spec fn is_first_nul(s: Seq<u8>, p: int) -> bool {
    &&& 0 <= p <= s.len()
    &&& forall|i: int| 0 <= i < p ==> s[i] != 0
    &&& p < s.len() ==> s[p] == 0
}

/// The length of the text of a NUL-terminated field.
pub open spec fn c_str_len(s: Seq<u8>) -> int {
    choose|p: int| is_first_nul(s, p)
}

/// The text of a NUL-terminated field: the bytes before its first zero byte.
pub open spec fn c_str_bytes(s: Seq<u8>) -> Seq<u8> {
    s.subrange(0, c_str_len(s))
}

/// Only one position ends the text of a field, so any that does is `c_str_len`.
pub proof fn lemma_first_nul_unique(s: Seq<u8>, p: int)
    requires
        is_first_nul(s, p),
    ensures
        c_str_len(s) == p,
{
    let q = c_str_len(s);
    assert(is_first_nul(s, q));
    if q < p {
        assert(s[q] != 0);
    } else if p < q {
        assert(s[p] != 0);
    }
}

/// The position of the first zero byte of `bytes`, or their number where
/// none is zero.
pub fn first_nul(bytes: &[u8]) -> (p: usize)
    ensures
        is_first_nul(bytes@, p as int),
        p as int == c_str_len(bytes@),
{
    let mut i: usize = 0;
    while i < bytes.len() && bytes[i] != 0
        invariant
            0 <= i <= bytes.len(),
            forall|j: int| 0 <= j < i ==> bytes@[j] != 0,
        decreases bytes.len() - i,
    {
        i = i + 1;
    }
    proof {
        lemma_first_nul_unique(bytes@, i as int);
    }
    i
}

/// What lossy UTF-8 decoding makes of a byte string: its text where the bytes
/// are valid UTF-8, and else that text with each invalid sequence replaced by
/// U+FFFD.
pub uninterp spec fn utf8_lossy(bytes: Seq<u8>) -> Seq<char>;

/// `String::from_utf8_lossy` of std. The result is a function of the bytes
/// alone; on valid UTF-8 it is the text that the bytes encode.
#[verifier::external_body]
pub(crate) fn from_utf8_lossy(bytes: &[u8]) -> (s: String)
    ensures
        s@ == utf8_lossy(bytes@),
        valid_utf8(bytes@) ==> s@ == decode_utf8(bytes@),
{
    String::from_utf8_lossy(bytes).into_owned()
}

/// The text of a NUL-terminated field, decoded lossily.
pub fn c_str_lossy(field: &[u8]) -> (s: String)
    ensures
        s@ == utf8_lossy(c_str_bytes(field@)),
{
    let end = first_nul(field);
    let text = vstd::slice::slice_subrange(field, 0, end);
    from_utf8_lossy(text)
}

} // verus!
