//! The command line of a process, as `/proc/<pid>/cmdline` holds it:
//! arguments separated by zero bytes.

use crate::text::{
    first_nul, from_utf8_lossy, is_first_nul, lemma_first_nul_unique, utf8_lossy,
};
use vstd::prelude::*;

verus! {

/// A command line and where its first argument, the program's name, ends.
pub struct Cmdline {
    data: Vec<u8>,
    name_end_index: usize,
}

/// Where the name ends in the raw bytes `s`: at the first zero byte, or, where
/// there is none, one byte before the end.
pub open spec fn name_end(s: Seq<u8>) -> int {
    if exists|i: int| 0 <= i < s.len() && s[i] == 0 {
        choose|p: int| is_first_nul(s, p)
    } else if s.len() == 0 {
        0
    } else {
        s.len() - 1
    }
}

impl Cmdline {
    /// The raw bytes.
    pub closed spec fn bytes(&self) -> Seq<u8> {
        self.data@
    }

    /// The bytes of the program's name.
    pub closed spec fn name_bytes(&self) -> Seq<u8> {
        self.data@.subrange(0, self.name_end_index as int)
    }

    /// The name ends where `name_end` says.
    #[verifier::type_invariant]
    spec fn inv(&self) -> bool {
        self.name_end_index as int == name_end(self.data@)
    }

    pub fn new(data: Vec<u8>) -> (c: Cmdline)
        ensures
            c.bytes() == data@,
            c.name_bytes() == data@.subrange(0, name_end(data@)),
    {
        let p = first_nul(data.as_slice());
        let name_end_index: usize = if p < data.len() {
            p
        } else if data.len() == 0 {
            0
        } else {
            data.len() - 1
        };
        proof {
            if p < data.len() {
                assert(data@[p as int] == 0);
                lemma_first_nul_unique(data@, p as int);
            } else {
                assert(forall|i: int| 0 <= i < data@.len() ==> data@[i] != 0);
            }
        }
        Cmdline { data, name_end_index }
    }

    /// The program's name, decoded lossily.
    pub fn name(&self) -> (n: String)
        ensures
            n@ == utf8_lossy(self.name_bytes()),
    {
        proof {
            use_type_invariant(self);
            lemma_name_end_in_range(self.data@);
        }
        let text = vstd::slice::slice_subrange(self.data.as_slice(), 0, self.name_end_index);
        from_utf8_lossy(text)
    }
}

/// The name ends inside the bytes.
pub proof fn lemma_name_end_in_range(s: Seq<u8>)
    ensures
        0 <= name_end(s) <= s.len(),
{
    if exists|i: int| 0 <= i < s.len() && s[i] == 0 {
        lemma_has_first_nul(s);
    }
}

/// Every byte string has a position where its NUL-terminated text ends.
pub proof fn lemma_has_first_nul(s: Seq<u8>)
    ensures
        exists|p: int| is_first_nul(s, p),
    decreases s.len(),
{
    if s.len() == 0 {
        assert(is_first_nul(s, 0));
    } else {
        let t = s.drop_last();
        lemma_has_first_nul(t);
        let p = choose|p: int| is_first_nul(t, p);
        if p < t.len() {
            assert(t[p] == s[p]);
            assert forall|i: int| 0 <= i < p implies s[i] != 0 by {
                assert(t[i] == s[i]);
            }
            assert(is_first_nul(s, p));
        } else if s[s.len() - 1] == 0 {
            assert forall|i: int| 0 <= i < p implies s[i] != 0 by {
                assert(t[i] == s[i]);
            }
            assert(is_first_nul(s, p));
        } else {
            assert forall|i: int| 0 <= i < s.len() implies s[i] != 0 by {
                if i < p {
                    assert(t[i] == s[i]);
                }
            }
            assert(is_first_nul(s, s.len() as int));
        }
    }
}

} // verus!
