//! Names of directory entries.

use vstd::prelude::*;

verus! {

/// How many bytes of a name are held.
pub const NAME_BUF_LEN: usize = 256;

/// The name of a directory entry: the length that it declares, and the
/// bytes found behind its name pointer.
#[derive(Clone, Copy, Debug, PartialEq, Eq)]
pub struct Qstr {
    pub len: u32,
    pub name: [u8; 256],
}

/// The length that a name declares.
pub trait QstrExt {
    /// The declared length, as a number.
    spec fn spec_len(&self) -> nat;

    fn len(&self) -> (n: u32)
        ensures
            n as nat == self.spec_len(),
    ;
}

impl QstrExt for Qstr {
    open spec fn spec_len(&self) -> nat {
        self.len as nat
    }

    fn len(&self) -> (n: u32) {
        self.len
    }
}

impl Qstr {
    /// The name as the resolver takes it: the first bytes, as many as the
    /// declared length says modulo 256.
    pub open spec fn text(&self) -> Seq<u8> {
        self.name@.subrange(0, (self.len % 256) as int)
    }

    /// The name with the given bytes, its length that of the bytes.
    pub fn new(bytes: &[u8]) -> (q: Qstr)
        ensures
            q.len as nat == bytes@.len() % 0x1_0000_0000,
            q.text() == bytes@.subrange(0, (bytes@.len() % 256) as int),
    {
        let total: u64 = bytes.len() as u64;
        let low: u64 = total & 0xffff_ffff;
        proof {
            assert(total & 0xffff_ffff == total % 0x1_0000_0000) by (bit_vector);
            assert((total % 0x1_0000_0000) % 256 == total % 256) by (bit_vector);
        }
        let mut name: [u8; 256] = [0u8; 256];
        let mut i: usize = 0;
        while i < NAME_BUF_LEN && i < bytes.len()
            invariant
                0 <= i <= NAME_BUF_LEN,
                i <= bytes@.len(),
                forall|j: int| 0 <= j < i ==> name@[j] == bytes@[j],
            decreases NAME_BUF_LEN - i,
        {
            name[i] = bytes[i];
            i = i + 1;
        }
        let q = Qstr { len: low as u32, name };
        assert(q.text() =~= bytes@.subrange(0, (bytes@.len() % 256) as int));
        q
    }
}

} // verus!
