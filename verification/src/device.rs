//! The name of a block device, as its `uevent` file in sysfs tells it: the
//! text after `DEVNAME=` on the first line that begins so.

use crate::text::{from_utf8_lossy, utf8_lossy};
use vstd::prelude::*;
use vstd::slice::slice_subrange;
use vstd::string::StringSliceAdditionalSpecFns;

verus! {

/// The line feed.
pub const LF: u8 = 0x0a;

/// The carriage return.
pub const CR: u8 = 0x0d;

/// The bytes of `DEVNAME=`.
pub open spec fn devname_key() -> Seq<u8> {
    seq![0x44u8, 0x45u8, 0x56u8, 0x4eu8, 0x41u8, 0x4du8, 0x45u8, 0x3du8]
}

/// `start..end` is a line of `c`: it begins at the start of the text or
/// after a line feed, holds no line feed, and ends at one or at the end of
/// the text. Nothing follows the last line feed of a text.
pub open spec fn is_line(c: Seq<u8>, start: int, end: int) -> bool {
    &&& 0 <= start <= end <= c.len()
    &&& start < c.len()
    &&& start == 0 || c[start - 1] == LF
    &&& end == c.len() || c[end] == LF
    &&& forall|i: int| start <= i < end ==> c[i] != LF
}

/// Where the text of a line ends: before the carriage return that stands
/// before its line feed, if there is one.
pub open spec fn text_end(c: Seq<u8>, start: int, end: int) -> int {
    if end < c.len() && start < end && c[end - 1] == CR {
        end - 1
    } else {
        end
    }
}

/// The line begins with `DEVNAME=`.
pub open spec fn names_device(c: Seq<u8>, start: int, end: int) -> bool {
    &&& text_end(c, start, end) - start >= 8
    &&& c.subrange(start, start + 8) == devname_key()
}

/// `start..end` is the first line that begins with `DEVNAME=`.
pub open spec fn is_first_named(c: Seq<u8>, start: int, end: int) -> bool {
    &&& is_line(c, start, end)
    &&& names_device(c, start, end)
    &&& forall|s: int, e: int| is_line(c, s, e) && s < start ==> !names_device(c, s, e)
}

/// The name that a `uevent` text gives, if it gives one.
pub open spec fn spec_dev_name(c: Seq<u8>) -> Option<Seq<u8>> {
    if exists|s: int, e: int| is_first_named(c, s, e) {
        let (s, e) = choose|s: int, e: int| is_first_named(c, s, e);
        Some(c.subrange(s + 8, text_end(c, s, e)))
    } else {
        None
    }
}

/// A line ends where it ends: two lines with one start are one line.
pub proof fn lemma_line_end_unique(c: Seq<u8>, start: int, e1: int, e2: int)
    requires
        is_line(c, start, e1),
        is_line(c, start, e2),
    ensures
        e1 == e2,
{
    if e1 < e2 {
        assert(c[e1] != LF);
    } else if e2 < e1 {
        assert(c[e2] != LF);
    }
}

/// Only one line is the first to begin with `DEVNAME=`.
pub proof fn lemma_first_named_unique(c: Seq<u8>, s1: int, e1: int, s2: int, e2: int)
    requires
        is_first_named(c, s1, e1),
        is_first_named(c, s2, e2),
    ensures
        s1 == s2,
        e1 == e2,
{
    if s1 == s2 {
        lemma_line_end_unique(c, s1, e1, e2);
    }
}

/// The bytes of the name that a `uevent` text gives.
pub fn dev_name_bytes(c: &[u8]) -> (r: Option<(usize, usize)>)
    ensures
        match r {
            Some((from, to)) => from <= to <= c@.len() && spec_dev_name(c@) == Some(
                c@.subrange(from as int, to as int),
            ),
            None => spec_dev_name(c@) is None,
        },
{
    let len: usize = c.len();
    let mut start: usize = 0;
    while start < len
        invariant
            0 <= start <= len,
            len == c@.len(),
            start == 0 || c@[start - 1] == LF,
            forall|s: int, e: int| is_line(c@, s, e) && s < start ==> !names_device(c@, s, e),
        decreases len - start,
    {
        let mut end: usize = start;
        while end < len && c[end] != LF
            invariant
                start <= end <= len,
                len == c@.len(),
                forall|i: int| start <= i < end ==> c@[i] != LF,
            decreases len - end,
        {
            end = end + 1;
        }
        assert(is_line(c@, start as int, end as int));
        let stop: usize = if end < len && start < end && c[end - 1] == CR {
            end - 1
        } else {
            end
        };
        let mut named: bool = stop - start >= 8;
        if named {
            named = c[start] == 0x44 && c[start + 1] == 0x45 && c[start + 2] == 0x56 && c[start
                + 3] == 0x4e && c[start + 4] == 0x41 && c[start + 5] == 0x4d && c[start + 6]
                == 0x45 && c[start + 7] == 0x3d;
            proof {
                let head = c@.subrange(start as int, start + 8);
                if named {
                    assert(head =~= devname_key());
                } else {
                    assert(head[0] == c@[start as int]);
                    assert(head[1] == c@[start + 1]);
                    assert(head[2] == c@[start + 2]);
                    assert(head[3] == c@[start + 3]);
                    assert(head[4] == c@[start + 4]);
                    assert(head[5] == c@[start + 5]);
                    assert(head[6] == c@[start + 6]);
                    assert(head[7] == c@[start + 7]);
                }
            }
        }
        assert(named == names_device(c@, start as int, end as int));
        if named {
            proof {
                assert(is_first_named(c@, start as int, end as int));
                let (s, e) = choose|s: int, e: int| is_first_named(c@, s, e);
                lemma_first_named_unique(c@, s, e, start as int, end as int);
            }
            return Some((start + 8, stop));
        }
        proof {
            assert forall|s: int, e: int| is_line(c@, s, e) && s < end + 1 implies !names_device(
                c@,
                s,
                e,
            ) by {
                if s >= start {
                    if s > start {
                        assert(c@[s - 1] == LF);
                    }
                    lemma_line_end_unique(c@, start as int, e, end as int);
                }
            }
        }
        if end == len {
            return None;
        }
        start = end + 1;
    }
    None
}

/// The name that a `uevent` text gives, decoded lossily.
pub fn dev_name_from_uevent(content: &str) -> (r: Option<String>)
    ensures
        match r {
            Some(name) => spec_dev_name(content.spec_bytes()) matches Some(b) && name@
                == utf8_lossy(b),
            None => spec_dev_name(content.spec_bytes()) is None,
        },
{
    let bytes = content.as_bytes();
    match dev_name_bytes(bytes) {
        Some((from, to)) => Some(from_utf8_lossy(slice_subrange(bytes, from, to))),
        None => None,
    }
}

} // verus!
