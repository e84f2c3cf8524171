//! What the exporter works out when it starts: the texts of the machine's
//! identity, and the list of its own process and ancestors, whose accesses
//! are not reported.

use crate::fmt::digit_value;
use crate::probe::FILTER_LEN;
use vstd::prelude::*;
use vstd::string::{StrSliceExecFns, StringExecFns};

verus! {

/// The text that stands for what could not be found out.
pub const UNKNOWN: &'static str = "unknown";

/// The character is white space: a code point with the property
/// `White_Space`.
pub open spec fn spec_is_whitespace(c: char) -> bool {
    let u = c as u32;
    ||| 0x09 <= u <= 0x0d
    ||| u == 0x20
    ||| u == 0x85
    ||| u == 0xa0
    ||| u == 0x1680
    ||| 0x2000 <= u <= 0x200a
    ||| u == 0x2028
    ||| u == 0x2029
    ||| u == 0x202f
    ||| u == 0x205f
    ||| u == 0x3000
}

pub fn is_whitespace(c: char) -> (b: bool)
    ensures
        b == spec_is_whitespace(c),
{
    let u: u32 = c as u32;
    (0x09 <= u && u <= 0x0d) || u == 0x20 || u == 0x85 || u == 0xa0 || u == 0x1680 || (0x2000 <= u
        && u <= 0x200a) || u == 0x2028 || u == 0x2029 || u == 0x202f || u == 0x205f || u == 0x3000
}

/// `from..to` is what is left of `s` without the white space at its ends.
pub open spec fn is_trimmed(s: Seq<char>, from: int, to: int) -> bool {
    &&& 0 <= from <= to <= s.len()
    &&& forall|i: int| 0 <= i < from ==> spec_is_whitespace(s[i])
    &&& forall|i: int| to <= i < s.len() ==> spec_is_whitespace(s[i])
    &&& from < to ==> !spec_is_whitespace(s[from]) && !spec_is_whitespace(s[to - 1])
    &&& from == to ==> from == s.len()
}

/// A text without the white space at its ends.
pub fn trim(s: &str) -> (r: (usize, usize))
    ensures
        is_trimmed(s@, r.0 as int, r.1 as int),
{
    let len: usize = s.unicode_len();
    let mut from: usize = 0;
    while from < len && is_whitespace(s.get_char(from))
        invariant
            0 <= from <= len,
            len == s@.len(),
            forall|i: int| 0 <= i < from ==> spec_is_whitespace(s@[i]),
        decreases len - from,
    {
        from = from + 1;
    }
    let mut to: usize = len;
    while to > from && is_whitespace(s.get_char(to - 1))
        invariant
            from <= to <= len,
            len == s@.len(),
            forall|i: int| to <= i < len ==> spec_is_whitespace(s@[i]),
        decreases to,
    {
        to = to - 1;
    }
    (from, to)
}

/// The identifier of the machine: the text of `/etc/machine-id` without
/// the white space at its ends, or `unknown` where it could not be read.
pub fn machine_id(read: Option<&str>) -> (id: String)
    ensures
        match read {
            Some(text) => exists|from: int, to: int|
                #[trigger] is_trimmed(text@, from, to) && id@ == text@.subrange(from, to),
            None => id@ == UNKNOWN@,
        },
{
    match read {
        Some(text) => {
            let (from, to) = trim(text);
            String::from_str(text.substring_char(from, to))
        },
        None => String::from_str(UNKNOWN),
    }
}

/// The name of the host, or `unknown` where it could not be found out.
pub fn hostname(read: Option<String>) -> (name: String)
    ensures
        match read {
            Some(h) => name@ == h@,
            None => name@ == UNKNOWN@,
        },
{
    match read {
        Some(h) => h,
        None => String::from_str(UNKNOWN),
    }
}

/// The texts in one, with a comma between each two.
pub open spec fn joined(parts: Seq<Seq<char>>) -> Seq<char>
    decreases parts.len(),
{
    if parts.len() == 0 {
        Seq::empty()
    } else if parts.len() == 1 {
        parts[0]
    } else {
        joined(parts.drop_last()) + ","@ + parts.last()
    }
}

/// The addresses as one text, separated by commas.
pub fn join_addresses(parts: &Vec<String>) -> (s: String)
    ensures
        s@ == joined(parts@.map_values(|p: String| p@)),
{
    let ghost texts = parts@.map_values(|p: String| p@);
    let mut s = String::new();
    let mut i: usize = 0;
    while i < parts.len()
        invariant
            0 <= i <= parts.len(),
            texts == parts@.map_values(|p: String| p@),
            s@ == joined(texts.subrange(0, i as int)),
        decreases parts.len() - i,
    {
        if i > 0 {
            s.append(",");
        }
        s.append(parts[i].as_str());
        proof {
            let upto = texts.subrange(0, i + 1);
            assert(upto.drop_last() =~= texts.subrange(0, i as int));
            assert(upto.last() == parts@[i as int]@);
        }
        i = i + 1;
    }
    assert(texts.subrange(0, i as int) =~= texts);
    s
}

/// A field of a line begins at `i`: a character that is no white space,
/// at the start of the line or after white space.
pub open spec fn is_field_start(s: Seq<char>, i: int) -> bool {
    &&& 0 <= i < s.len()
    &&& !spec_is_whitespace(s[i])
    &&& i == 0 || spec_is_whitespace(s[i - 1])
}

/// How many fields begin before `i`.
pub open spec fn fields_before(s: Seq<char>, i: int) -> nat
    decreases i,
{
    if i <= 0 {
        0
    } else {
        fields_before(s, i - 1) + if is_field_start(s, i - 1) {
            1nat
        } else {
            0nat
        }
    }
}

/// The field that begins at `from` ends before `to`.
pub open spec fn is_field(s: Seq<char>, from: int, to: int) -> bool {
    &&& is_field_start(s, from)
    &&& from < to <= s.len()
    &&& forall|i: int| from <= i < to ==> !spec_is_whitespace(s[i])
    &&& to == s.len() || spec_is_whitespace(s[to])
}

/// Field `n` of a line, counted from 0, fields being what white space
/// separates.
pub fn nth_field(s: &str, n: usize) -> (r: Option<(usize, usize)>)
    ensures
        match r {
            Some((from, to)) => is_field(s@, from as int, to as int) && fields_before(
                s@,
                from as int,
            ) == n,
            None => fields_before(s@, s@.len() as int) <= n,
        },
{
    let len: usize = s.unicode_len();
    let mut i: usize = 0;
    let mut seen: usize = 0;
    while i < len
        invariant
            0 <= i <= len,
            len == s@.len(),
            seen == fields_before(s@, i as int),
            seen <= n,
            seen <= i,
            i == 0 || spec_is_whitespace(s@[i - 1]),
        decreases len - i,
    {
        if is_whitespace(s.get_char(i)) {
            i = i + 1;
        } else {
            assert(is_field_start(s@, i as int));
            let from: usize = i;
            let mut to: usize = i + 1;
            while to < len && !is_whitespace(s.get_char(to))
                invariant
                    from < to <= len,
                    len == s@.len(),
                    seen <= from,
                    seen == fields_before(s@, from as int),
                    is_field_start(s@, from as int),
                    fields_before(s@, to as int) == seen + 1,
                    forall|k: int| from <= k < to ==> !spec_is_whitespace(s@[k]),
                decreases len - to,
            {
                to = to + 1;
            }
            if seen == n {
                return Some((from, to));
            }
            seen = seen + 1;
            if to == len {
                return None;
            }
            i = to + 1;
        }
    }
    None
}

/// The number that a run of decimal digits writes.
pub open spec fn digits_value(d: Seq<char>) -> nat
    decreases d.len(),
{
    if d.len() == 0 {
        0
    } else {
        digits_value(d.drop_last()) * 10 + digit_value(d.last())
    }
}

/// Every character is a decimal digit.
pub open spec fn all_digits(d: Seq<char>) -> bool {
    forall|i: int| 0 <= i < d.len() ==> '0' <= #[trigger] d[i] <= '9'
}

/// The number that a text writes: decimal digits, at least one, after at
/// most one `+`, that make a number which 32 bits hold.
pub open spec fn spec_parse_u32(t: Seq<char>) -> Option<u32> {
    if t.len() > 0 && t[0] == '+' {
        spec_parse_digits(t.skip(1))
    } else {
        spec_parse_digits(t)
    }
}

/// The number that a run of digits writes, if it is one, not empty, and
/// 32 bits hold the number.
pub open spec fn spec_parse_digits(d: Seq<char>) -> Option<u32> {
    if d.len() > 0 && all_digits(d) && digits_value(d) <= u32::MAX {
        Some(digits_value(d) as u32)
    } else {
        None
    }
}

/// A longer run of digits writes no smaller number.
pub proof fn lemma_digits_value_grows(d: Seq<char>, n: int)
    requires
        0 <= n <= d.len(),
    ensures
        digits_value(d.subrange(0, n)) <= digits_value(d),
    decreases d.len() - n,
{
    if n == d.len() {
        assert(d.subrange(0, n) =~= d);
    } else {
        lemma_digits_value_grows(d.drop_last(), n);
        assert(d.drop_last().subrange(0, n) =~= d.subrange(0, n));
    }
}

/// Reads a number of 32 bits from the characters `from..to` of a text.
pub fn parse_u32(s: &str, from: usize, to: usize) -> (r: Option<u32>)
    requires
        from <= to <= s@.len(),
    ensures
        r == spec_parse_u32(s@.subrange(from as int, to as int)),
{
    let ghost t = s@.subrange(from as int, to as int);
    let mut i: usize = from;
    if i < to && s.get_char(i) == '+' {
        i = i + 1;
    }
    let start: usize = i;
    let ghost d = s@.subrange(start as int, to as int);
    proof {
        if t.len() > 0 && t[0] == '+' {
            assert(t.skip(1) =~= d);
        } else {
            assert(t =~= d);
        }
    }
    if start == to {
        return None;
    }
    let mut acc: u64 = 0;
    while i < to
        invariant
            start <= i <= to,
            to <= s@.len(),
            d == s@.subrange(start as int, to as int),
            from <= start < to,
            spec_parse_u32(s@.subrange(from as int, to as int)) == spec_parse_digits(d),
            all_digits(d.subrange(0, i - start)),
            acc == digits_value(d.subrange(0, i - start)),
            acc <= u32::MAX,
        decreases to - i,
    {
        let c: char = s.get_char(i);
        if c < '0' || c > '9' {
            assert(d[i - start] == c);
            return None;
        }
        let v: u64 = acc * 10 + (c as u32 - 0x30) as u64;
        proof {
            let next = d.subrange(0, i + 1 - start);
            assert(next.drop_last() =~= d.subrange(0, i - start));
            assert(next.last() == c);
            assert(v == digits_value(next));
            assert(all_digits(next)) by {
                assert forall|k: int| 0 <= k < next.len() implies '0' <= #[trigger] next[k]
                    <= '9' by {
                    if k < next.len() - 1 {
                        assert(next[k] == d.subrange(0, i - start)[k]);
                    }
                }
            }
            if v > u32::MAX {
                lemma_digits_value_grows(d, i + 1 - start);
            }
        }
        if v > 0xffff_ffff {
            return None;
        }
        acc = v;
        i = i + 1;
    }
    assert(d.subrange(0, to - start) =~= d);
    Some(acc as u32)
}

/// Why the parent of a process could not be told from its `stat` line.
#[derive(Clone, Copy, Debug, PartialEq, Eq, Structural)]
pub enum PpidError {
    /// The line has fewer than four fields.
    Missing,
    /// The fourth field is no number of 32 bits.
    Invalid,
}

/// The parent of a process, as its `stat` line tells it: the number in the
/// fourth field.
pub fn get_ppid(stat: &str) -> (r: Result<u32, PpidError>)
    ensures
        match r {
            Ok(ppid) => exists|from: int, to: int|
                #[trigger] is_field(stat@, from, to) && fields_before(stat@, from) == 3
                    && spec_parse_u32(stat@.subrange(from, to)) == Some(ppid),
            Err(PpidError::Missing) => fields_before(stat@, stat@.len() as int) <= 3,
            Err(PpidError::Invalid) => exists|from: int, to: int|
                #[trigger] is_field(stat@, from, to) && fields_before(stat@, from) == 3
                    && spec_parse_u32(stat@.subrange(from, to)) is None,
        },
{
    match nth_field(stat, 3) {
        None => Err(PpidError::Missing),
        Some((from, to)) => match parse_u32(stat, from, to) {
            Some(ppid) => Ok(ppid),
            None => Err(PpidError::Invalid),
        },
    }
}

/// The list of a process and its ancestors, as far as it is known.
#[derive(Clone, Copy, Debug, PartialEq, Eq)]
pub struct PpidPath {
    /// The process, its parent, and further ancestors; the rest is 0.
    pub pids: [u32; 16],
    /// How many places are filled.
    pub filled: usize,
    /// The ancestor whose parent is asked for next.
    pub last: u32,
    /// The chain has come to its end.
    pub done: bool,
}

impl PpidPath {
    pub open spec fn wf(self) -> bool {
        &&& 2 <= self.filled <= FILTER_LEN
        &&& forall|i: int| self.filled <= i < FILTER_LEN ==> self.pids@[i] == 0
    }

    /// The list is complete: it is full, or the chain came to process 0 or 1.
    pub open spec fn complete(self) -> bool {
        self.done || self.filled == FILTER_LEN
    }

    /// The list of a process and its parent.
    pub fn new(pid: u32, ppid: u32) -> (p: PpidPath)
        ensures
            p.wf(),
            p.filled == 2,
            p.pids@[0] == pid,
            p.pids@[1] == ppid,
            p.last == ppid,
            !p.done,
    {
        let mut pids = [0u32; 16];
        pids[0] = pid;
        pids[1] = ppid;
        PpidPath { pids, filled: 2, last: ppid, done: false }
    }

    /// The process whose parent is to be looked up next; none once the list
    /// is complete.
    pub fn next_query(&self) -> (q: Option<u32>)
        requires
            self.wf(),
        ensures
            q == if self.complete() {
                None::<u32>
            } else {
                Some(self.last)
            },
    {
        if self.done || self.filled == FILTER_LEN {
            None
        } else {
            Some(self.last)
        }
    }

    /// Takes the parent that was looked up. Process 0 or 1 ends the chain
    /// and is not listed; any other is listed and asked about next.
    pub fn push(&mut self, parent: u32)
        requires
            old(self).wf(),
            !old(self).complete(),
        ensures
            final(self).wf(),
            final(self).last == parent,
            parent == 0 || parent == 1 ==> final(self).done && final(self).pids == old(self).pids
                && final(self).filled == old(self).filled,
            parent > 1 ==> !final(self).done && final(self).filled == old(self).filled + 1
                && final(self).pids@ == old(self).pids@.update(old(self).filled as int, parent),
    {
        self.last = parent;
        if parent == 0 || parent == 1 {
            self.done = true;
        } else {
            self.pids[self.filled] = parent;
            self.filled = self.filled + 1;
        }
    }
}

} // verus!
