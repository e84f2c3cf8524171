//! The identity of the machine, attached to every metric, and the choice of
//! the addresses that it is known by.

use vstd::prelude::*;

verus! {

/// An address of the Internet Protocol: four octets, or eight segments of
/// sixteen bits, most significant first.
#[derive(Clone, Copy, Debug, PartialEq, Eq)]
pub enum IpAddr {
    V4([u8; 4]),
    V6([u16; 8]),
}

/// What is known of the machine, gathered once.
pub struct MachineInfo {
    /// The stable identifier of the machine.
    pub id: String,
    /// The addresses, in order and without repetition.
    pub ips: Vec<IpAddr>,
    /// The addresses as text, separated by commas.
    pub string_ips: String,
    pub hostname: String,
}

impl IpAddr {
    /// The place of an address in the order of addresses: those of version 4
    /// first, by their value, then those of version 6, by theirs.
    pub open spec fn rank(self) -> int {
        match self {
            IpAddr::V4(o) => o@[0] * 0x100_0000 + o@[1] * 0x1_0000 + o@[2] * 0x100 + o@[3],
            IpAddr::V6(s) => 0x1_0000_0000 + s@[7] + 0x1_0000 * (s@[6] + 0x1_0000 * (s@[5]
                + 0x1_0000 * (s@[4] + 0x1_0000 * (s@[3] + 0x1_0000 * (s@[2] + 0x1_0000 * (s@[1]
                + 0x1_0000 * s@[0])))))),
        }
    }

    /// 127.0.0.0/8, or ::1.
    pub open spec fn spec_is_loopback(self) -> bool {
        match self {
            IpAddr::V4(o) => o@[0] == 127,
            IpAddr::V6(s) => s@[0] == 0 && s@[1] == 0 && s@[2] == 0 && s@[3] == 0 && s@[4] == 0
                && s@[5] == 0 && s@[6] == 0 && s@[7] == 1,
        }
    }

    /// 0.0.0.0, or ::.
    pub open spec fn spec_is_unspecified(self) -> bool {
        match self {
            IpAddr::V4(o) => o@[0] == 0 && o@[1] == 0 && o@[2] == 0 && o@[3] == 0,
            IpAddr::V6(s) => s@[0] == 0 && s@[1] == 0 && s@[2] == 0 && s@[3] == 0 && s@[4] == 0
                && s@[5] == 0 && s@[6] == 0 && s@[7] == 0,
        }
    }

    /// An address that serves on one link or one site only: 169.254.0.0/16,
    /// the three documentation ranges, 10.0.0.0/8, 172.16.0.0/12 and
    /// 192.168.0.0/16; or fc00::/7.
    pub open spec fn spec_is_local(self) -> bool {
        match self {
            IpAddr::V4(o) => {
                ||| o@[0] == 169 && o@[1] == 254
                ||| o@[0] == 192 && o@[1] == 0 && o@[2] == 2
                ||| o@[0] == 198 && o@[1] == 51 && o@[2] == 100
                ||| o@[0] == 203 && o@[1] == 0 && o@[2] == 113
                ||| o@[0] == 10
                ||| o@[0] == 172 && 16 <= o@[1] <= 31
                ||| o@[0] == 192 && o@[1] == 168
            },
            IpAddr::V6(s) => 0xfc00 <= s@[0] <= 0xfdff,
        }
    }

    /// The address of an interface is kept: it is neither the loopback nor
    /// unspecified nor local.
    pub open spec fn spec_is_public(self) -> bool {
        !self.spec_is_loopback() && !self.spec_is_unspecified() && !self.spec_is_local()
    }

    pub fn is_public(&self) -> (b: bool)
        ensures
            b == self.spec_is_public(),
    {
        match self {
            IpAddr::V4(o) => {
                let a: u8 = o[0];
                let b: u8 = o[1];
                let c: u8 = o[2];
                let d: u8 = o[3];
                if a == 127 {
                    return false;
                }
                let link_local: bool = a == 169 && b == 254;
                let documentation: bool = (a == 192 && b == 0 && c == 2) || (a == 198 && b == 51
                    && c == 100) || (a == 203 && b == 0 && c == 113);
                let unspecified: bool = a == 0 && b == 0 && c == 0 && d == 0;
                let private: bool = a == 10 || (a == 172 && b >= 16 && b <= 31) || (a == 192 && b
                    == 168);
                !(link_local || documentation || unspecified || private)
            },
            IpAddr::V6(s) => {
                let upper_zero: bool = s[0] == 0 && s[1] == 0 && s[2] == 0 && s[3] == 0 && s[4]
                    == 0 && s[5] == 0 && s[6] == 0;
                if upper_zero && (s[7] == 0 || s[7] == 1) {
                    return false;
                }
                let first: u16 = s[0];
                assert((first & 0xfe00 == 0xfc00) == (0xfc00 <= first <= 0xfdff)) by (bit_vector);
                first & 0xfe00 != 0xfc00
            },
        }
    }

    /// The place of the address in the order, as a version and a value.
    fn key(&self) -> (k: (u8, u128))
        ensures
            k.0 == 0 || k.0 == 1,
            k.0 == 0 ==> self.rank() == k.1,
            k.0 == 1 ==> self.rank() == 0x1_0000_0000 + k.1,
            k.0 == 0 ==> k.1 < 0x1_0000_0000,
            k.0 == 0 <==> self is V4,
    {
        match self {
            IpAddr::V4(o) => (
                0,
                o[0] as u128 * 0x100_0000 + o[1] as u128 * 0x1_0000 + o[2] as u128 * 0x100
                    + o[3] as u128,
            ),
            IpAddr::V6(s) => {
                let hi: u128 = s[3] as u128 + 0x1_0000 * (s[2] as u128 + 0x1_0000 * (s[1] as u128
                    + 0x1_0000 * (s[0] as u128)));
                let lo: u128 = s[7] as u128 + 0x1_0000 * (s[6] as u128 + 0x1_0000 * (s[5] as u128
                    + 0x1_0000 * (s[4] as u128)));
                (1, lo + 0x1_0000_0000_0000_0000 * hi)
            },
        }
    }

    /// `self` stands before `other` in the order of addresses.
    pub fn less(&self, other: &IpAddr) -> (b: bool)
        ensures
            b == (self.rank() < other.rank()),
    {
        let a = self.key();
        let b = other.key();
        a.0 < b.0 || (a.0 == b.0 && a.1 < b.1)
    }
}

/// Two addresses with one rank are one address.
pub proof fn lemma_rank_injective(a: IpAddr, b: IpAddr)
    requires
        a.rank() == b.rank(),
    ensures
        a == b,
{
    match (a, b) {
        (IpAddr::V4(x), IpAddr::V4(y)) => {
            assert(x@[0] == y@[0] && x@[1] == y@[1] && x@[2] == y@[2] && x@[3] == y@[3]);
            assert(x =~= y);
        },
        (IpAddr::V6(x), IpAddr::V6(y)) => {
            assert(x@[7] == y@[7]);
            assert(x@[6] == y@[6]);
            assert(x@[5] == y@[5]);
            assert(x@[4] == y@[4]);
            assert(x@[3] == y@[3]);
            assert(x@[2] == y@[2]);
            assert(x@[1] == y@[1]);
            assert(x@[0] == y@[0]);
            assert(x =~= y);
        },
        (IpAddr::V4(x), IpAddr::V6(y)) => {},
        (IpAddr::V6(x), IpAddr::V4(y)) => {},
    }
}

/// The addresses stand in rising order, none of them twice.
pub open spec fn strictly_sorted(s: Seq<IpAddr>) -> bool {
    forall|i: int, j: int| 0 <= i < j < s.len() ==> s[i].rank() < s[j].rank()
}

/// The addresses that a machine is known by: those of its interfaces that
/// are public, and the one from which it reaches the outside.
pub open spec fn is_chosen(interfaces: Seq<IpAddr>, outbound: Option<IpAddr>, ip: IpAddr) -> bool {
    ||| interfaces.contains(ip) && ip.spec_is_public()
    ||| outbound == Some(ip)
}

/// Puts `ip` in its place in `out`, unless it stands there already.
fn insert_sorted(out: &mut Vec<IpAddr>, ip: IpAddr)
    requires
        strictly_sorted(old(out)@),
    ensures
        strictly_sorted(final(out)@),
        forall|x: IpAddr|
            #![trigger final(out)@.contains(x)]
            final(out)@.contains(x) <==> old(out)@.contains(x) || x == ip,
{
    let mut at: usize = 0;
    while at < out.len() && out[at].less(&ip)
        invariant
            0 <= at <= out.len(),
            out@ == old(out)@,
            forall|j: int| 0 <= j < at ==> out@[j].rank() < ip.rank(),
        decreases out.len() - at,
    {
        at = at + 1;
    }
    if at < out.len() && !ip.less(&out[at]) {
        proof {
            lemma_rank_injective(out@[at as int], ip);
            assert(out@.contains(ip));
        }
        return ;
    }
    out.insert(at, ip);
    proof {
        let before = old(out)@;
        let after = out@;
        assert(after == before.insert(at as int, ip));
        assert forall|i: int, j: int| 0 <= i < j < after.len() implies after[i].rank()
            < after[j].rank() by {
            if j < at {
            } else if j == at {
            } else if i < at {
                assert(after[j] == before[j - 1]);
                if at < before.len() {
                    assert(before[at as int].rank() <= before[j - 1].rank());
                }
            } else if i == at {
                assert(after[j] == before[j - 1]);
                assert(before[at as int].rank() <= before[j - 1].rank());
            } else {
                assert(after[i] == before[i - 1]);
                assert(after[j] == before[j - 1]);
            }
        }
        assert forall|x: IpAddr| after.contains(x) <==> before.contains(x) || x == ip by {
            if after.contains(x) {
                let k = choose|k: int| 0 <= k < after.len() && after[k] == x;
                if k < at {
                    assert(before[k] == x);
                } else if k > at {
                    assert(before[k - 1] == x);
                }
            }
            if before.contains(x) {
                let k = choose|k: int| 0 <= k < before.len() && before[k] == x;
                if k < at {
                    assert(after[k] == x);
                } else {
                    assert(after[k + 1] == x);
                }
            }
            if x == ip {
                assert(after[at as int] == x);
            }
        }
    }
}

/// Chooses the addresses that the machine is known by: the public ones
/// among those of its interfaces, and the address from which it reaches the
/// outside where one was found, in rising order and each once.
pub fn select_addresses(interfaces: &Vec<IpAddr>, outbound: Option<IpAddr>) -> (out: Vec<IpAddr>)
    ensures
        strictly_sorted(out@),
        forall|ip: IpAddr|
            #![trigger out@.contains(ip)]
            out@.contains(ip) <==> is_chosen(interfaces@, outbound, ip),
{
    let mut out: Vec<IpAddr> = Vec::new();
    let mut i: usize = 0;
    while i < interfaces.len()
        invariant
            0 <= i <= interfaces.len(),
            strictly_sorted(out@),
            forall|ip: IpAddr|
                #![trigger out@.contains(ip)]
                out@.contains(ip) <==> interfaces@.subrange(0, i as int).contains(ip)
                    && ip.spec_is_public(),
        decreases interfaces.len() - i,
    {
        let ip: IpAddr = interfaces[i];
        let ghost before = out@;
        if ip.is_public() {
            insert_sorted(&mut out, ip);
        }
        proof {
            let seen = interfaces@.subrange(0, i as int);
            let next = interfaces@.subrange(0, i + 1);
            assert(next =~= seen.push(ip));
            assert forall|x: IpAddr| next.contains(x) <==> seen.contains(x) || x == ip by {
                if next.contains(x) {
                    let k = choose|k: int| 0 <= k < next.len() && next[k] == x;
                    if k < i {
                        assert(seen[k] == x);
                    }
                }
                if seen.contains(x) {
                    let k = choose|k: int| 0 <= k < seen.len() && seen[k] == x;
                    assert(next[k] == x);
                }
                assert(next[i as int] == ip);
            }
            assert forall|x: IpAddr|
                out@.contains(x) <==> next.contains(x) && x.spec_is_public() by {
                assert(before.contains(x) <==> seen.contains(x) && x.spec_is_public());
                if ip.spec_is_public() {
                    assert(out@.contains(x) <==> before.contains(x) || x == ip);
                } else {
                    assert(out@ == before);
                }
            }
        }
        i = i + 1;
    }
    assert(interfaces@.subrange(0, i as int) =~= interfaces@);
    let ghost kept = out@;
    match outbound {
        Some(ip) => {
            insert_sorted(&mut out, ip);
        },
        None => {},
    }
    proof {
        assert forall|x: IpAddr| out@.contains(x) <==> is_chosen(interfaces@, outbound, x) by {
            assert(kept.contains(x) <==> interfaces@.contains(x) && x.spec_is_public());
            match outbound {
                Some(ip) => {
                    assert(out@.contains(x) <==> kept.contains(x) || x == ip);
                },
                None => {
                    assert(out@ == kept);
                },
            }
        }
    }
    out
}

} // verus!
