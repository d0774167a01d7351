//! IP addresses and networks as plain numbers, and the expansion of a
//! network into the addresses it holds.
use std::str::FromStr;
use vstd::arithmetic::div_mod::lemma_fundamental_div_mod;
use vstd::arithmetic::power2::{
    lemma2_to64, lemma2_to64_rest, lemma_pow2_adds, lemma_pow2_pos, lemma_pow2_strictly_increases,
    lemma_pow2_unfold, pow2,
};
use vstd::prelude::*;

verus! {

/// One host address: an IPv4 address as its 32-bit value, or an IPv6
/// address as its 128-bit value.
#[derive(Debug, Clone, Copy, PartialEq, Eq, Structural)]
pub enum IpAddress {
    V4(u32),
    V6(u128),
}

impl IpAddress {
    pub open spec fn value(self) -> nat {
        match self {
            IpAddress::V4(a) => a as nat,
            IpAddress::V6(a) => a as nat,
        }
    }

    pub open spec fn is_v6(self) -> bool {
        self is V6
    }

    /// Number of bits in an address of this family.
    pub open spec fn bits(self) -> nat {
        if self.is_v6() {
            128
        } else {
            32
        }
    }
}

/// A network in CIDR form: an address and the length of its prefix.
/// The address may carry host bits (`10.0.0.5/30`); the network is the
/// block of `2^(bits - prefix)` addresses that contains it.
#[derive(Debug, Clone, Copy, PartialEq, Eq, Structural)]
pub struct IpNet {
    pub addr: IpAddress,
    pub prefix: u8,
}

impl IpNet {
    pub open spec fn wf(self) -> bool {
        self.prefix as nat <= self.addr.bits()
    }

    pub open spec fn host_bits(self) -> nat {
        (self.addr.bits() - self.prefix as nat) as nat
    }

    /// Number of addresses in the network, network and broadcast
    /// addresses included.
    pub open spec fn size(self) -> nat {
        pow2(self.host_bits())
    }

    /// Value of the lowest address of the network.
    pub open spec fn first(self) -> nat {
        (self.addr.value() / self.size()) * self.size()
    }

    /// The `i`-th address of the network, counted from its lowest one.
    pub open spec fn member(self, i: int) -> IpAddress {
        match self.addr {
            IpAddress::V4(_) => IpAddress::V4((self.first() + i) as u32),
            IpAddress::V6(_) => IpAddress::V6((self.first() + i) as u128),
        }
    }

    /// Every address of the network, in ascending order.
    pub open spec fn addresses(self) -> Seq<IpAddress> {
        Seq::new(self.size(), |i: int| self.member(i))
    }
}

/// What `ipnetwork` makes of a CIDR or bare address string, as plain numbers.
pub uninterp spec fn ip_network_of(s: Seq<char>) -> Option<IpNet>;

/// Relies on `<ipnetwork::IpNetwork as FromStr>::from_str`: it accepts an
/// IPv4 network first (prefix as a length or a dotted netmask), else an
/// IPv6 one; a missing prefix means the full length, and
/// `Ipv4Network::new` / `Ipv6Network::new` refuse a prefix over 32 or 128.
/// The address is kept as written, host bits included.
#[verifier::external_body]
fn parse_ip_network(s: &str) -> (r: Option<IpNet>)
    ensures
        r == ip_network_of(s@),
        r matches Some(n) ==> n.wf(),
{
    match ipnetwork::IpNetwork::from_str(s) {
        Ok(ipnetwork::IpNetwork::V4(n)) => Some(IpNet { addr: IpAddress::V4(u32::from(n.ip())), prefix: n.prefix() }),
        Ok(ipnetwork::IpNetwork::V6(n)) => Some(IpNet { addr: IpAddress::V6(u128::from(n.ip())), prefix: n.prefix() }),
        Err(_) => None,
    }
}

/// Parses a CIDR string (`a.b.c.d/nn`, an IPv6 network, or a bare address,
/// which stands for the network of that address alone).
pub fn parse_network(s: &str) -> (r: Option<IpNet>)
    ensures
        r == ip_network_of(s@),
        r matches Some(n) ==> n.wf(),
{
    parse_ip_network(s)
}

/// The block of `2^hb` addresses that holds `v` lies below `2^(hb + p)`.
proof fn lemma_block_fits(v: nat, hb: nat, p: nat)
    requires
        v < pow2(hb + p),
    ensures
        (v / pow2(hb)) * pow2(hb) <= v,
        (v / pow2(hb)) * pow2(hb) + pow2(hb) <= pow2(hb + p),
{
    let s = pow2(hb);
    let t = pow2(p);
    lemma_pow2_pos(hb);
    lemma_pow2_pos(p);
    lemma_pow2_adds(hb, p);
    lemma_fundamental_div_mod(v as int, s as int);
    let q = v / s;
    assert(q * s <= v) by {
        assert(v == s * q + v % s);
    }
    if q >= t {
        assert(q * s >= t * s) by (nonlinear_arith)
            requires
                q >= t,
                s > 0,
        ;
    }
    assert(q + 1 <= t);
    assert((q + 1) * s <= t * s) by (nonlinear_arith)
        requires
            q + 1 <= t,
            s > 0,
    ;
    assert((q + 1) * s == q * s + s) by (nonlinear_arith);
}

proof fn lemma_pow2_bounds()
    ensures
        pow2(32) == 0x1_0000_0000,
        pow2(64) == 0x1_0000_0000_0000_0000,
        pow2(128) == 0x1_0000_0000_0000_0000_0000_0000_0000_0000,
{
    lemma2_to64();
    lemma_pow2_adds(64, 64);
}

impl IpNet {
    /// Lowest address and length of the network, each as a 128-bit value.
    proof fn lemma_range(self)
        requires
            self.wf(),
        ensures
            self.first() <= self.addr.value(),
            self.first() + self.size() <= pow2(self.addr.bits()),
            self.size() > 0,
    {
        lemma_pow2_pos(self.host_bits());
        assert(self.host_bits() + self.prefix as nat == self.addr.bits());
        lemma_pow2_bounds();
        lemma_block_fits(self.addr.value(), self.host_bits(), self.prefix as nat);
    }

    /// No address of a network is listed twice.
    pub proof fn lemma_addresses_distinct(self)
        requires
            self.wf(),
        ensures
            self.addresses().no_duplicates(),
    {
        self.lemma_range();
        lemma_pow2_bounds();
        let a = self.addresses();
        assert forall|i: int, j: int| 0 <= i < a.len() && 0 <= j < a.len() && i != j implies a[i]
            != a[j] by {
            assert(self.first() + i < pow2(self.addr.bits()));
            assert(self.first() + j < pow2(self.addr.bits()));
            assert(a[i].value() == self.first() + i);
            assert(a[j].value() == self.first() + j);
        }
    }

    /// The number of addresses in the network, where it fits in a `usize`.
    pub fn host_count(&self) -> (r: Option<usize>)
        requires
            self.wf(),
        ensures
            r matches Some(n) ==> n as nat == self.size(),
            r is None <==> self.size() > usize::MAX,
    {
        let bits: u8 = match self.addr {
            IpAddress::V4(_) => 32,
            IpAddress::V6(_) => 128,
        };
        let hb: u8 = bits - self.prefix;
        proof {
            lemma2_to64();
            lemma2_to64_rest();
        }
        if hb >= 64 {
            proof {
                if hb > 64 {
                    lemma_pow2_strictly_increases(64, hb as nat);
                }
            }
            return None;
        }
        let mut s: u64 = 1;
        let mut k: u8 = 0;
        while k < hb
            invariant
                k <= hb < 64,
                s as nat == pow2(k as nat),
                pow2(64) == 0x1_0000_0000_0000_0000,
            decreases hb - k,
        {
            proof {
                lemma_pow2_unfold((k + 1) as nat);
                if k + 1 < 64 {
                    lemma_pow2_strictly_increases((k + 1) as nat, 64);
                }
            }
            s = s * 2;
            k = k + 1;
        }
        if s as u128 <= usize::MAX as u128 {
            Some(s as usize)
        } else {
            None
        }
    }

    /// Every address of the network, lowest first: network and broadcast
    /// addresses are included, so the list is exactly `size()` long.
    pub fn expand(&self, count: usize) -> (r: Vec<IpAddress>)
        requires
            self.wf(),
            count as nat == self.size(),
        ensures
            r@ == self.addresses(),
            r@.len() == self.size(),
    {
        proof {
            self.lemma_range();
            lemma_pow2_bounds();
        }
        let value: u128 = match self.addr {
            IpAddress::V4(a) => a as u128,
            IpAddress::V6(a) => a,
        };
        let size: u128 = count as u128;
        let first: u128 = (value / size) * size;
        let mut out: Vec<IpAddress> = Vec::new();
        let mut i: usize = 0;
        while i < count
            invariant
                i <= count,
                count as nat == self.size(),
                size == count,
                first as nat == self.first(),
                self.first() + self.size() <= pow2(self.addr.bits()),
                pow2(32) == 0x1_0000_0000,
                pow2(128) == 0x1_0000_0000_0000_0000_0000_0000_0000_0000,
                out@.len() == i,
                forall|j: int| 0 <= j < i ==> out@[j] == self.member(j),
            decreases count - i,
        {
            let v: u128 = first + i as u128;
            let a = match self.addr {
                IpAddress::V4(_) => IpAddress::V4(v as u32),
                IpAddress::V6(_) => IpAddress::V6(v),
            };
            out.push(a);
            i = i + 1;
        }
        assert(out@ =~= self.addresses());
        out
    }
}

} // verus!
