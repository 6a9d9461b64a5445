//! IPv4 addresses with a prefix length, and the addresses given to the two
//! ends of the virtual Ethernet pair.
use crate::text::{decimal, decimal_text};
use vstd::arithmetic::power2::{lemma2_to64, lemma_pow2_pos, lemma_pow2_strictly_increases, lemma_pow2_unfold, pow2};
use vstd::prelude::*;

verus! {

/// An IPv4 address `a.b.c.d` together with a prefix length, as in
/// `10.200.200.1/24`.
#[derive(Clone, Copy, Debug, PartialEq, Eq, Structural)]
pub struct Ipv4Cidr {
    pub a: u8,
    pub b: u8,
    pub c: u8,
    pub d: u8,
    pub prefix: u8,
}

/// The 32-bit value of an address.
pub open spec fn address_value(x: Ipv4Cidr) -> nat {
    x.a as nat * 16777216 + x.b as nat * 65536 + x.c as nat * 256 + x.d as nat
}

/// The address whose 32-bit value is `v`, with prefix length `prefix`.
pub open spec fn from_value(v: nat, prefix: u8) -> Ipv4Cidr {
    Ipv4Cidr {
        a: (v / 16777216 % 256) as u8,
        b: (v / 65536 % 256) as u8,
        c: (v / 256 % 256) as u8,
        d: (v % 256) as u8,
        prefix,
    }
}

/// The size of the block of addresses that share the prefix of `x`.
pub open spec fn block_size(x: Ipv4Cidr) -> nat {
    pow2((32 - x.prefix) as nat)
}

/// The subnet of `x`: its address with every bit after the prefix cleared.
pub open spec fn network(x: Ipv4Cidr) -> Ipv4Cidr {
    let v = address_value(x);
    from_value((v - v % block_size(x)) as nat, x.prefix)
}

/// `a.b.c.d`, each part in decimal.
pub open spec fn address_text(x: Ipv4Cidr) -> Seq<char> {
    decimal(x.a as nat) + seq!['.'] + decimal(x.b as nat) + seq!['.'] + decimal(x.c as nat)
        + seq!['.'] + decimal(x.d as nat)
}

/// `a.b.c.d/prefix`.
pub open spec fn cidr_text(x: Ipv4Cidr) -> Seq<char> {
    address_text(x) + seq!['/'] + decimal(x.prefix as nat)
}

impl Ipv4Cidr {
    /// A prefix length is at most 32.
    pub open spec fn wf(self) -> bool {
        self.prefix <= 32
    }

    /// The subnet of this address (`10.200.200.0/24` for `10.200.200.2/24`).
    pub fn network(&self) -> (r: Ipv4Cidr)
        requires
            self.wf(),
        ensures
            r == network(*self),
            r.wf(),
    {
        let v: u64 = self.a as u64 * 16777216 + self.b as u64 * 65536 + self.c as u64 * 256
            + self.d as u64;
        let shift: u8 = 32 - self.prefix;
        let mut block: u64 = 1;
        let mut k: u8 = 0;
        proof {
            lemma2_to64();
        }
        while k < shift
            invariant
                k <= shift <= 32,
                block == pow2(k as nat),
                pow2(32) == 0x1_0000_0000,
            decreases shift - k,
        {
            proof {
                lemma_pow2_unfold(k as nat + 1);
                if k + 1 < 32 {
                    lemma_pow2_strictly_increases(k as nat + 1, 32);
                }
            }
            block = block * 2;
            k = k + 1;
        }
        proof {
            lemma_pow2_pos(shift as nat);
        }
        assert(v % block <= v) by (nonlinear_arith)
            requires
                block > 0,
        ;
        let n = v - v % block;
        Ipv4Cidr {
            a: (n / 16777216 % 256) as u8,
            b: (n / 65536 % 256) as u8,
            c: (n / 256 % 256) as u8,
            d: (n % 256) as u8,
            prefix: self.prefix,
        }
    }

    /// The address alone, as `a.b.c.d`.
    pub fn address_text(&self) -> (r: String)
        ensures
            r@ == address_text(*self),
    {
        proof {
            reveal_strlit(".");
        }
        let mut out = decimal_text(self.a as u64);
        out.append(".");
        out.append(decimal_text(self.b as u64).as_str());
        out.append(".");
        out.append(decimal_text(self.c as u64).as_str());
        out.append(".");
        out.append(decimal_text(self.d as u64).as_str());
        assert(out@ =~= address_text(*self));
        out
    }

    /// The address with its prefix length, as `a.b.c.d/prefix`.
    pub fn to_text(&self) -> (r: String)
        ensures
            r@ == cidr_text(*self),
    {
        proof {
            reveal_strlit("/");
        }
        let mut out = self.address_text();
        out.append("/");
        out.append(decimal_text(self.prefix as u64).as_str());
        assert(out@ =~= cidr_text(*self));
        out
    }
}

} // verus!
