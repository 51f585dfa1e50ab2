//! IPv4 addresses as plain numbers.

use crate::error::ProbeError;
use vstd::prelude::*;

verus! {

/// An IPv4 address: its four octets as one 32-bit number, first octet
/// highest. A target is such an address, and so is whoever answers a probe.
#[derive(Clone, Copy, Debug, PartialEq, Eq, Hash, Structural)]
pub struct Ipv4Address {
    pub bits: u32,
}

/// The 32-bit number of the address `a.b.c.d`.
pub open spec fn address_bits(a: u8, b: u8, c: u8, d: u8) -> u32 {
    (a as int * 0x100_0000 + b as int * 0x1_0000 + c as int * 0x100 + d as int) as u32
}

/// The four octets of `bits`, first octet first.
pub open spec fn octets_of(bits: u32) -> (u8, u8, u8, u8) {
    (
        (bits / 0x100_0000) as u8,
        (bits / 0x1_0000 % 0x100) as u8,
        (bits / 0x100 % 0x100) as u8,
        (bits % 0x100) as u8,
    )
}

/// Splitting the number of `a.b.c.d` gives back `a`, `b`, `c` and `d`.
pub proof fn lemma_octets_of_address_bits(a: u8, b: u8, c: u8, d: u8)
    ensures
        a as int * 0x100_0000 + b as int * 0x1_0000 + c as int * 0x100 + d as int <= u32::MAX,
        octets_of(address_bits(a, b, c, d)) == (a, b, c, d),
{
    let bits = a as int * 0x100_0000 + b as int * 0x1_0000 + c as int * 0x100 + d as int;
    let low = b as int * 0x1_0000 + c as int * 0x100 + d as int;
    assert(bits / 0x100_0000 == a) by {
        vstd::arithmetic::div_mod::lemma_fundamental_div_mod_converse(
            bits,
            0x100_0000,
            a as int,
            low,
        );
    }
    assert(bits / 0x1_0000 == a as int * 0x100 + b as int) by {
        vstd::arithmetic::div_mod::lemma_fundamental_div_mod_converse(
            bits,
            0x1_0000,
            a as int * 0x100 + b as int,
            c as int * 0x100 + d as int,
        );
    }
    assert(bits / 0x100 == a as int * 0x1_0000 + b as int * 0x100 + c as int) by {
        vstd::arithmetic::div_mod::lemma_fundamental_div_mod_converse(
            bits,
            0x100,
            a as int * 0x1_0000 + b as int * 0x100 + c as int,
            d as int,
        );
    }
}

/// Putting the octets of a number together gives back the number.
pub proof fn lemma_address_bits_of_octets(bits: u32)
    ensures
        ({
            let parts = octets_of(bits);
            address_bits(parts.0, parts.1, parts.2, parts.3) == bits
        }),
{
    let top = bits as int / 0x100_0000;
    let second = bits as int / 0x1_0000;
    let third = bits as int / 0x100;
    assert(second / 0x100 == top && third / 0x100 == second) by {
        vstd::arithmetic::div_mod::lemma_div_denominator(bits as int, 0x1_0000, 0x100);
        vstd::arithmetic::div_mod::lemma_div_denominator(bits as int, 0x100, 0x100);
    }
}

impl Ipv4Address {
    /// The address `a.b.c.d`.
    pub fn from_octets(a: u8, b: u8, c: u8, d: u8) -> (address: Ipv4Address)
        ensures
            address.bits == address_bits(a, b, c, d),
            octets_of(address.bits) == (a, b, c, d),
    {
        proof {
            lemma_octets_of_address_bits(a, b, c, d);
        }
        let bits: u32 = (a as u32) * 0x100_0000 + (b as u32) * 0x1_0000 + (c as u32) * 0x100 + (
        d as u32);
        Ipv4Address { bits }
    }

    /// The four octets, first octet first.
    pub fn octets(&self) -> (parts: (u8, u8, u8, u8))
        ensures
            parts == octets_of(self.bits),
            address_bits(parts.0, parts.1, parts.2, parts.3) == self.bits,
    {
        proof {
            lemma_address_bits_of_octets(self.bits);
        }
        (
            (self.bits / 0x100_0000) as u8,
            (self.bits / 0x1_0000 % 0x100) as u8,
            (self.bits / 0x100 % 0x100) as u8,
            (self.bits % 0x100) as u8,
        )
    }
}

/// One address that a host name resolved to.
#[derive(Clone, Copy, Debug, PartialEq, Eq, Structural)]
pub enum Resolved {
    /// An IPv4 address.
    V4(Ipv4Address),
    /// An address of another family, which the probes cannot use.
    Other,
}

/// The first IPv4 address among `candidates`, if there is one.
pub open spec fn first_v4(candidates: Seq<Resolved>) -> Option<Ipv4Address>
    decreases candidates.len(),
{
    if candidates.len() == 0 {
        None
    } else {
        match candidates[0] {
            Resolved::V4(address) => Some(address),
            Resolved::Other => first_v4(candidates.drop_first()),
        }
    }
}

/// `first_v4` gives the IPv4 address that stands before every other IPv4
/// address of the list, and nothing when the list holds none.
pub proof fn lemma_first_v4(candidates: Seq<Resolved>)
    ensures
        match first_v4(candidates) {
            Some(address) => exists|i: int|
                0 <= i < candidates.len() && #[trigger] candidates[i] == Resolved::V4(address)
                    && forall|j: int| 0 <= j < i ==> (#[trigger] candidates[j]) is Other,
            None => forall|j: int| 0 <= j < candidates.len() ==> (#[trigger] candidates[j]) is Other,
        },
    decreases candidates.len(),
{
    if candidates.len() > 0 {
        let rest = candidates.drop_first();
        lemma_first_v4(rest);
        match candidates[0] {
            Resolved::V4(address) => {
                assert(candidates[0] == Resolved::V4(address));
            },
            Resolved::Other => {
                match first_v4(rest) {
                    Some(address) => {
                        let i = choose|i: int|
                            0 <= i < rest.len() && #[trigger] rest[i] == Resolved::V4(address)
                                && forall|j: int| 0 <= j < i ==> (#[trigger] rest[j]) is Other;
                        assert(candidates[i + 1] == Resolved::V4(address));
                        assert forall|j: int| 0 <= j < i + 1 implies (
                        #[trigger] candidates[j]) is Other by {
                            if j > 0 {
                                assert(rest[j - 1] is Other);
                            }
                        }
                    },
                    None => {
                        assert forall|j: int| 0 <= j < candidates.len() implies (
                        #[trigger] candidates[j]) is Other by {
                            if j > 0 {
                                assert(rest[j - 1] is Other);
                            }
                        }
                    },
                }
            },
        }
    }
}

/// Picks the target among the addresses that a host name resolved to: the
/// first IPv4 address. Without one the resolution has failed.
pub fn pick_target(candidates: &[Resolved]) -> (target: Result<Ipv4Address, ProbeError>)
    ensures
        match target {
            Ok(address) => first_v4(candidates@) == Some(address),
            Err(error) => first_v4(candidates@) is None && error == ProbeError::ResolutionFailed,
        },
{
    let mut i: usize = 0;
    assert(candidates@.skip(0) =~= candidates@);
    while i < candidates.len()
        invariant
            i <= candidates.len(),
            first_v4(candidates@) == first_v4(candidates@.skip(i as int)),
        decreases candidates.len() - i,
    {
        let ghost rest = candidates@.skip(i as int);
        assert(rest[0] == candidates@[i as int]);
        assert(rest.drop_first() =~= candidates@.skip(i + 1));
        match candidates[i] {
            Resolved::V4(address) => {
                return Ok(address);
            },
            Resolved::Other => {},
        }
        i = i + 1;
    }
    assert(candidates@.skip(i as int).len() == 0);
    Err(ProbeError::ResolutionFailed)
}

} // verus!
