//! Fixed-width values of the host ledger: 256-bit words and 160-bit accounts.
use vstd::prelude::*;

verus! {

/// Two to the power 128.
pub open spec fn pow128() -> nat {
    0x1_0000_0000_0000_0000_0000_0000_0000_0000nat
}

/// Two to the power 256: one more than the largest word.
pub open spec fn pow256() -> nat {
    pow128() * pow128()
}

/// An unsigned 256-bit integer, held as its high and low 128-bit halves.
#[derive(Clone, Copy, Debug, PartialEq, Eq, Structural, Hash)]
pub struct Uint256 {
    pub hi: u128,
    pub lo: u128,
}

impl Uint256 {
    /// The number this word stands for.
    pub open spec fn value(self) -> nat {
        self.hi as nat * pow128() + self.lo as nat
    }

    /// The word holding a small number.
    pub fn from_u128(n: u128) -> (r: Uint256)
        ensures
            r.value() == n as nat,
            r.hi == 0,
    {
        Uint256 { hi: 0, lo: n }
    }

    pub fn zero() -> (r: Uint256)
        ensures
            r.value() == 0,
    {
        Uint256 { hi: 0, lo: 0 }
    }

    /// `self + 1`, or `None` where the sum does not fit in 256 bits.
    pub fn checked_increment(&self) -> (r: Option<Uint256>)
        ensures
            r.is_some() <==> self.value() + 1 < pow256(),
            r.is_some() ==> r.unwrap().value() == self.value() + 1,
    {
        if self.lo < u128::MAX {
            Some(Uint256 { hi: self.hi, lo: self.lo + 1 })
        } else if self.hi < u128::MAX {
            proof {
                assert(u128::MAX as nat + 1 == pow128());
            }
            Some(Uint256 { hi: (self.hi + 1) as u128, lo: 0 })
        } else {
            proof {
                assert(self.value() + 1 == pow128() * pow128()) by (nonlinear_arith)
                    requires self.hi as nat + 1 == pow128(), self.lo as nat + 1 == pow128(),
                        self.value() == self.hi as nat * pow128() + self.lo as nat;
            }
            None
        }
    }
}

/// A 160-bit account address, held as its high 32 and low 128 bits.
#[derive(Clone, Copy, Debug, PartialEq, Eq, Structural, Hash)]
pub struct Address {
    pub hi: u32,
    pub lo: u128,
}

impl Address {
    pub open spec fn zero_spec() -> Address {
        Address { hi: 0, lo: 0 }
    }

    /// The all-zero address.
    pub fn zero() -> (r: Address)
        ensures
            r == Address::zero_spec(),
    {
        Address { hi: 0, lo: 0 }
    }
}

} // verus!
