//! Integer factorisation cryptography.

use vstd::prelude::*;

verus! {

/// A primitive whose security rests on the hardness of factoring, such
/// as RSA, described by the size `k` of its modulus in bits.
#[derive(Clone, Copy, Debug, PartialEq, Eq, Structural)]
pub struct Ifc {
    pub k: u16,
}

impl Ifc {
    /// The security strength in bits that a modulus of `k` bits is
    /// credited with. The steps are those at which the strength of a
    /// symmetric key of 80, 112, 128, 192 and 256 bits is reached.
    pub open spec fn strength(self) -> int {
        if self.k >= 15360 {
            256
        } else if self.k >= 7680 {
            192
        } else if self.k >= 3072 {
            128
        } else if self.k >= 2048 {
            112
        } else if self.k >= 1024 {
            80
        } else {
            0
        }
    }

    /// Computes [`Ifc::strength`].
    pub fn security(&self) -> (bits: u16)
        ensures
            bits == self.strength(),
    {
        if self.k >= 15360 {
            256
        } else if self.k >= 7680 {
            192
        } else if self.k >= 3072 {
            128
        } else if self.k >= 2048 {
            112
        } else if self.k >= 1024 {
            80
        } else {
            0
        }
    }
}

/// RSA with a 1024-bit modulus.
#[verifier::allow_in_spec]
pub fn rsa1024() -> Ifc
    returns
        (Ifc { k: 1024 }),
{
    Ifc { k: 1024 }
}

/// RSA with a 2048-bit modulus.
#[verifier::allow_in_spec]
pub fn rsa2048() -> Ifc
    returns
        (Ifc { k: 2048 }),
{
    Ifc { k: 2048 }
}

/// RSA with a 3072-bit modulus.
#[verifier::allow_in_spec]
pub fn rsa3072() -> Ifc
    returns
        (Ifc { k: 3072 }),
{
    Ifc { k: 3072 }
}

/// RSA with a 4096-bit modulus.
#[verifier::allow_in_spec]
pub fn rsa4096() -> Ifc
    returns
        (Ifc { k: 4096 }),
{
    Ifc { k: 4096 }
}

/// RSA with a 7680-bit modulus.
#[verifier::allow_in_spec]
pub fn rsa7680() -> Ifc
    returns
        (Ifc { k: 7680 }),
{
    Ifc { k: 7680 }
}

/// RSA with a 15360-bit modulus.
#[verifier::allow_in_spec]
pub fn rsa15360() -> Ifc
    returns
        (Ifc { k: 15360 }),
{
    Ifc { k: 15360 }
}

} // verus!
