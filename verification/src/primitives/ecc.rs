//! Elliptic curves.

use vstd::prelude::*;

verus! {

/// An elliptic curve used for digital signatures and key establishment,
/// described by the size `f` in bits of the field it is defined over.
#[derive(Clone, Copy, Debug, PartialEq, Eq, Structural)]
pub struct Ecc {
    pub f: u16,
}

impl Ecc {
    /// The security strength in bits: half the field size, rounded down.
    pub open spec fn strength(self) -> int {
        self.f as int / 2
    }

    /// Computes [`Ecc::strength`].
    pub fn security(&self) -> (bits: u16)
        ensures
            bits == self.strength(),
    {
        self.f / 2
    }
}

/// The Weierstrass curve P-224 over a prime field, also known as
/// secp224r1.
#[verifier::allow_in_spec]
pub fn p224() -> Ecc
    returns
        (Ecc { f: 224 }),
{
    Ecc { f: 224 }
}

/// The Weierstrass curve P-256 over a prime field, also known as
/// secp256r1.
#[verifier::allow_in_spec]
pub fn p256() -> Ecc
    returns
        (Ecc { f: 256 }),
{
    Ecc { f: 256 }
}

/// The Weierstrass curve P-384 over a prime field, also known as
/// secp384r1.
#[verifier::allow_in_spec]
pub fn p384() -> Ecc
    returns
        (Ecc { f: 384 }),
{
    Ecc { f: 384 }
}

/// The Weierstrass curve P-521 over a prime field, also known as
/// secp521r1.
#[verifier::allow_in_spec]
pub fn p521() -> Ecc
    returns
        (Ecc { f: 521 }),
{
    Ecc { f: 521 }
}

/// The Weierstrass curve W-25519 over a prime field.
#[verifier::allow_in_spec]
pub fn w25519() -> Ecc
    returns
        (Ecc { f: 255 }),
{
    Ecc { f: 255 }
}

/// The Weierstrass curve W-448 over a prime field.
#[verifier::allow_in_spec]
pub fn w448() -> Ecc
    returns
        (Ecc { f: 448 }),
{
    Ecc { f: 448 }
}

/// The Montgomery curve Curve25519 over a prime field.
#[verifier::allow_in_spec]
pub fn curve25519() -> Ecc
    returns
        (Ecc { f: 255 }),
{
    Ecc { f: 255 }
}

/// The Montgomery curve Curve448 over a prime field.
#[verifier::allow_in_spec]
pub fn curve448() -> Ecc
    returns
        (Ecc { f: 448 }),
{
    Ecc { f: 448 }
}

/// The twisted Edwards curve Edwards25519 over a prime field.
#[verifier::allow_in_spec]
pub fn edwards25519() -> Ecc
    returns
        (Ecc { f: 255 }),
{
    Ecc { f: 255 }
}

/// The twisted Edwards curve Edwards448 over a prime field.
#[verifier::allow_in_spec]
pub fn edwards448() -> Ecc
    returns
        (Ecc { f: 448 }),
{
    Ecc { f: 448 }
}

/// The Edwards curve E448 over a prime field.
#[verifier::allow_in_spec]
pub fn e448() -> Ecc
    returns
        (Ecc { f: 448 }),
{
    Ecc { f: 448 }
}

/// The curve brainpoolP224r1 of RFC 5639.
#[verifier::allow_in_spec]
pub fn brainpoolp224r1() -> Ecc
    returns
        (Ecc { f: 224 }),
{
    Ecc { f: 224 }
}

/// The curve brainpoolP256r1 of RFC 5639.
#[verifier::allow_in_spec]
pub fn brainpoolp256r1() -> Ecc
    returns
        (Ecc { f: 256 }),
{
    Ecc { f: 256 }
}

/// The curve brainpoolP320r1 of RFC 5639.
#[verifier::allow_in_spec]
pub fn brainpoolp320r1() -> Ecc
    returns
        (Ecc { f: 320 }),
{
    Ecc { f: 320 }
}

/// The curve brainpoolP384r1 of RFC 5639.
#[verifier::allow_in_spec]
pub fn brainpoolp384r1() -> Ecc
    returns
        (Ecc { f: 384 }),
{
    Ecc { f: 384 }
}

/// The curve brainpoolP512r1 of RFC 5639.
#[verifier::allow_in_spec]
pub fn brainpoolp512r1() -> Ecc
    returns
        (Ecc { f: 512 }),
{
    Ecc { f: 512 }
}

/// The curve secp256k1 of SEC 2.
#[verifier::allow_in_spec]
pub fn secp256k1() -> Ecc
    returns
        (Ecc { f: 256 }),
{
    Ecc { f: 256 }
}

} // verus!
