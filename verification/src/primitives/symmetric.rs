//! Symmetric key primitives.

use vstd::prelude::*;

verus! {

/// A symmetric key primitive, described by the security strength in
/// bits that its keys offer.
#[derive(Clone, Copy, Debug, PartialEq, Eq, Structural)]
pub struct Symmetric {
    pub security: u16,
}

impl Symmetric {
    /// The security strength in bits, which is stored as it is.
    pub open spec fn strength(self) -> int {
        self.security as int
    }
}

/// Two-key Triple DES.
#[verifier::allow_in_spec]
pub fn tdea2() -> Symmetric
    returns
        (Symmetric { security: 80 }),
{
    Symmetric { security: 80 }
}

/// Three-key Triple DES.
#[verifier::allow_in_spec]
pub fn tdea3() -> Symmetric
    returns
        (Symmetric { security: 112 }),
{
    Symmetric { security: 112 }
}

/// AES with a 128-bit key.
#[verifier::allow_in_spec]
pub fn aes128() -> Symmetric
    returns
        (Symmetric { security: 128 }),
{
    Symmetric { security: 128 }
}

/// AES with a 192-bit key.
#[verifier::allow_in_spec]
pub fn aes192() -> Symmetric
    returns
        (Symmetric { security: 192 }),
{
    Symmetric { security: 192 }
}

/// AES with a 256-bit key.
#[verifier::allow_in_spec]
pub fn aes256() -> Symmetric
    returns
        (Symmetric { security: 256 }),
{
    Symmetric { security: 256 }
}

} // verus!
