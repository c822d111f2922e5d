//! Hash functions.

use vstd::prelude::*;

verus! {

/// A hash function, described by the length `n` of its digest in bits.
#[derive(Clone, Copy, Debug, PartialEq, Eq, Structural)]
pub struct Hash {
    pub n: u16,
}

impl Hash {
    /// The security strength in bits against collisions: half the
    /// digest length, rounded down.
    pub open spec fn strength(self) -> int {
        self.n as int / 2
    }

    /// Computes [`Hash::strength`].
    pub fn security(&self) -> (bits: u16)
        ensures
            bits == self.strength(),
    {
        self.n / 2
    }
}

/// The MD5 message digest algorithm.
#[verifier::allow_in_spec]
pub fn md5() -> Hash
    returns
        (Hash { n: 128 }),
{
    Hash { n: 128 }
}

/// The SHA-1 hash function.
#[verifier::allow_in_spec]
pub fn sha1() -> Hash
    returns
        (Hash { n: 160 }),
{
    Hash { n: 160 }
}

/// SHA-224 of the SHA-2 family.
#[verifier::allow_in_spec]
pub fn sha224() -> Hash
    returns
        (Hash { n: 224 }),
{
    Hash { n: 224 }
}

/// SHA-256 of the SHA-2 family.
#[verifier::allow_in_spec]
pub fn sha256() -> Hash
    returns
        (Hash { n: 256 }),
{
    Hash { n: 256 }
}

/// SHA-384 of the SHA-2 family.
#[verifier::allow_in_spec]
pub fn sha384() -> Hash
    returns
        (Hash { n: 384 }),
{
    Hash { n: 384 }
}

/// SHA-512 of the SHA-2 family.
#[verifier::allow_in_spec]
pub fn sha512() -> Hash
    returns
        (Hash { n: 512 }),
{
    Hash { n: 512 }
}

/// SHA-512/224 of the SHA-2 family.
#[verifier::allow_in_spec]
pub fn sha512_224() -> Hash
    returns
        (Hash { n: 224 }),
{
    Hash { n: 224 }
}

/// SHA-512/256 of the SHA-2 family.
#[verifier::allow_in_spec]
pub fn sha512_256() -> Hash
    returns
        (Hash { n: 256 }),
{
    Hash { n: 256 }
}

/// SHA3-224 of the SHA-3 family.
#[verifier::allow_in_spec]
pub fn sha3_224() -> Hash
    returns
        (Hash { n: 224 }),
{
    Hash { n: 224 }
}

/// SHA3-256 of the SHA-3 family.
#[verifier::allow_in_spec]
pub fn sha3_256() -> Hash
    returns
        (Hash { n: 256 }),
{
    Hash { n: 256 }
}

/// SHA3-384 of the SHA-3 family.
#[verifier::allow_in_spec]
pub fn sha3_384() -> Hash
    returns
        (Hash { n: 384 }),
{
    Hash { n: 384 }
}

/// SHA3-512 of the SHA-3 family.
#[verifier::allow_in_spec]
pub fn sha3_512() -> Hash
    returns
        (Hash { n: 512 }),
{
    Hash { n: 512 }
}

} // verus!
