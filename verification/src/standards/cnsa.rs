//! Validation against the Commercial National Security Algorithm
//! Suite.
//!
//! The suite asks a hash function and an elliptic curve for 192 bits of
//! security, which SHA-384 and P-384 offer, and an RSA modulus for at
//! least 3072 bits. None of its floors depends on the year. A context
//! that names a target strength raises them to it, as far as the
//! strongest primitive that is recommended here reaches: a target beyond
//! that asks for the strongest. So what is recommended in a context is
//! always compliant in it.

use vstd::prelude::*;
use crate::context::Context;
use crate::primitives::ecc::{p384, p521, Ecc};
use crate::primitives::hash;
use crate::primitives::ifc::{rsa15360, rsa3072, rsa7680, Ifc};

verus! {

/// The security strength in bits asked of a hash function and of an
/// elliptic curve.
pub const SECURITY: u16 = 192;

/// The modulus size in bits asked of integer factorisation cryptography.
pub const MODULUS: u16 = 3072;

/// The strength in bits of the strongest hash function and of the
/// strongest modulus that are recommended: SHA-512 and a modulus of
/// 15360 bits. A target counts up to it.
pub const REACH: u16 = 256;

/// The strength in bits of the strongest curve that is recommended:
/// P-521. A target counts up to it.
pub const REACH_ECC: u16 = 260;

/// Whether a hash function is compliant in a context.
pub open spec fn hash_is_compliant(ctx: Context, hash: hash::Hash) -> bool {
    hash.strength() >= ctx.required(SECURITY, REACH)
}

/// The hash function recommended in a context: SHA-384 where it reaches
/// the target, and else SHA-512.
pub open spec fn recommended_hash(ctx: Context) -> hash::Hash {
    if ctx.security <= 192 {
        hash::sha384()
    } else {
        hash::sha512()
    }
}

/// What [`validate_hash`] returns.
pub open spec fn hash_verdict(ctx: Context, hash: hash::Hash) -> Result<hash::Hash, hash::Hash> {
    if hash_is_compliant(ctx, hash) {
        Ok(hash)
    } else {
        Err(recommended_hash(ctx))
    }
}

/// Whether an elliptic curve is compliant in a context.
pub open spec fn ecc_is_compliant(ctx: Context, key: Ecc) -> bool {
    key.strength() >= ctx.required(SECURITY, REACH_ECC)
}

/// The curve recommended in a context: P-384 where it reaches the
/// target, and else P-521.
pub open spec fn recommended_ecc(ctx: Context) -> Ecc {
    if ctx.security <= 192 {
        p384()
    } else {
        p521()
    }
}

/// What [`validate_ecc`] returns.
pub open spec fn ecc_verdict(ctx: Context, key: Ecc) -> Result<Ecc, Ecc> {
    if ecc_is_compliant(ctx, key) {
        Ok(key)
    } else {
        Err(recommended_ecc(ctx))
    }
}

/// Whether a modulus is compliant in a context: it has [`MODULUS`] bits
/// and reaches the target, as far as the target counts.
pub open spec fn ifc_is_compliant(ctx: Context, key: Ifc) -> bool {
    key.k >= MODULUS && key.strength() >= ctx.target(REACH)
}

/// The modulus recommended in a context: the smallest of 3072, 7680 and
/// 15360 bits that reaches the target, and the largest for a target
/// beyond all three.
pub open spec fn recommended_ifc(ctx: Context) -> Ifc {
    if ctx.security <= 128 {
        rsa3072()
    } else if ctx.security <= 192 {
        rsa7680()
    } else {
        rsa15360()
    }
}

/// What [`validate_ifc`] returns.
pub open spec fn ifc_verdict(ctx: Context, key: Ifc) -> Result<Ifc, Ifc> {
    if ifc_is_compliant(ctx, key) {
        Ok(key)
    } else {
        Err(recommended_ifc(ctx))
    }
}

/// Validates a hash function. A compliant one is handed back in `Ok`;
/// otherwise `Err` holds [`recommended_hash`].
pub fn validate_hash(ctx: &Context, hash: &hash::Hash) -> (verdict: Result<hash::Hash, hash::Hash>)
    ensures
        verdict == hash_verdict(*ctx, *hash),
{
    if hash.security() >= ctx.required(SECURITY, REACH) {
        Ok(*hash)
    } else if ctx.security <= 192 {
        Err(hash::sha384())
    } else {
        Err(hash::sha512())
    }
}

/// Validates an elliptic curve. A compliant one is handed back in `Ok`;
/// otherwise `Err` holds [`recommended_ecc`].
pub fn validate_ecc(ctx: &Context, key: &Ecc) -> (verdict: Result<Ecc, Ecc>)
    ensures
        verdict == ecc_verdict(*ctx, *key),
{
    if key.security() >= ctx.required(SECURITY, REACH_ECC) {
        Ok(*key)
    } else if ctx.security <= 192 {
        Err(p384())
    } else {
        Err(p521())
    }
}

/// Validates a modulus. A compliant one is handed back in `Ok`;
/// otherwise `Err` holds [`recommended_ifc`].
pub fn validate_ifc(ctx: &Context, key: &Ifc) -> (verdict: Result<Ifc, Ifc>)
    ensures
        verdict == ifc_verdict(*ctx, *key),
{
    if key.k >= MODULUS && key.security() >= ctx.target(REACH) {
        Ok(*key)
    } else if ctx.security <= 128 {
        Err(rsa3072())
    } else if ctx.security <= 192 {
        Err(rsa7680())
    } else {
        Err(rsa15360())
    }
}

/// A hash function at least as strong as a compliant one is compliant.
pub proof fn hash_compliance_is_monotonic(ctx: Context, weaker: hash::Hash, stronger: hash::Hash)
    requires
        stronger.strength() >= weaker.strength(),
        hash_verdict(ctx, weaker) is Ok,
    ensures
        hash_verdict(ctx, stronger) is Ok,
{
}

/// An elliptic curve at least as strong as a compliant one is compliant.
pub proof fn ecc_compliance_is_monotonic(ctx: Context, weaker: Ecc, stronger: Ecc)
    requires
        stronger.strength() >= weaker.strength(),
        ecc_verdict(ctx, weaker) is Ok,
    ensures
        ecc_verdict(ctx, stronger) is Ok,
{
}

/// A modulus at least as large as a compliant one is compliant.
pub proof fn ifc_compliance_is_monotonic(ctx: Context, smaller: Ifc, larger: Ifc)
    requires
        larger.k >= smaller.k,
        ifc_verdict(ctx, smaller) is Ok,
    ensures
        ifc_verdict(ctx, larger) is Ok,
{
}

/// The hash function that is recommended in a context is compliant in
/// that context, whatever the context: a verdict never recommends what
/// it would turn down.
pub proof fn recommended_hash_is_compliant(ctx: Context)
    ensures
        hash_verdict(ctx, recommended_hash(ctx)) == Ok::<hash::Hash, hash::Hash>(recommended_hash(ctx)),
{
}

/// The curve that is recommended in a context is compliant in that
/// context, whatever the context.
pub proof fn recommended_ecc_is_compliant(ctx: Context)
    ensures
        ecc_verdict(ctx, recommended_ecc(ctx)) == Ok::<Ecc, Ecc>(recommended_ecc(ctx)),
{
}

/// The modulus that is recommended in a context is compliant in that
/// context, whatever the context.
pub proof fn recommended_ifc_is_compliant(ctx: Context)
    ensures
        ifc_verdict(ctx, recommended_ifc(ctx)) == Ok::<Ifc, Ifc>(recommended_ifc(ctx)),
{
}

} // verus!
