//! Validation against the technical guideline BSI TR-02102-1,
//! "Cryptographic Mechanisms: Recommendations and Key Lengths".
//!
//! The guideline asks every primitive for 120 bits of security. An
//! elliptic curve has to be defined over a field of at least 250 bits.
//! An RSA modulus has to have at least 3000 bits; one of 2000 bits or
//! more stays acceptable through [`CUTOFF_YEAR`]. A context that names a
//! target strength raises these floors to it, as far as the strongest
//! primitive that is recommended here reaches: a target beyond that
//! asks for the strongest. So what is recommended in a context is always
//! compliant in it.

use vstd::prelude::*;
use crate::context::Context;
use crate::primitives::ecc::{
    brainpoolp256r1, brainpoolp320r1, brainpoolp384r1, brainpoolp512r1, p521, Ecc,
};
use crate::primitives::hash;
use crate::primitives::ifc::{rsa15360, rsa3072, rsa7680, Ifc};

verus! {

/// The last year in which a modulus of at least [`MODULUS_LEGACY`] but
/// fewer than [`MODULUS`] bits is still accepted.
pub const CUTOFF_YEAR: u16 = 2023;

/// The security strength in bits asked of a hash function.
pub const SECURITY: u16 = 120;

/// The security strength in bits asked of an elliptic curve, which a
/// field of 250 bits reaches.
pub const SECURITY_ECC: u16 = 125;

/// The modulus size in bits that is accepted without a time limit.
pub const MODULUS: u16 = 3000;

/// The modulus size in bits that is accepted through [`CUTOFF_YEAR`].
pub const MODULUS_LEGACY: u16 = 2000;

/// The strength in bits of the strongest hash function and of the
/// strongest modulus that are recommended: SHA-512 and a modulus of
/// 15360 bits. A target counts up to it.
pub const REACH: u16 = 256;

/// The strength in bits of the strongest curve that is recommended:
/// P-521. A target counts up to it.
pub const REACH_ECC: u16 = 260;

/// Whether a hash function is compliant in a context.
pub open spec fn hash_is_compliant(ctx: Context, hash: hash::Hash) -> bool {
    hash.strength() >= ctx.required(SECURITY, REACH)
}

/// The hash function recommended in a context: the shortest of SHA-256,
/// SHA-384 and SHA-512 that reaches the target, and SHA-512 for a target
/// beyond all three.
pub open spec fn recommended_hash(ctx: Context) -> hash::Hash {
    if ctx.security <= 128 {
        hash::sha256()
    } else if ctx.security <= 192 {
        hash::sha384()
    } else {
        hash::sha512()
    }
}

/// What [`validate_hash`] returns.
pub open spec fn hash_verdict(ctx: Context, hash: hash::Hash) -> Result<hash::Hash, hash::Hash> {
    if hash_is_compliant(ctx, hash) {
        Ok(hash)
    } else {
        Err(recommended_hash(ctx))
    }
}

/// Whether an elliptic curve is compliant in a context.
pub open spec fn ecc_is_compliant(ctx: Context, key: Ecc) -> bool {
    key.strength() >= ctx.required(SECURITY_ECC, REACH_ECC)
}

/// The curve recommended in a context: the smallest of the Brainpool
/// curves of 256, 320, 384 and 512 bits that reaches the target. Where
/// none of them does it is P-521, the strongest curve of the catalogue.
pub open spec fn recommended_ecc(ctx: Context) -> Ecc {
    if ctx.security <= 128 {
        brainpoolp256r1()
    } else if ctx.security <= 160 {
        brainpoolp320r1()
    } else if ctx.security <= 192 {
        brainpoolp384r1()
    } else if ctx.security <= 256 {
        brainpoolp512r1()
    } else {
        p521()
    }
}

/// What [`validate_ecc`] returns.
pub open spec fn ecc_verdict(ctx: Context, key: Ecc) -> Result<Ecc, Ecc> {
    if ecc_is_compliant(ctx, key) {
        Ok(key)
    } else {
        Err(recommended_ecc(ctx))
    }
}

/// Whether a modulus is compliant in a context: it reaches the target,
/// as far as the target counts, and has either [`MODULUS`] bits, or [`MODULUS_LEGACY`] bits
/// in a year no later than [`CUTOFF_YEAR`].
pub open spec fn ifc_is_compliant(ctx: Context, key: Ifc) -> bool {
    &&& key.strength() >= ctx.target(REACH)
    &&& (key.k >= MODULUS || (key.k >= MODULUS_LEGACY && ctx.year <= CUTOFF_YEAR))
}

/// The modulus recommended in a context: the smallest of 3072, 7680 and
/// 15360 bits that reaches the target, and the largest for a target
/// beyond all three.
pub open spec fn recommended_ifc(ctx: Context) -> Ifc {
    if ctx.security <= 128 {
        rsa3072()
    } else if ctx.security <= 192 {
        rsa7680()
    } else {
        rsa15360()
    }
}

/// What [`validate_ifc`] returns.
pub open spec fn ifc_verdict(ctx: Context, key: Ifc) -> Result<Ifc, Ifc> {
    if ifc_is_compliant(ctx, key) {
        Ok(key)
    } else {
        Err(recommended_ifc(ctx))
    }
}

/// Validates a hash function. A compliant one is handed back in `Ok`;
/// otherwise `Err` holds [`recommended_hash`].
pub fn validate_hash(ctx: &Context, hash: &hash::Hash) -> (verdict: Result<hash::Hash, hash::Hash>)
    ensures
        verdict == hash_verdict(*ctx, *hash),
{
    if hash.security() >= ctx.required(SECURITY, REACH) {
        Ok(*hash)
    } else if ctx.security <= 128 {
        Err(hash::sha256())
    } else if ctx.security <= 192 {
        Err(hash::sha384())
    } else {
        Err(hash::sha512())
    }
}

/// Validates an elliptic curve. A compliant one is handed back in `Ok`;
/// otherwise `Err` holds [`recommended_ecc`].
pub fn validate_ecc(ctx: &Context, key: &Ecc) -> (verdict: Result<Ecc, Ecc>)
    ensures
        verdict == ecc_verdict(*ctx, *key),
{
    if key.security() >= ctx.required(SECURITY_ECC, REACH_ECC) {
        Ok(*key)
    } else if ctx.security <= 128 {
        Err(brainpoolp256r1())
    } else if ctx.security <= 160 {
        Err(brainpoolp320r1())
    } else if ctx.security <= 192 {
        Err(brainpoolp384r1())
    } else if ctx.security <= 256 {
        Err(brainpoolp512r1())
    } else {
        Err(p521())
    }
}

/// Validates a modulus. A compliant one is handed back in `Ok`;
/// otherwise `Err` holds [`recommended_ifc`].
pub fn validate_ifc(ctx: &Context, key: &Ifc) -> (verdict: Result<Ifc, Ifc>)
    ensures
        verdict == ifc_verdict(*ctx, *key),
{
    let sized = key.k >= MODULUS || (key.k >= MODULUS_LEGACY && ctx.year <= CUTOFF_YEAR);
    if sized && key.security() >= ctx.target(REACH) {
        Ok(*key)
    } else if ctx.security <= 128 {
        Err(rsa3072())
    } else if ctx.security <= 192 {
        Err(rsa7680())
    } else {
        Err(rsa15360())
    }
}

/// A hash function at least as strong as a compliant one is compliant.
pub proof fn hash_compliance_is_monotonic(ctx: Context, weaker: hash::Hash, stronger: hash::Hash)
    requires
        stronger.strength() >= weaker.strength(),
        hash_verdict(ctx, weaker) is Ok,
    ensures
        hash_verdict(ctx, stronger) is Ok,
{
}

/// An elliptic curve at least as strong as a compliant one is compliant.
pub proof fn ecc_compliance_is_monotonic(ctx: Context, weaker: Ecc, stronger: Ecc)
    requires
        stronger.strength() >= weaker.strength(),
        ecc_verdict(ctx, weaker) is Ok,
    ensures
        ecc_verdict(ctx, stronger) is Ok,
{
}

/// A modulus at least as large as a compliant one is compliant. The law
/// is one of size, not of strength: the guideline sets its floors
/// between the sizes at which the strength of a modulus rises.
pub proof fn ifc_compliance_is_monotonic(ctx: Context, smaller: Ifc, larger: Ifc)
    requires
        larger.k >= smaller.k,
        ifc_verdict(ctx, smaller) is Ok,
    ensures
        ifc_verdict(ctx, larger) is Ok,
{
}

/// A modulus of at least [`MODULUS_LEGACY`] but fewer than [`MODULUS`]
/// bits that reaches the target is compliant through [`CUTOFF_YEAR`]
/// and in no later year. In particular it is accepted for the cutoff
/// year itself and turned down for the year after.
pub proof fn legacy_modulus_cutoff_is_sharp(ctx: Context, key: Ifc)
    requires
        MODULUS_LEGACY <= key.k < MODULUS,
        key.strength() >= ctx.target(REACH),
    ensures
        ifc_verdict(ctx, key) is Ok <==> ctx.year <= CUTOFF_YEAR,
        ifc_verdict(Context { security: ctx.security, year: CUTOFF_YEAR }, key) is Ok,
        ifc_verdict(Context { security: ctx.security, year: (CUTOFF_YEAR + 1) as u16 }, key) is Err,
{
}

/// The hash function that is recommended in a context is compliant in
/// that context, whatever the context: a verdict never recommends what
/// it would turn down.
pub proof fn recommended_hash_is_compliant(ctx: Context)
    ensures
        hash_verdict(ctx, recommended_hash(ctx)) == Ok::<hash::Hash, hash::Hash>(recommended_hash(ctx)),
{
}

/// The curve that is recommended in a context is compliant in that
/// context, whatever the context.
pub proof fn recommended_ecc_is_compliant(ctx: Context)
    ensures
        ecc_verdict(ctx, recommended_ecc(ctx)) == Ok::<Ecc, Ecc>(recommended_ecc(ctx)),
{
}

/// The modulus that is recommended in a context is compliant in that
/// context, whatever the context.
pub proof fn recommended_ifc_is_compliant(ctx: Context)
    ensures
        ifc_verdict(ctx, recommended_ifc(ctx)) == Ok::<Ifc, Ifc>(recommended_ifc(ctx)),
{
}

} // verus!
