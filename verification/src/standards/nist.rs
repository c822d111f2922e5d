//! Validation against NIST Special Publication 800-57 Part 1 Revision 5.

use vstd::prelude::*;
use crate::primitives::hash;
use crate::primitives::symmetric::{aes128, Symmetric};

verus! {

/// The last year in which a key of exactly 112 bits of security, that
/// is three-key Triple DES, may still be applied.
pub const CUTOFF_YEAR: u16 = 2023;

/// Whether a hash function offers the 112 bits of collision resistance
/// that the standard asks of digital signatures.
pub open spec fn hash_is_compliant(hash: hash::Hash) -> bool {
    hash.strength() >= 112
}

/// What [`validate_hash`] returns: the hash function itself where it is
/// compliant, and SHA-256 as the one to use instead where it is not.
pub open spec fn hash_verdict(hash: hash::Hash) -> Result<hash::Hash, hash::Hash> {
    if hash_is_compliant(hash) {
        Ok(hash)
    } else {
        Err(hash::sha256())
    }
}

/// Whether a symmetric key may protect data until the year `expiry`.
/// A strength of 128 bits or more is accepted for good, a strength of
/// exactly 112 bits through [`CUTOFF_YEAR`], and nothing else.
pub open spec fn symmetric_is_compliant(key: Symmetric, expiry: u16) -> bool {
    key.strength() >= 128 || (key.strength() == 112 && expiry <= CUTOFF_YEAR)
}

/// What [`validate_symmetric`] returns: the key itself where it is
/// compliant, and AES-128 as the one to use instead where it is not.
pub open spec fn symmetric_verdict(key: Symmetric, expiry: u16) -> Result<Symmetric, Symmetric> {
    if symmetric_is_compliant(key, expiry) {
        Ok(key)
    } else {
        Err(aes128())
    }
}

/// Validates a hash function for applications that need collision
/// resistance, such as digital signatures.
///
/// A compliant function is handed back in `Ok`. Otherwise `Err` holds
/// the function to use instead. That is SHA-256, which is safe for most
/// uses but open to length extension, so it is a poor choice for hashing
/// secrets.
pub fn validate_hash(hash: &hash::Hash) -> (verdict: Result<hash::Hash, hash::Hash>)
    ensures
        verdict == hash_verdict(*hash),
{
    if hash.security() >= 112 {
        Ok(*hash)
    } else {
        Err(hash::sha256())
    }
}

/// Validates a symmetric key that is to protect data until the year
/// `expiry`.
///
/// A compliant key is handed back in `Ok`. Otherwise `Err` holds the
/// key to use instead, which is AES-128.
pub fn validate_symmetric(key: &Symmetric, expiry: u16) -> (verdict: Result<Symmetric, Symmetric>)
    ensures
        verdict == symmetric_verdict(*key, expiry),
{
    if key.security >= 128 || (key.security == 112 && expiry <= CUTOFF_YEAR) {
        Ok(*key)
    } else {
        Err(aes128())
    }
}

/// The status of a call that lacks the primitive to validate.
pub const INVALID_ARGUMENT: i32 = -1;

/// The status of a primitive that is not compliant.
pub const NOT_COMPLIANT: i32 = 0;

/// The status of a compliant primitive.
pub const COMPLIANT: i32 = 1;

/// The status that stands for a verdict, and for the lack of one where
/// there was nothing to validate.
pub open spec fn status_of<P>(verdict: Option<Result<P, P>>) -> i32 {
    match verdict {
        None => INVALID_ARGUMENT,
        Some(Ok(_)) => COMPLIANT,
        Some(Err(_)) => NOT_COMPLIANT,
    }
}

/// What a place for the recommendation holds after a call: the
/// recommendation where the verdict gives one, and else what it held
/// before.
pub open spec fn written<P>(before: P, verdict: Option<Result<P, P>>) -> P {
    match verdict {
        Some(Err(recommendation)) => recommendation,
        _ => before,
    }
}

/// [`validate_hash`] for callers that may lack either argument.
///
/// Without a hash function the status is [`INVALID_ARGUMENT`] and
/// nothing is written. Otherwise the status is [`COMPLIANT`] or
/// [`NOT_COMPLIANT`], and in the latter case the recommended hash
/// function is written to `alt`, where there is one.
pub fn ws_nist_validate_hash(hash: Option<&hash::Hash>, alt: Option<&mut hash::Hash>) -> (status: i32)
    ensures
        status == status_of(
            match hash {
                Some(h) => Some(hash_verdict(*h)),
                None => None,
            },
        ),
        alt matches Some(place) ==> *final(place) == written(
            *place,
            match hash {
                Some(h) => Some(hash_verdict(*h)),
                None => None,
            },
        ),
{
    match hash {
        None => INVALID_ARGUMENT,
        Some(hash_ref) => match validate_hash(hash_ref) {
            Ok(_) => COMPLIANT,
            Err(recommendation) => {
                match alt {
                    Some(place) => {
                        *place = recommendation;
                    },
                    None => {},
                }
                NOT_COMPLIANT
            },
        },
    }
}

/// [`validate_symmetric`] for callers that may lack either argument.
///
/// Without a key the status is [`INVALID_ARGUMENT`] and nothing is
/// written. Otherwise the status is [`COMPLIANT`] or [`NOT_COMPLIANT`],
/// and in the latter case the recommended key is written to
/// `alternative`, where there is one.
pub fn ws_nist_validate_symmetric(
    key: Option<&Symmetric>,
    expiry: u16,
    alternative: Option<&mut Symmetric>,
) -> (status: i32)
    ensures
        status == status_of(
            match key {
                Some(k) => Some(symmetric_verdict(*k, expiry)),
                None => None,
            },
        ),
        alternative matches Some(place) ==> *final(place) == written(
            *place,
            match key {
                Some(k) => Some(symmetric_verdict(*k, expiry)),
                None => None,
            },
        ),
{
    match key {
        None => INVALID_ARGUMENT,
        Some(key_ref) => match validate_symmetric(key_ref, expiry) {
            Ok(_) => COMPLIANT,
            Err(recommendation) => {
                match alternative {
                    Some(place) => {
                        *place = recommendation;
                    },
                    None => {},
                }
                NOT_COMPLIANT
            },
        },
    }
}

/// Validating a hash function twice gives the same verdict twice: the
/// verdict depends on nothing but the hash function.
pub proof fn hash_validation_is_deterministic(
    hash: hash::Hash,
    first: Result<hash::Hash, hash::Hash>,
    second: Result<hash::Hash, hash::Hash>,
)
    requires
        first == hash_verdict(hash),
        second == hash_verdict(hash),
    ensures
        first == second,
{
}

/// Validating a key twice for the same year gives the same verdict
/// twice: the verdict depends on nothing but the key and the year.
pub proof fn symmetric_validation_is_deterministic(
    key: Symmetric,
    expiry: u16,
    first: Result<Symmetric, Symmetric>,
    second: Result<Symmetric, Symmetric>,
)
    requires
        first == symmetric_verdict(key, expiry),
        second == symmetric_verdict(key, expiry),
    ensures
        first == second,
{
}

/// A hash function at least as strong as a compliant one is compliant.
pub proof fn hash_compliance_is_monotonic(weaker: hash::Hash, stronger: hash::Hash)
    requires
        stronger.strength() >= weaker.strength(),
        hash_verdict(weaker) is Ok,
    ensures
        hash_verdict(stronger) is Ok,
{
}

/// A key at least as strong as a compliant one is compliant, unless its
/// strength lies between the two strengths that the standard accepts:
/// above the 112 bits that are accepted through [`CUTOFF_YEAR`] and
/// below the 128 bits that are accepted for good.
pub proof fn symmetric_compliance_is_monotonic(weaker: Symmetric, stronger: Symmetric, expiry: u16)
    requires
        stronger.strength() >= weaker.strength(),
        symmetric_verdict(weaker, expiry) is Ok,
        !(112 < stronger.strength() < 128),
    ensures
        symmetric_verdict(stronger, expiry) is Ok,
{
}

/// A key of exactly 112 bits of security is compliant through
/// [`CUTOFF_YEAR`] and in no later year. In particular it is accepted
/// for the cutoff year itself and turned down for the year after.
pub proof fn symmetric_cutoff_is_sharp(key: Symmetric, expiry: u16)
    requires
        key.strength() == 112,
    ensures
        symmetric_verdict(key, expiry) is Ok <==> expiry <= CUTOFF_YEAR,
        symmetric_verdict(key, CUTOFF_YEAR) == Ok::<Symmetric, Symmetric>(key),
        symmetric_verdict(key, (CUTOFF_YEAR + 1) as u16) == Err::<Symmetric, Symmetric>(aes128()),
{
}

/// The hash function that a verdict recommends is itself compliant.
pub proof fn recommended_hash_is_compliant(hash: hash::Hash, recommended: hash::Hash)
    requires
        hash_verdict(hash) == Err::<hash::Hash, hash::Hash>(recommended),
    ensures
        hash_verdict(recommended) == Ok::<hash::Hash, hash::Hash>(recommended),
{
}

/// The key that a verdict recommends is itself compliant for the same
/// year.
pub proof fn recommended_symmetric_is_compliant(key: Symmetric, expiry: u16, recommended: Symmetric)
    requires
        symmetric_verdict(key, expiry) == Err::<Symmetric, Symmetric>(recommended),
    ensures
        symmetric_verdict(recommended, expiry) == Ok::<Symmetric, Symmetric>(recommended),
{
}

} // verus!
