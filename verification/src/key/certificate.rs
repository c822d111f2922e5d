//! What a certificate declares about the algorithms it uses.
//!
//! A certificate names its algorithms by object identifiers. This module
//! holds the table that maps the identifiers it recognises to primitives
//! of the catalogue. An identifier that the table lacks maps to nothing,
//! and the check of that primitive is left out.

use vstd::prelude::*;
use crate::primitives::asymmetric::Asymmetric;
use crate::primitives::ecc::{
    brainpoolp224r1, brainpoolp256r1, brainpoolp320r1, brainpoolp384r1, brainpoolp512r1,
    curve25519, curve448, edwards25519, edwards448, p224, p256, p384, p521, secp256k1, Ecc,
};
use crate::primitives::hash;
use crate::primitives::ifc::Ifc;

verus! {

/// The algorithm declarations of a parsed X.509 certificate. An object
/// identifier is held as the sequence of its arcs, so that
/// `1.2.840.10045.2.1` is `[1, 2, 840, 10045, 2, 1]`.
#[derive(Debug, PartialEq, Eq)]
pub struct Certificate {
    /// The identifier of the algorithm with which the certificate is
    /// signed.
    pub signature_algorithm: Vec<u64>,
    /// The identifier of the algorithm of the subject's public key.
    pub key_algorithm: Vec<u64>,
    /// The identifier of the named curve that the parameters of the
    /// public key declare; empty where they declare none.
    pub key_curve: Vec<u64>,
    /// The size in bits of the modulus of the public key; zero where the
    /// key has none.
    pub key_size: u16,
}

/// The hash function that a signature algorithm applies, for the
/// signature algorithms of PKCS #1 and ANSI X9.62 that fix one.
pub open spec fn signature_hash(id: Seq<u64>) -> Option<hash::Hash> {
    if id == [1u64, 2, 840, 113549, 1, 1, 4]@ {
        Some(hash::md5())
    } else if id == [1u64, 2, 840, 113549, 1, 1, 5]@ {
        Some(hash::sha1())
    } else if id == [1u64, 2, 840, 113549, 1, 1, 11]@ {
        Some(hash::sha256())
    } else if id == [1u64, 2, 840, 113549, 1, 1, 12]@ {
        Some(hash::sha384())
    } else if id == [1u64, 2, 840, 113549, 1, 1, 13]@ {
        Some(hash::sha512())
    } else if id == [1u64, 2, 840, 113549, 1, 1, 14]@ {
        Some(hash::sha224())
    } else if id == [1u64, 2, 840, 113549, 1, 1, 15]@ {
        Some(hash::sha512_224())
    } else if id == [1u64, 2, 840, 113549, 1, 1, 16]@ {
        Some(hash::sha512_256())
    } else if id == [1u64, 2, 840, 10045, 4, 1]@ {
        Some(hash::sha1())
    } else if id == [1u64, 2, 840, 10045, 4, 3, 1]@ {
        Some(hash::sha224())
    } else if id == [1u64, 2, 840, 10045, 4, 3, 2]@ {
        Some(hash::sha256())
    } else if id == [1u64, 2, 840, 10045, 4, 3, 3]@ {
        Some(hash::sha384())
    } else if id == [1u64, 2, 840, 10045, 4, 3, 4]@ {
        Some(hash::sha512())
    } else {
        None
    }
}

/// The curve that a named-curve identifier stands for.
pub open spec fn named_curve(id: Seq<u64>) -> Option<Ecc> {
    if id == [1u64, 2, 840, 10045, 3, 1, 7]@ {
        Some(p256())
    } else if id == [1u64, 3, 132, 0, 33]@ {
        Some(p224())
    } else if id == [1u64, 3, 132, 0, 34]@ {
        Some(p384())
    } else if id == [1u64, 3, 132, 0, 35]@ {
        Some(p521())
    } else if id == [1u64, 3, 132, 0, 10]@ {
        Some(secp256k1())
    } else if id == [1u64, 3, 36, 3, 3, 2, 8, 1, 1, 5]@ {
        Some(brainpoolp224r1())
    } else if id == [1u64, 3, 36, 3, 3, 2, 8, 1, 1, 7]@ {
        Some(brainpoolp256r1())
    } else if id == [1u64, 3, 36, 3, 3, 2, 8, 1, 1, 9]@ {
        Some(brainpoolp320r1())
    } else if id == [1u64, 3, 36, 3, 3, 2, 8, 1, 1, 11]@ {
        Some(brainpoolp384r1())
    } else if id == [1u64, 3, 36, 3, 3, 2, 8, 1, 1, 13]@ {
        Some(brainpoolp512r1())
    } else {
        None
    }
}

/// The primitive of a public key, from the identifier of its algorithm,
/// the identifier of its named curve and the size of its modulus. An
/// RSA key is whatever its modulus size makes it; an elliptic curve key
/// is its named curve; the keys of RFC 8410 name their curve by the
/// algorithm identifier alone.
pub open spec fn public_key(algorithm: Seq<u64>, curve: Seq<u64>, size: u16) -> Option<Asymmetric> {
    if algorithm == [1u64, 2, 840, 113549, 1, 1, 1]@ {
        Some(Asymmetric::Ifc(Ifc { k: size }))
    } else if algorithm == [1u64, 2, 840, 10045, 2, 1]@ {
        match named_curve(curve) {
            Some(key) => Some(Asymmetric::Ecc(key)),
            None => None,
        }
    } else if algorithm == [1u64, 3, 101, 110]@ {
        Some(Asymmetric::Ecc(curve25519()))
    } else if algorithm == [1u64, 3, 101, 111]@ {
        Some(Asymmetric::Ecc(curve448()))
    } else if algorithm == [1u64, 3, 101, 112]@ {
        Some(Asymmetric::Ecc(edwards25519()))
    } else if algorithm == [1u64, 3, 101, 113]@ {
        Some(Asymmetric::Ecc(edwards448()))
    } else {
        None
    }
}

/// Whether two identifiers have the same arcs.
fn same(id: &[u64], arcs: &[u64]) -> (same: bool)
    ensures
        same == (id@ == arcs@),
{
    if id.len() != arcs.len() {
        return false;
    }
    let mut i: usize = 0;
    while i < id.len()
        invariant
            id@.len() == arcs@.len(),
            i <= id@.len(),
            forall|j: int| 0 <= j < i ==> id@[j] == arcs@[j],
        decreases id@.len() - i,
    {
        if id[i] != arcs[i] {
            return false;
        }
        i += 1;
    }
    assert(id@ =~= arcs@);
    true
}

/// Looks a named-curve identifier up in the table of [`named_curve`].
fn curve_of(id: &[u64]) -> (found: Option<Ecc>)
    ensures
        found == named_curve(id@),
{
    if same(id, &[1, 2, 840, 10045, 3, 1, 7]) {
        Some(p256())
    } else if same(id, &[1, 3, 132, 0, 33]) {
        Some(p224())
    } else if same(id, &[1, 3, 132, 0, 34]) {
        Some(p384())
    } else if same(id, &[1, 3, 132, 0, 35]) {
        Some(p521())
    } else if same(id, &[1, 3, 132, 0, 10]) {
        Some(secp256k1())
    } else if same(id, &[1, 3, 36, 3, 3, 2, 8, 1, 1, 5]) {
        Some(brainpoolp224r1())
    } else if same(id, &[1, 3, 36, 3, 3, 2, 8, 1, 1, 7]) {
        Some(brainpoolp256r1())
    } else if same(id, &[1, 3, 36, 3, 3, 2, 8, 1, 1, 9]) {
        Some(brainpoolp320r1())
    } else if same(id, &[1, 3, 36, 3, 3, 2, 8, 1, 1, 11]) {
        Some(brainpoolp384r1())
    } else if same(id, &[1, 3, 36, 3, 3, 2, 8, 1, 1, 13]) {
        Some(brainpoolp512r1())
    } else {
        None
    }
}

impl Certificate {
    /// The hash function that the certificate's signature applies, as
    /// far as the table of [`signature_hash`] knows it.
    pub open spec fn hash_function(self) -> Option<hash::Hash> {
        signature_hash(self.signature_algorithm@)
    }

    /// The primitive of the certificate's public key, as far as the
    /// table of [`public_key`] knows it.
    pub open spec fn signature_algorithm(self) -> Option<Asymmetric> {
        public_key(self.key_algorithm@, self.key_curve@, self.key_size)
    }

    /// Extracts the hash function that the certificate's signature
    /// applies. An identifier outside the table gives `None`.
    pub fn extract_hash_function(&self) -> (found: Option<hash::Hash>)
        ensures
            found == self.hash_function(),
    {
        let id = self.signature_algorithm.as_slice();
        if same(id, &[1, 2, 840, 113549, 1, 1, 4]) {
            Some(hash::md5())
        } else if same(id, &[1, 2, 840, 113549, 1, 1, 5]) {
            Some(hash::sha1())
        } else if same(id, &[1, 2, 840, 113549, 1, 1, 11]) {
            Some(hash::sha256())
        } else if same(id, &[1, 2, 840, 113549, 1, 1, 12]) {
            Some(hash::sha384())
        } else if same(id, &[1, 2, 840, 113549, 1, 1, 13]) {
            Some(hash::sha512())
        } else if same(id, &[1, 2, 840, 113549, 1, 1, 14]) {
            Some(hash::sha224())
        } else if same(id, &[1, 2, 840, 113549, 1, 1, 15]) {
            Some(hash::sha512_224())
        } else if same(id, &[1, 2, 840, 113549, 1, 1, 16]) {
            Some(hash::sha512_256())
        } else if same(id, &[1, 2, 840, 10045, 4, 1]) {
            Some(hash::sha1())
        } else if same(id, &[1, 2, 840, 10045, 4, 3, 1]) {
            Some(hash::sha224())
        } else if same(id, &[1, 2, 840, 10045, 4, 3, 2]) {
            Some(hash::sha256())
        } else if same(id, &[1, 2, 840, 10045, 4, 3, 3]) {
            Some(hash::sha384())
        } else if same(id, &[1, 2, 840, 10045, 4, 3, 4]) {
            Some(hash::sha512())
        } else {
            None
        }
    }

    /// Extracts the primitive of the certificate's public key. An
    /// identifier outside the table gives `None`.
    pub fn extract_signature_algorithm(&self) -> (found: Option<Asymmetric>)
        ensures
            found == self.signature_algorithm(),
    {
        let id = self.key_algorithm.as_slice();
        if same(id, &[1, 2, 840, 113549, 1, 1, 1]) {
            Some(Asymmetric::Ifc(Ifc { k: self.key_size }))
        } else if same(id, &[1, 2, 840, 10045, 2, 1]) {
            match curve_of(self.key_curve.as_slice()) {
                Some(key) => Some(Asymmetric::Ecc(key)),
                None => None,
            }
        } else if same(id, &[1, 3, 101, 110]) {
            Some(Asymmetric::Ecc(curve25519()))
        } else if same(id, &[1, 3, 101, 111]) {
            Some(Asymmetric::Ecc(curve448()))
        } else if same(id, &[1, 3, 101, 112]) {
            Some(Asymmetric::Ecc(edwards25519()))
        } else if same(id, &[1, 3, 101, 113]) {
            Some(Asymmetric::Ecc(edwards448()))
        } else {
            None
        }
    }
}

} // verus!
