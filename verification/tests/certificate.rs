use wardstone::key::certificate::Certificate;
use wardstone::primitives::asymmetric::Asymmetric;
use wardstone::primitives::ecc;
use wardstone::primitives::hash;
use wardstone::primitives::ifc;

fn signed_with(id: &[u64]) -> Certificate {
    Certificate {
        signature_algorithm: id.to_vec(),
        key_algorithm: Vec::new(),
        key_curve: Vec::new(),
        key_size: 0,
    }
}

fn keyed_with(algorithm: &[u64], curve: &[u64], bits: u16) -> Certificate {
    Certificate {
        signature_algorithm: Vec::new(),
        key_algorithm: algorithm.to_vec(),
        key_curve: curve.to_vec(),
        key_size: bits,
    }
}

#[test]
fn rsa_signature_algorithms_name_their_hash() {
    let table = [
        (4u64, hash::md5()),
        (5, hash::sha1()),
        (11, hash::sha256()),
        (12, hash::sha384()),
        (13, hash::sha512()),
        (14, hash::sha224()),
        (15, hash::sha512_224()),
        (16, hash::sha512_256()),
    ];
    for (leaf, want) in table {
        let cert = signed_with(&[1, 2, 840, 113549, 1, 1, leaf]);
        assert_eq!(cert.extract_hash_function(), Some(want));
    }
}

#[test]
fn ecdsa_signature_algorithms_name_their_hash() {
    assert_eq!(signed_with(&[1, 2, 840, 10045, 4, 1]).extract_hash_function(), Some(hash::sha1()));
    let table =
        [(1u64, hash::sha224()), (2, hash::sha256()), (3, hash::sha384()), (4, hash::sha512())];
    for (leaf, want) in table {
        let cert = signed_with(&[1, 2, 840, 10045, 4, 3, leaf]);
        assert_eq!(cert.extract_hash_function(), Some(want));
    }
}

#[test]
fn unknown_signature_algorithms_name_no_hash() {
    assert_eq!(signed_with(&[]).extract_hash_function(), None);
    assert_eq!(signed_with(&[1]).extract_hash_function(), None);
    assert_eq!(signed_with(&[1, 2, 840, 113549, 1, 1]).extract_hash_function(), None);
    assert_eq!(signed_with(&[1, 2, 840, 113549, 1, 1, 10]).extract_hash_function(), None);
    assert_eq!(signed_with(&[1, 2, 840, 113549, 1, 1, 11, 0]).extract_hash_function(), None);
    assert_eq!(signed_with(&[2, 2, 840, 113549, 1, 1, 11]).extract_hash_function(), None);
    assert_eq!(signed_with(&[1, 2, 840, 10045, 4, 3, 5]).extract_hash_function(), None);
    assert_eq!(signed_with(&[1, 3, 101, 112]).extract_hash_function(), None);
    assert_eq!(signed_with(&[u64::MAX; 7]).extract_hash_function(), None);
}

#[test]
fn rsa_key_is_its_modulus_size() {
    let rsa = [1u64, 2, 840, 113549, 1, 1, 1];
    for bits in [0u16, 1024, 2048, 3000, 4096, u16::MAX] {
        assert_eq!(
            keyed_with(&rsa, &[], bits).extract_signature_algorithm(),
            Some(Asymmetric::Ifc(ifc::Ifc { k: bits }))
        );
    }
}

#[test]
fn elliptic_curve_key_is_its_named_curve() {
    let ec = [1u64, 2, 840, 10045, 2, 1];
    let curves: [(&[u64], ecc::Ecc); 10] = [
        (&[1, 2, 840, 10045, 3, 1, 7], ecc::p256()),
        (&[1, 3, 132, 0, 33], ecc::p224()),
        (&[1, 3, 132, 0, 34], ecc::p384()),
        (&[1, 3, 132, 0, 35], ecc::p521()),
        (&[1, 3, 132, 0, 10], ecc::secp256k1()),
        (&[1, 3, 36, 3, 3, 2, 8, 1, 1, 5], ecc::brainpoolp224r1()),
        (&[1, 3, 36, 3, 3, 2, 8, 1, 1, 7], ecc::brainpoolp256r1()),
        (&[1, 3, 36, 3, 3, 2, 8, 1, 1, 9], ecc::brainpoolp320r1()),
        (&[1, 3, 36, 3, 3, 2, 8, 1, 1, 11], ecc::brainpoolp384r1()),
        (&[1, 3, 36, 3, 3, 2, 8, 1, 1, 13], ecc::brainpoolp512r1()),
    ];
    for (curve, want) in curves {
        assert_eq!(
            keyed_with(&ec, curve, 0).extract_signature_algorithm(),
            Some(Asymmetric::Ecc(want))
        );
    }
}

#[test]
fn elliptic_curve_key_with_unknown_curve_is_nothing() {
    let ec = [1u64, 2, 840, 10045, 2, 1];
    assert_eq!(keyed_with(&ec, &[], 256).extract_signature_algorithm(), None);
    assert_eq!(keyed_with(&ec, &[1, 3, 132, 0, 36], 0).extract_signature_algorithm(), None);
    assert_eq!(keyed_with(&ec, &[1, 3, 132, 0], 0).extract_signature_algorithm(), None);
}

#[test]
fn edwards_and_montgomery_keys_are_named_by_their_algorithm() {
    assert_eq!(
        keyed_with(&[1, 3, 101, 110], &[], 0).extract_signature_algorithm(),
        Some(Asymmetric::Ecc(ecc::curve25519()))
    );
    assert_eq!(
        keyed_with(&[1, 3, 101, 111], &[], 0).extract_signature_algorithm(),
        Some(Asymmetric::Ecc(ecc::curve448()))
    );
    assert_eq!(
        keyed_with(&[1, 3, 101, 112], &[], 0).extract_signature_algorithm(),
        Some(Asymmetric::Ecc(ecc::edwards25519()))
    );
    assert_eq!(
        keyed_with(&[1, 3, 101, 113], &[], 0).extract_signature_algorithm(),
        Some(Asymmetric::Ecc(ecc::edwards448()))
    );
}

#[test]
fn unknown_key_algorithms_are_nothing() {
    assert_eq!(keyed_with(&[], &[], 2048).extract_signature_algorithm(), None);
    assert_eq!(keyed_with(&[1, 2, 840, 10040, 4, 1], &[], 2048).extract_signature_algorithm(), None);
    assert_eq!(
        keyed_with(&[1, 2, 840, 113549, 1, 1, 1, 1], &[], 2048).extract_signature_algorithm(),
        None
    );
    assert_eq!(keyed_with(&[1, 3, 101, 114], &[], 0).extract_signature_algorithm(), None);
    assert_eq!(
        keyed_with(&[1, 2, 840, 10045, 3, 1, 7], &[1, 2, 840, 10045, 3, 1, 7], 0)
            .extract_signature_algorithm(),
        None
    );
}
