use wardstone::assess::{x509, Diagnostic, Guide, Report, Status, Stream};
use wardstone::context::Context;
use wardstone::key::certificate::Certificate;
use wardstone::primitives::asymmetric::Asymmetric;
use wardstone::primitives::ecc;
use wardstone::primitives::hash;
use wardstone::primitives::ifc;

const SHA256_WITH_RSA: [u64; 7] = [1, 2, 840, 113549, 1, 1, 11];
const SHA384_WITH_RSA: [u64; 7] = [1, 2, 840, 113549, 1, 1, 12];
const SHA1_WITH_RSA: [u64; 7] = [1, 2, 840, 113549, 1, 1, 5];
const ECDSA_WITH_SHA256: [u64; 7] = [1, 2, 840, 10045, 4, 3, 2];
const ECDSA_WITH_SHA384: [u64; 7] = [1, 2, 840, 10045, 4, 3, 3];
const RSA: [u64; 7] = [1, 2, 840, 113549, 1, 1, 1];
const EC_PUBLIC_KEY: [u64; 6] = [1, 2, 840, 10045, 2, 1];
const PRIME256V1: [u64; 7] = [1, 2, 840, 10045, 3, 1, 7];
const SECP384R1: [u64; 5] = [1, 3, 132, 0, 34];

fn rsa_certificate(signature: &[u64], bits: u16) -> Certificate {
    Certificate {
        signature_algorithm: signature.to_vec(),
        key_algorithm: RSA.to_vec(),
        key_curve: Vec::new(),
        key_size: bits,
    }
}

fn ec_certificate(signature: &[u64], curve: &[u64]) -> Certificate {
    Certificate {
        signature_algorithm: signature.to_vec(),
        key_algorithm: EC_PUBLIC_KEY.to_vec(),
        key_curve: curve.to_vec(),
        key_size: 0,
    }
}

#[test]
fn guide_dispatches_hash_validation() {
    let ctx = Context::default();
    assert_eq!(Guide::Bsi.validate_hash_function(&ctx, &hash::sha256()), Ok(hash::sha256()));
    assert_eq!(Guide::Cnsa.validate_hash_function(&ctx, &hash::sha256()), Err(hash::sha384()));
    assert_eq!(Guide::Bsi.validate_hash_function(&ctx, &hash::sha1()), Err(hash::sha256()));
    assert_eq!(Guide::Cnsa.validate_hash_function(&ctx, &hash::sha512()), Ok(hash::sha512()));
}

#[test]
fn guide_keeps_the_family_of_a_signature_algorithm() {
    let ctx = Context::default();
    assert_eq!(
        Guide::Bsi.validate_signature_algorithm(&ctx, &Asymmetric::Ecc(ecc::p256())),
        Ok(Asymmetric::Ecc(ecc::p256()))
    );
    assert_eq!(
        Guide::Bsi.validate_signature_algorithm(&ctx, &Asymmetric::Ecc(ecc::p224())),
        Err(Asymmetric::Ecc(ecc::brainpoolp256r1()))
    );
    assert_eq!(
        Guide::Bsi.validate_signature_algorithm(&ctx, &Asymmetric::Ifc(ifc::rsa2048())),
        Ok(Asymmetric::Ifc(ifc::rsa2048()))
    );
    assert_eq!(
        Guide::Bsi.validate_signature_algorithm(&ctx, &Asymmetric::Ifc(ifc::rsa1024())),
        Err(Asymmetric::Ifc(ifc::rsa3072()))
    );
    assert_eq!(
        Guide::Cnsa.validate_signature_algorithm(&ctx, &Asymmetric::Ecc(ecc::p256())),
        Err(Asymmetric::Ecc(ecc::p384()))
    );
    assert_eq!(
        Guide::Cnsa.validate_signature_algorithm(&ctx, &Asymmetric::Ecc(ecc::p384())),
        Ok(Asymmetric::Ecc(ecc::p384()))
    );
    assert_eq!(
        Guide::Cnsa.validate_signature_algorithm(&ctx, &Asymmetric::Ifc(ifc::rsa2048())),
        Err(Asymmetric::Ifc(ifc::rsa3072()))
    );
    assert_eq!(
        Guide::Cnsa.validate_signature_algorithm(&ctx, &Asymmetric::Ifc(ifc::rsa4096())),
        Ok(Asymmetric::Ifc(ifc::rsa4096()))
    );
}

#[test]
fn guide_validation_twice_gives_the_same_verdict() {
    for guide in [Guide::Bsi, Guide::Cnsa] {
        for year in [2023u16, 2024] {
            let ctx = Context::new(0, year);
            for size in [0u16, 224, 256, 384, 2048, 3072] {
                let h = hash::Hash { n: size };
                assert_eq!(
                    guide.validate_hash_function(&ctx, &h),
                    guide.validate_hash_function(&ctx, &h)
                );
                let e = Asymmetric::Ecc(ecc::Ecc { f: size });
                assert_eq!(
                    guide.validate_signature_algorithm(&ctx, &e),
                    guide.validate_signature_algorithm(&ctx, &e)
                );
                let i = Asymmetric::Ifc(ifc::Ifc { k: size });
                assert_eq!(
                    guide.validate_signature_algorithm(&ctx, &i),
                    guide.validate_signature_algorithm(&ctx, &i)
                );
            }
        }
    }
}

#[test]
fn guide_recommendations_are_compliant() {
    for guide in [Guide::Bsi, Guide::Cnsa] {
        for security in [0u16, 128, 192, 256, 257, 260, 261, 300, u16::MAX] {
            let ctx = Context::new(security, 2024);
            if let Err(r) = guide.validate_hash_function(&ctx, &hash::md5()) {
                assert_eq!(guide.validate_hash_function(&ctx, &r), Ok(r));
            }
            for weak in [
                Asymmetric::Ecc(ecc::Ecc { f: 160 }),
                Asymmetric::Ecc(ecc::p256()),
                Asymmetric::Ifc(ifc::rsa1024()),
                Asymmetric::Ifc(ifc::rsa2048()),
            ] {
                if let Err(r) = guide.validate_signature_algorithm(&ctx, &weak) {
                    assert_eq!(guide.validate_signature_algorithm(&ctx, &r), Ok(r));
                }
            }
        }
    }
}

#[test]
fn guide_recommends_a_compliant_curve_above_256_bits() {
    let ctx = Context::new(258, 2023);
    for guide in [Guide::Bsi, Guide::Cnsa] {
        let weak = Asymmetric::Ecc(ecc::p256());
        let recommended = Asymmetric::Ecc(ecc::p521());
        assert_eq!(guide.validate_signature_algorithm(&ctx, &weak), Err(recommended));
        assert_eq!(guide.validate_signature_algorithm(&ctx, &recommended), Ok(recommended));
    }
    assert_eq!(
        Guide::Bsi.validate_signature_algorithm(&ctx, &Asymmetric::Ecc(ecc::brainpoolp512r1())),
        Err(Asymmetric::Ecc(ecc::p521()))
    );
}

#[test]
fn guide_recommendations_beyond_every_primitive_are_compliant() {
    for guide in [Guide::Bsi, Guide::Cnsa] {
        for security in [257u16, 300, u16::MAX] {
            let ctx = Context::new(security, 2023);
            assert_eq!(guide.validate_hash_function(&ctx, &hash::sha256()), Err(hash::sha512()));
            assert_eq!(guide.validate_hash_function(&ctx, &hash::sha512()), Ok(hash::sha512()));
            let modulus = Asymmetric::Ifc(ifc::rsa15360());
            assert_eq!(
                guide.validate_signature_algorithm(&ctx, &Asymmetric::Ifc(ifc::rsa2048())),
                Err(modulus)
            );
            assert_eq!(guide.validate_signature_algorithm(&ctx, &modulus), Ok(modulus));
        }
        let ctx = Context::new(300, 2023);
        let curve = Asymmetric::Ecc(ecc::p521());
        assert_eq!(
            guide.validate_signature_algorithm(&ctx, &Asymmetric::Ecc(ecc::p256())),
            Err(curve)
        );
        assert_eq!(guide.validate_signature_algorithm(&ctx, &curve), Ok(curve));
    }
}

#[test]
fn status_renders_as_a_line() {
    assert_eq!(Status::Pass("a/b.pem".to_string()).to_string(), "ok: a/b.pem");
    assert_eq!(Status::Fail("a/b.pem".to_string()).to_string(), "fail: a/b.pem");
    assert_eq!(Status::Pass(String::new()).to_string(), "ok: ");
}

#[test]
fn status_report_names_stream_and_success() {
    assert_eq!(
        Status::Pass("x.pem".to_string()).report(),
        Report { stream: Stream::Stdout, line: "ok: x.pem".to_string(), success: true }
    );
    assert_eq!(
        Status::Fail("x.pem".to_string()).report(),
        Report { stream: Stream::Stderr, line: "fail: x.pem".to_string(), success: false }
    );
}

#[test]
fn diagnostic_streams() {
    assert_eq!(Diagnostic::Unreadable("bad".to_string()).stream(), Stream::Stderr);
    assert_eq!(
        Diagnostic::HashFunction(hash::sha256(), Ok(hash::sha256())).stream(),
        Stream::Stdout
    );
    assert_eq!(
        Diagnostic::HashFunction(hash::sha1(), Err(hash::sha256())).stream(),
        Stream::Stderr
    );
    let key = Asymmetric::Ecc(ecc::p256());
    assert_eq!(Diagnostic::SignatureAlgorithm(key, Ok(key)).stream(), Stream::Stdout);
    assert_eq!(Diagnostic::SignatureAlgorithm(key, Err(key)).stream(), Stream::Stderr);
}

#[test]
fn compliant_certificate_passes_quietly() {
    let ctx = Context::default();
    let mut log = Vec::new();
    let parsed = Ok(rsa_certificate(&SHA256_WITH_RSA, 3072));
    let status = x509(&ctx, "good.pem", &parsed, &Guide::Bsi, &false, &mut log);
    assert_eq!(status, Status::Pass("good.pem".to_string()));
    assert_eq!(log, vec![]);
}

#[test]
fn compliant_certificate_tells_both_checks_when_verbose() {
    let ctx = Context::default();
    let mut log = Vec::new();
    let parsed = Ok(rsa_certificate(&SHA256_WITH_RSA, 3072));
    let status = x509(&ctx, "good.pem", &parsed, &Guide::Bsi, &true, &mut log);
    assert_eq!(status, Status::Pass("good.pem".to_string()));
    assert_eq!(
        log,
        vec![
            Diagnostic::HashFunction(hash::sha256(), Ok(hash::sha256())),
            Diagnostic::SignatureAlgorithm(
                Asymmetric::Ifc(ifc::rsa3072()),
                Ok(Asymmetric::Ifc(ifc::rsa3072()))
            ),
        ]
    );
}

#[test]
fn failed_hash_check_does_not_stop_the_signature_check() {
    let ctx = Context::default();
    let parsed = Ok(ec_certificate(&[1, 2, 840, 10045, 4, 1], &PRIME256V1));
    let mut log = Vec::new();
    let status = x509(&ctx, "c.pem", &parsed, &Guide::Bsi, &true, &mut log);
    assert_eq!(status, Status::Fail("c.pem".to_string()));
    assert_eq!(
        log,
        vec![
            Diagnostic::HashFunction(hash::sha1(), Err(hash::sha256())),
            Diagnostic::SignatureAlgorithm(
                Asymmetric::Ecc(ecc::p256()),
                Ok(Asymmetric::Ecc(ecc::p256()))
            ),
        ]
    );
    let mut quiet = Vec::new();
    let status = x509(&ctx, "c.pem", &parsed, &Guide::Bsi, &false, &mut quiet);
    assert_eq!(status, Status::Fail("c.pem".to_string()));
    assert_eq!(quiet, vec![Diagnostic::HashFunction(hash::sha1(), Err(hash::sha256()))]);
}

#[test]
fn compliant_hash_and_weak_curve_fail_with_both_diagnostics() {
    let ctx = Context::default();
    let parsed = Ok(ec_certificate(&ECDSA_WITH_SHA384, &PRIME256V1));
    let mut log = Vec::new();
    let status = x509(&ctx, "c.pem", &parsed, &Guide::Cnsa, &true, &mut log);
    assert_eq!(status, Status::Fail("c.pem".to_string()));
    assert_eq!(
        log,
        vec![
            Diagnostic::HashFunction(hash::sha384(), Ok(hash::sha384())),
            Diagnostic::SignatureAlgorithm(
                Asymmetric::Ecc(ecc::p256()),
                Err(Asymmetric::Ecc(ecc::p384()))
            ),
        ]
    );
    assert_eq!(log[0].stream(), Stream::Stdout);
    assert_eq!(log[1].stream(), Stream::Stderr);
    let mut quiet = Vec::new();
    let status = x509(&ctx, "c.pem", &parsed, &Guide::Cnsa, &false, &mut quiet);
    assert_eq!(status, Status::Fail("c.pem".to_string()));
    assert_eq!(
        quiet,
        vec![Diagnostic::SignatureAlgorithm(
            Asymmetric::Ecc(ecc::p256()),
            Err(Asymmetric::Ecc(ecc::p384()))
        )]
    );
}

#[test]
fn both_checks_failing_are_told_in_order() {
    let ctx = Context::default();
    let parsed = Ok(rsa_certificate(&SHA1_WITH_RSA, 1024));
    let mut log = Vec::new();
    let status = x509(&ctx, "old.pem", &parsed, &Guide::Bsi, &false, &mut log);
    assert_eq!(status, Status::Fail("old.pem".to_string()));
    assert_eq!(
        log,
        vec![
            Diagnostic::HashFunction(hash::sha1(), Err(hash::sha256())),
            Diagnostic::SignatureAlgorithm(
                Asymmetric::Ifc(ifc::rsa1024()),
                Err(Asymmetric::Ifc(ifc::rsa3072()))
            ),
        ]
    );
}

#[test]
fn unreadable_certificate_fails_with_the_reason_alone() {
    let ctx = Context::default();
    let parsed: Result<Certificate, String> = Err("malformed PEM".to_string());
    for verbose in [false, true] {
        let mut log = Vec::new();
        let status = x509(&ctx, "broken.pem", &parsed, &Guide::Bsi, &verbose, &mut log);
        assert_eq!(status, Status::Fail("broken.pem".to_string()));
        assert_eq!(log, vec![Diagnostic::Unreadable("malformed PEM".to_string())]);
    }
}

#[test]
fn unknown_identifiers_skip_their_checks() {
    let ctx = Context::default();
    let parsed = Ok(Certificate {
        signature_algorithm: vec![1, 2, 3, 4],
        key_algorithm: vec![9, 9, 9],
        key_curve: vec![],
        key_size: 512,
    });
    let mut log = Vec::new();
    let status = x509(&ctx, "odd.pem", &parsed, &Guide::Cnsa, &true, &mut log);
    assert_eq!(status, Status::Pass("odd.pem".to_string()));
    assert_eq!(log, vec![]);
}

#[test]
fn assessment_adds_to_the_log_it_is_given() {
    let ctx = Context::default();
    let mut log = vec![Diagnostic::Unreadable("earlier".to_string())];
    let parsed = Ok(ec_certificate(&ECDSA_WITH_SHA256, &SECP384R1));
    let status = x509(&ctx, "c.pem", &parsed, &Guide::Cnsa, &false, &mut log);
    assert_eq!(status, Status::Fail("c.pem".to_string()));
    assert_eq!(
        log,
        vec![
            Diagnostic::Unreadable("earlier".to_string()),
            Diagnostic::HashFunction(hash::sha256(), Err(hash::sha384())),
        ]
    );
}

#[test]
fn assessment_follows_the_context_year() {
    let parsed = Ok(rsa_certificate(&SHA384_WITH_RSA, 2048));
    let mut log = Vec::new();
    let status = x509(&Context::new(0, 2023), "c.pem", &parsed, &Guide::Bsi, &false, &mut log);
    assert_eq!(status, Status::Pass("c.pem".to_string()));
    let status = x509(&Context::new(0, 2024), "c.pem", &parsed, &Guide::Bsi, &false, &mut log);
    assert_eq!(status, Status::Fail("c.pem".to_string()));
    assert_eq!(
        log,
        vec![Diagnostic::SignatureAlgorithm(
            Asymmetric::Ifc(ifc::rsa2048()),
            Err(Asymmetric::Ifc(ifc::rsa3072()))
        )]
    );
}

#[test]
fn diagnostic_line_frames_what_was_got_and_wanted() {
    let hash_check = Diagnostic::HashFunction(hash::sha1(), Err(hash::sha256()));
    assert_eq!(hash_check.line("sha1", "sha256"), "hash function: got: sha1, want: sha256");
    let key = Asymmetric::Ecc(ecc::p256());
    let key_check = Diagnostic::SignatureAlgorithm(key, Ok(key));
    assert_eq!(key_check.line("p256", "p256"), "signature algorithm: got: p256, want: p256");
    assert_eq!(key_check.line("", ""), "signature algorithm: got: , want: ");
    let unreadable = Diagnostic::Unreadable("no such file".to_string());
    assert_eq!(unreadable.line("a", "b"), "no such file");
}

#[test]
fn run_passes_only_when_every_file_passes() {
    let pass = || Status::Pass("a".to_string());
    let fail = || Status::Fail("b".to_string());
    assert!(wardstone::assess::all_passed(&[]));
    assert!(wardstone::assess::all_passed(&[pass()]));
    assert!(wardstone::assess::all_passed(&[pass(), pass(), pass()]));
    assert!(!wardstone::assess::all_passed(&[fail()]));
    assert!(!wardstone::assess::all_passed(&[pass(), fail()]));
    assert!(!wardstone::assess::all_passed(&[fail(), pass()]));
    assert!(!wardstone::assess::all_passed(&[pass(), pass(), fail(), pass()]));
}
