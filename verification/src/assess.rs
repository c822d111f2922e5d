//! The assessment of certificates against a guideline.

use vstd::prelude::*;
use vstd::string::StringExecFns;
use crate::context::Context;
use crate::key::certificate::Certificate;
use crate::primitives::asymmetric::Asymmetric;
use crate::primitives::hash;
use crate::standards::{bsi, cnsa};

verus! {

/// The guideline to assess against.
#[derive(Clone, Copy, Debug, PartialEq, Eq, Structural)]
pub enum Guide {
    /// The BSI TR-02102 series of technical guidelines.
    Bsi,
    /// The Commercial National Security Algorithm Suite.
    Cnsa,
}

impl Guide {
    /// What [`Guide::validate_hash_function`] returns: the verdict of
    /// the chosen guideline.
    pub open spec fn hash_verdict(self, ctx: Context, hash: hash::Hash) -> Result<
        hash::Hash,
        hash::Hash,
    > {
        match self {
            Guide::Bsi => bsi::hash_verdict(ctx, hash),
            Guide::Cnsa => cnsa::hash_verdict(ctx, hash),
        }
    }

    /// What [`Guide::validate_signature_algorithm`] returns: the verdict
    /// of the chosen guideline on the primitive inside `algorithm`,
    /// under the variant that `algorithm` has.
    pub open spec fn signature_verdict(self, ctx: Context, algorithm: Asymmetric) -> Result<
        Asymmetric,
        Asymmetric,
    > {
        match algorithm {
            Asymmetric::Ecc(key) => match self.ecc_verdict(ctx, key) {
                Ok(accepted) => Ok(Asymmetric::Ecc(accepted)),
                Err(recommended) => Err(Asymmetric::Ecc(recommended)),
            },
            Asymmetric::Ifc(key) => match self.ifc_verdict(ctx, key) {
                Ok(accepted) => Ok(Asymmetric::Ifc(accepted)),
                Err(recommended) => Err(Asymmetric::Ifc(recommended)),
            },
        }
    }

    /// The verdict of the chosen guideline on an elliptic curve.
    pub open spec fn ecc_verdict(self, ctx: Context, key: crate::primitives::ecc::Ecc) -> Result<
        crate::primitives::ecc::Ecc,
        crate::primitives::ecc::Ecc,
    > {
        match self {
            Guide::Bsi => bsi::ecc_verdict(ctx, key),
            Guide::Cnsa => cnsa::ecc_verdict(ctx, key),
        }
    }

    /// The verdict of the chosen guideline on a modulus.
    pub open spec fn ifc_verdict(self, ctx: Context, key: crate::primitives::ifc::Ifc) -> Result<
        crate::primitives::ifc::Ifc,
        crate::primitives::ifc::Ifc,
    > {
        match self {
            Guide::Bsi => bsi::ifc_verdict(ctx, key),
            Guide::Cnsa => cnsa::ifc_verdict(ctx, key),
        }
    }

    /// Validates a hash function against the chosen guideline.
    pub fn validate_hash_function(&self, ctx: &Context, hash: &hash::Hash) -> (verdict: Result<
        hash::Hash,
        hash::Hash,
    >)
        ensures
            verdict == self.hash_verdict(*ctx, *hash),
    {
        match self {
            Guide::Bsi => bsi::validate_hash(ctx, hash),
            Guide::Cnsa => cnsa::validate_hash(ctx, hash),
        }
    }

    /// Validates the primitive behind a signature against the chosen
    /// guideline. The primitive in the verdict is of the same family as
    /// the one that was given.
    pub fn validate_signature_algorithm(&self, ctx: &Context, algorithm: &Asymmetric) -> (verdict:
        Result<Asymmetric, Asymmetric>)
        ensures
            verdict == self.signature_verdict(*ctx, *algorithm),
            verdict matches Ok(accepted) ==> accepted.same_family(*algorithm),
            verdict matches Err(recommended) ==> recommended.same_family(*algorithm),
    {
        match self {
            Guide::Bsi => match algorithm {
                Asymmetric::Ecc(instance) => match bsi::validate_ecc(ctx, instance) {
                    Ok(instance) => Ok(Asymmetric::Ecc(instance)),
                    Err(instance) => Err(Asymmetric::Ecc(instance)),
                },
                Asymmetric::Ifc(instance) => match bsi::validate_ifc(ctx, instance) {
                    Ok(instance) => Ok(Asymmetric::Ifc(instance)),
                    Err(instance) => Err(Asymmetric::Ifc(instance)),
                },
            },
            Guide::Cnsa => match algorithm {
                Asymmetric::Ecc(instance) => match cnsa::validate_ecc(ctx, instance) {
                    Ok(instance) => Ok(Asymmetric::Ecc(instance)),
                    Err(instance) => Err(Asymmetric::Ecc(instance)),
                },
                Asymmetric::Ifc(instance) => match cnsa::validate_ifc(ctx, instance) {
                    Ok(instance) => Ok(Asymmetric::Ifc(instance)),
                    Err(instance) => Err(Asymmetric::Ifc(instance)),
                },
            },
        }
    }
}

/// The outcome of assessing one file, with the path of the file. The
/// reasons are not part of it: they are handed out as [`Diagnostic`]s.
#[derive(Debug, PartialEq, Eq)]
pub enum Status {
    /// Nothing that was checked is at fault.
    Pass(String),
    /// The file could not be read, or a check has failed.
    Fail(String),
}

/// The stream that a line of output belongs on.
#[derive(Clone, Copy, Debug, PartialEq, Eq, Structural)]
pub enum Stream {
    Stdout,
    Stderr,
}

/// How a status is made known: the line to print, the stream to print
/// it on, and whether the process is to end in success.
#[derive(Debug, PartialEq, Eq)]
pub struct Report {
    pub stream: Stream,
    pub line: String,
    pub success: bool,
}

impl Status {
    /// The path of the file that was assessed.
    pub open spec fn path(self) -> Seq<char> {
        match self {
            Status::Pass(path) => path@,
            Status::Fail(path) => path@,
        }
    }

    /// The line that reports the status: `ok: ` or `fail: `, and the path.
    pub open spec fn line(self) -> Seq<char> {
        match self {
            Status::Pass(path) => "ok: "@ + path@,
            Status::Fail(path) => "fail: "@ + path@,
        }
    }

    /// Renders the status as [`Status::line`].
    pub fn to_string(&self) -> (text: String)
        ensures
            text@ == self.line(),
    {
        match self {
            Status::Pass(path) => String::from_str("ok: ").concat(path.as_str()),
            Status::Fail(path) => String::from_str("fail: ").concat(path.as_str()),
        }
    }

    /// How the status is made known. A pass goes to the standard output
    /// and ends the process in success; a failure goes to the standard
    /// error and ends it in failure.
    pub fn report(&self) -> (outcome: Report)
        ensures
            outcome.line@ == self.line(),
            outcome.success == (*self is Pass),
            outcome.stream == (if *self is Pass {
                Stream::Stdout
            } else {
                Stream::Stderr
            }),
    {
        match self {
            Status::Pass(_) => Report { stream: Stream::Stdout, line: self.to_string(), success: true },
            Status::Fail(_) => Report {
                stream: Stream::Stderr,
                line: self.to_string(),
                success: false,
            },
        }
    }
}

/// What an assessment has to say besides its status.
#[derive(Debug, PartialEq, Eq)]
pub enum Diagnostic {
    /// The certificate could not be read, with the reason.
    Unreadable(String),
    /// The hash function that the certificate declares, and the verdict
    /// on it.
    HashFunction(hash::Hash, Result<hash::Hash, hash::Hash>),
    /// The primitive of the key that the certificate declares, and the
    /// verdict on it.
    SignatureAlgorithm(Asymmetric, Result<Asymmetric, Asymmetric>),
}

impl Diagnostic {
    /// Whether the diagnostic tells of a failure: a certificate that
    /// could not be read, or a primitive that is not compliant.
    pub open spec fn is_failure(self) -> bool {
        match self {
            Diagnostic::Unreadable(_) => true,
            Diagnostic::HashFunction(_, verdict) => verdict is Err,
            Diagnostic::SignatureAlgorithm(_, verdict) => verdict is Err,
        }
    }

    /// The name of the check that the diagnostic tells of; empty for a
    /// certificate that could not be read, on which no check was made.
    pub open spec fn check(self) -> Seq<char> {
        match self {
            Diagnostic::Unreadable(_) => Seq::empty(),
            Diagnostic::HashFunction(_, _) => "hash function"@,
            Diagnostic::SignatureAlgorithm(_, _) => "signature algorithm"@,
        }
    }

    /// The line that tells of the diagnostic, where `got` and `want`
    /// are the texts for the primitive that was found and for the one
    /// that the verdict holds: the name of the check, `: got: `, the
    /// first text, `, want: ` and the second. For a certificate that
    /// could not be read it is the reason alone.
    pub open spec fn framed(self, got: Seq<char>, want: Seq<char>) -> Seq<char> {
        match self {
            Diagnostic::Unreadable(reason) => reason@,
            _ => self.check() + ": got: "@ + got + ", want: "@ + want,
        }
    }

    /// Renders the diagnostic as [`Diagnostic::framed`], around the
    /// texts that the caller has for the two primitives.
    pub fn line(&self, got: &str, want: &str) -> (text: String)
        ensures
            text@ == self.framed(got@, want@),
    {
        let name = match self {
            Diagnostic::Unreadable(reason) => {
                return reason.clone();
            },
            Diagnostic::HashFunction(_, _) => "hash function",
            Diagnostic::SignatureAlgorithm(_, _) => "signature algorithm",
        };
        String::from_str(name).concat(": got: ").concat(got).concat(", want: ").concat(want)
    }

    /// The stream that the diagnostic belongs on: the standard error
    /// for a failure, the standard output for anything else.
    pub fn stream(&self) -> (stream: Stream)
        ensures
            stream == (if self.is_failure() {
                Stream::Stderr
            } else {
                Stream::Stdout
            }),
    {
        match self {
            Diagnostic::Unreadable(_) => Stream::Stderr,
            Diagnostic::HashFunction(_, Ok(_)) => Stream::Stdout,
            Diagnostic::HashFunction(_, Err(_)) => Stream::Stderr,
            Diagnostic::SignatureAlgorithm(_, Ok(_)) => Stream::Stdout,
            Diagnostic::SignatureAlgorithm(_, Err(_)) => Stream::Stderr,
        }
    }
}

/// The diagnostic of the hash check, if it has one: none where the
/// certificate declares no hash function that is known, and none for a
/// compliant one unless `verbose` asks for it.
pub open spec fn hash_diagnostics(
    ctx: Context,
    certificate: Certificate,
    guide: Guide,
    verbose: bool,
) -> Seq<Diagnostic> {
    match certificate.hash_function() {
        Some(got) if verbose || guide.hash_verdict(ctx, got) is Err => seq![
            Diagnostic::HashFunction(got, guide.hash_verdict(ctx, got)),
        ],
        _ => seq![],
    }
}

/// The diagnostic of the signature check, if it has one: none where the
/// certificate declares no key that is known, and none for a compliant
/// one unless `verbose` asks for it.
pub open spec fn signature_diagnostics(
    ctx: Context,
    certificate: Certificate,
    guide: Guide,
    verbose: bool,
) -> Seq<Diagnostic> {
    match certificate.signature_algorithm() {
        Some(got) if verbose || guide.signature_verdict(ctx, got) is Err => seq![
            Diagnostic::SignatureAlgorithm(got, guide.signature_verdict(ctx, got)),
        ],
        _ => seq![],
    }
}

/// The diagnostics of an assessment, in the order in which they are
/// given. A certificate that could not be read has the reason for its
/// only diagnostic. Any other has that of its hash check and then that
/// of its signature check, each whatever came of the other.
pub open spec fn diagnostics(
    ctx: Context,
    certificate: Result<Certificate, String>,
    guide: Guide,
    verbose: bool,
) -> Seq<Diagnostic> {
    match certificate {
        Err(reason) => seq![Diagnostic::Unreadable(reason)],
        Ok(certificate) => hash_diagnostics(ctx, certificate, guide, verbose)
            + signature_diagnostics(ctx, certificate, guide, verbose),
    }
}

/// Whether an assessment passes: the certificate could be read, and
/// neither the hash function nor the key that it declares, as far as
/// they are known, is found not compliant.
pub open spec fn passes(ctx: Context, certificate: Result<Certificate, String>, guide: Guide) -> bool {
    match certificate {
        Err(_) => false,
        Ok(certificate) => {
            &&& certificate.hash_function() matches Some(got) ==> guide.hash_verdict(ctx, got) is Ok
            &&& certificate.signature_algorithm() matches Some(got) ==> guide.signature_verdict(
                ctx,
                got,
            ) is Ok
        },
    }
}

/// Assesses the certificate that was read from the file at `path`
/// against a guideline. `certificate` is what reading the file gave:
/// the certificate's declarations, or the reason why there are none.
///
/// The status is a pass exactly where [`passes`] holds, and carries
/// `path`. The diagnostics of [`diagnostics`] are added to `log`.
pub fn x509(
    ctx: &Context,
    path: &str,
    certificate: &Result<Certificate, String>,
    guide: &Guide,
    verbose: &bool,
    log: &mut Vec<Diagnostic>,
) -> (status: Status)
    ensures
        status is Pass == passes(*ctx, *certificate, *guide),
        status.path() == path@,
        final(log)@ == old(log)@ + diagnostics(*ctx, *certificate, *guide, *verbose),
{
    let certificate = match certificate {
        Ok(got) => got,
        Err(reason) => {
            log.push(Diagnostic::Unreadable(reason.clone()));
            assert(log@ =~= old(log)@ + diagnostics(*ctx, *certificate, *guide, *verbose));
            return Status::Fail(path.to_owned());
        },
    };

    let mut pass = true;

    if let Some(got) = certificate.extract_hash_function() {
        match guide.validate_hash_function(ctx, &got) {
            Ok(want) => {
                if *verbose {
                    log.push(Diagnostic::HashFunction(got, Ok(want)));
                }
            },
            Err(want) => {
                pass = false;
                log.push(Diagnostic::HashFunction(got, Err(want)));
            },
        }
    }
    assert(log@ =~= old(log)@ + hash_diagnostics(*ctx, *certificate, *guide, *verbose));

    if let Some(got) = certificate.extract_signature_algorithm() {
        match guide.validate_signature_algorithm(ctx, &got) {
            Ok(want) => {
                if *verbose {
                    log.push(Diagnostic::SignatureAlgorithm(got, Ok(want)));
                }
            },
            Err(want) => {
                pass = false;
                log.push(Diagnostic::SignatureAlgorithm(got, Err(want)));
            },
        }
    }
    assert(log@ =~= old(log)@ + hash_diagnostics(*ctx, *certificate, *guide, *verbose)
        + signature_diagnostics(*ctx, *certificate, *guide, *verbose));

    if pass {
        Status::Pass(path.to_owned())
    } else {
        Status::Fail(path.to_owned())
    }
}

/// Whether every file of a run has passed, by which a run over several
/// files ends in success or failure.
pub fn all_passed(statuses: &[Status]) -> (passed: bool)
    ensures
        passed == forall|i: int| 0 <= i < statuses@.len() ==> statuses@[i] is Pass,
{
    let mut i: usize = 0;
    while i < statuses.len()
        invariant
            i <= statuses@.len(),
            forall|j: int| 0 <= j < i ==> statuses@[j] is Pass,
        decreases statuses@.len() - i,
    {
        match statuses[i] {
            Status::Pass(_) => {},
            Status::Fail(_) => {
                return false;
            },
        }
        i += 1;
    }
    true
}

/// Validating a hash function twice against one guideline in one
/// context gives the same verdict twice.
pub proof fn hash_validation_is_deterministic(
    guide: Guide,
    ctx: Context,
    hash: hash::Hash,
    first: Result<hash::Hash, hash::Hash>,
    second: Result<hash::Hash, hash::Hash>,
)
    requires
        first == guide.hash_verdict(ctx, hash),
        second == guide.hash_verdict(ctx, hash),
    ensures
        first == second,
{
}

/// Validating the primitive behind a signature twice against one
/// guideline in one context gives the same verdict twice.
pub proof fn signature_validation_is_deterministic(
    guide: Guide,
    ctx: Context,
    algorithm: Asymmetric,
    first: Result<Asymmetric, Asymmetric>,
    second: Result<Asymmetric, Asymmetric>,
)
    requires
        first == guide.signature_verdict(ctx, algorithm),
        second == guide.signature_verdict(ctx, algorithm),
    ensures
        first == second,
{
}

/// Under every guideline a hash function at least as strong as a
/// compliant one is compliant.
pub proof fn hash_compliance_is_monotonic(
    guide: Guide,
    ctx: Context,
    weaker: hash::Hash,
    stronger: hash::Hash,
)
    requires
        stronger.strength() >= weaker.strength(),
        guide.hash_verdict(ctx, weaker) is Ok,
    ensures
        guide.hash_verdict(ctx, stronger) is Ok,
{
    match guide {
        Guide::Bsi => bsi::hash_compliance_is_monotonic(ctx, weaker, stronger),
        Guide::Cnsa => cnsa::hash_compliance_is_monotonic(ctx, weaker, stronger),
    }
}

/// Under every guideline a curve at least as strong as a compliant
/// curve is compliant, and a modulus at least as large as a compliant
/// modulus is compliant.
pub proof fn signature_compliance_is_monotonic(
    guide: Guide,
    ctx: Context,
    weaker: Asymmetric,
    stronger: Asymmetric,
)
    requires
        stronger.at_least(weaker),
        guide.signature_verdict(ctx, weaker) is Ok,
    ensures
        guide.signature_verdict(ctx, stronger) is Ok,
{
    match (guide, weaker, stronger) {
        (Guide::Bsi, Asymmetric::Ecc(w), Asymmetric::Ecc(s)) => bsi::ecc_compliance_is_monotonic(
            ctx,
            w,
            s,
        ),
        (Guide::Bsi, Asymmetric::Ifc(w), Asymmetric::Ifc(s)) => bsi::ifc_compliance_is_monotonic(
            ctx,
            w,
            s,
        ),
        (Guide::Cnsa, Asymmetric::Ecc(w), Asymmetric::Ecc(s)) => cnsa::ecc_compliance_is_monotonic(
            ctx,
            w,
            s,
        ),
        (Guide::Cnsa, Asymmetric::Ifc(w), Asymmetric::Ifc(s)) => cnsa::ifc_compliance_is_monotonic(
            ctx,
            w,
            s,
        ),
        _ => {},
    }
}

/// The hash function that a guideline recommends in place of another
/// is itself compliant under that guideline in the same context,
/// whatever the guideline and the context.
pub proof fn recommended_hash_is_compliant(
    guide: Guide,
    ctx: Context,
    hash: hash::Hash,
    recommended: hash::Hash,
)
    requires
        guide.hash_verdict(ctx, hash) == Err::<hash::Hash, hash::Hash>(recommended),
    ensures
        guide.hash_verdict(ctx, recommended) == Ok::<hash::Hash, hash::Hash>(recommended),
{
    match guide {
        Guide::Bsi => bsi::recommended_hash_is_compliant(ctx),
        Guide::Cnsa => cnsa::recommended_hash_is_compliant(ctx),
    }
}

/// The primitive that a guideline recommends in place of another is
/// itself compliant under that guideline in the same context, whatever
/// the guideline and the context.
pub proof fn recommended_signature_is_compliant(
    guide: Guide,
    ctx: Context,
    algorithm: Asymmetric,
    recommended: Asymmetric,
)
    requires
        guide.signature_verdict(ctx, algorithm) == Err::<Asymmetric, Asymmetric>(recommended),
    ensures
        guide.signature_verdict(ctx, recommended) == Ok::<Asymmetric, Asymmetric>(recommended),
{
    match guide {
        Guide::Bsi => {
            bsi::recommended_ecc_is_compliant(ctx);
            bsi::recommended_ifc_is_compliant(ctx);
        },
        Guide::Cnsa => {
            cnsa::recommended_ecc_is_compliant(ctx);
            cnsa::recommended_ifc_is_compliant(ctx);
        },
    }
}

/// The status of an assessment agrees with its diagnostics: with every
/// diagnostic asked for, the assessment passes exactly where none of
/// them tells of a failure.
pub proof fn status_agrees_with_diagnostics(
    ctx: Context,
    certificate: Result<Certificate, String>,
    guide: Guide,
)
    ensures
        passes(ctx, certificate, guide) <==> forall|i: int|
            0 <= i < diagnostics(ctx, certificate, guide, true).len() ==> !(#[trigger] diagnostics(
                ctx,
                certificate,
                guide,
                true,
            )[i]).is_failure(),
{
    let all = diagnostics(ctx, certificate, guide, true);
    match certificate {
        Err(_) => {
            assert(all[0].is_failure());
        },
        Ok(c) => {
            let first = hash_diagnostics(ctx, c, guide, true);
            let second = signature_diagnostics(ctx, c, guide, true);
            if first.len() > 0 {
                assert(all[0] == first[0]);
            }
            if second.len() > 0 {
                assert(all[first.len() as int] == second[0]);
            }
        },
    }
}

/// A hash check that fails does not keep the signature check from
/// being made: the diagnostic of the signature check comes after that of
/// the hash check where it is asked for, and the assessment fails.
pub proof fn failed_hash_check_does_not_stop_assessment(
    ctx: Context,
    certificate: Certificate,
    guide: Guide,
    hash: hash::Hash,
    key: Asymmetric,
)
    requires
        certificate.hash_function() == Some(hash),
        certificate.signature_algorithm() == Some(key),
        guide.hash_verdict(ctx, hash) is Err,
        guide.signature_verdict(ctx, key) is Ok,
    ensures
        !passes(ctx, Ok(certificate), guide),
        diagnostics(ctx, Ok(certificate), guide, true) == seq![
            Diagnostic::HashFunction(hash, guide.hash_verdict(ctx, hash)),
            Diagnostic::SignatureAlgorithm(key, guide.signature_verdict(ctx, key)),
        ],
        diagnostics(ctx, Ok(certificate), guide, false) == seq![
            Diagnostic::HashFunction(hash, guide.hash_verdict(ctx, hash)),
        ],
{
    assert(diagnostics(ctx, Ok(certificate), guide, true) =~= seq![
        Diagnostic::HashFunction(hash, guide.hash_verdict(ctx, hash)),
        Diagnostic::SignatureAlgorithm(key, guide.signature_verdict(ctx, key)),
    ]);
    assert(diagnostics(ctx, Ok(certificate), guide, false) =~= seq![
        Diagnostic::HashFunction(hash, guide.hash_verdict(ctx, hash)),
    ]);
}

/// What the signature check tells does not depend on the hash check:
/// the diagnostics of an assessment end with those of the signature
/// check, whatever the certificate declares as its hash function.
pub proof fn signature_check_is_always_told(
    ctx: Context,
    certificate: Certificate,
    guide: Guide,
    verbose: bool,
)
    ensures
        ({
            let all = diagnostics(ctx, Ok(certificate), guide, verbose);
            let last = signature_diagnostics(ctx, certificate, guide, verbose);
            last.len() <= all.len() && all.subrange(all.len() - last.len(), all.len() as int)
                == last
        }),
{
    let all = diagnostics(ctx, Ok(certificate), guide, verbose);
    let last = signature_diagnostics(ctx, certificate, guide, verbose);
    assert(all.subrange(all.len() - last.len(), all.len() as int) =~= last);
}

} // verus!
