//! Public key primitives as they occur in signatures.

use vstd::prelude::*;
use crate::primitives::ecc::Ecc;
use crate::primitives::ifc::Ifc;

verus! {

/// The public key primitive behind a signature: an elliptic curve or an
/// instance of integer factorisation cryptography.
#[derive(Clone, Copy, Debug, PartialEq, Eq, Structural)]
pub enum Asymmetric {
    Ecc(Ecc),
    Ifc(Ifc),
}

impl Asymmetric {
    /// Whether two primitives are of the same family.
    pub open spec fn same_family(self, other: Asymmetric) -> bool {
        self is Ecc <==> other is Ecc
    }

    /// Whether this primitive is of the family of `other` and at least
    /// its match: for curves in strength, for moduli in size.
    pub open spec fn at_least(self, other: Asymmetric) -> bool {
        match (self, other) {
            (Asymmetric::Ecc(this), Asymmetric::Ecc(that)) => this.strength() >= that.strength(),
            (Asymmetric::Ifc(this), Asymmetric::Ifc(that)) => this.k >= that.k,
            _ => false,
        }
    }
}

} // verus!
