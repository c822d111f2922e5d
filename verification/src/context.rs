//! The circumstances under which a primitive is judged.

use vstd::prelude::*;

verus! {

/// The year that a context holds unless another is given.
pub const DEFAULT_YEAR: u16 = 2023;

/// The circumstances of a validation.
///
/// Validations take a context by shared reference and hand none back,
/// so one context can serve any number of them unchanged.
#[derive(Clone, Copy, Debug, PartialEq, Eq, Structural)]
pub struct Context {
    /// The least security strength in bits that the user accepts. It
    /// counts where it exceeds what a guideline demands, and as far as
    /// the strongest primitive that the guideline recommends can meet
    /// it; zero asks for nothing beyond the guideline.
    pub security: u16,
    /// The year through which the primitive is to be relied on.
    pub year: u16,
}

impl Context {
    /// A context with the target strength `security` and the year `year`.
    pub fn new(security: u16, year: u16) -> (ctx: Context)
        ensures
            ctx == (Context { security, year }),
    {
        Context { security, year }
    }

    /// The target as far as a family of primitives can meet it: the
    /// context's target, and `reach` where the target lies beyond it.
    /// `reach` is the strength of the strongest primitive that a
    /// guideline has to recommend, so a target beyond it asks for that
    /// primitive and for nothing that cannot be had.
    #[verifier::allow_in_spec]
    pub fn target(&self, reach: u16) -> u16
        returns
            (if self.security > reach {
                reach
            } else {
                self.security
            }),
    {
        if self.security > reach {
            reach
        } else {
            self.security
        }
    }

    /// The security strength in bits that a primitive has to reach
    /// where a guideline asks for `floor` and its strongest
    /// recommendation offers `reach`: the larger of the floor and
    /// [`Context::target`].
    #[verifier::allow_in_spec]
    pub fn required(&self, floor: u16, reach: u16) -> u16
        returns
            (if self.target(reach) > floor {
                self.target(reach)
            } else {
                floor
            }),
    {
        let target = self.target(reach);
        if target > floor {
            target
        } else {
            floor
        }
    }
}

impl Default for Context {
    /// The context that asks for no strength beyond the guideline's and
    /// judges for [`DEFAULT_YEAR`].
    fn default() -> (ctx: Context)
        ensures
            ctx == (Context { security: 0, year: DEFAULT_YEAR }),
    {
        Context { security: 0, year: DEFAULT_YEAR }
    }
}

} // verus!
