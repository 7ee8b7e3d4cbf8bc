//! Maturity classification of a declaration.

use vstd::prelude::*;

verus! {

/// The maturity and guarantee classification attached to a
/// declaration.
#[derive(Debug, Clone, Copy, PartialEq, Eq, Hash, Structural)]
pub enum Stability {
    /// The declaration is stable.
    Stable,
    /// The declaration is still in development.
    Development,
    /// The declaration is in an alpha stage.
    Alpha,
    /// The declaration is in a beta stage.
    Beta,
    /// The declaration is a release candidate.
    ReleaseCandidate,
    /// The declaration is deprecated.
    Deprecated,
}

impl View for Stability {
    type V = Stability;

    open spec fn view(&self) -> Stability {
        *self
    }
}

impl DeepView for Stability {
    type V = Stability;

    open spec fn deep_view(&self) -> Stability {
        *self
    }
}

} // verus!
