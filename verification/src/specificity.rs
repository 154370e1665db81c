//! What a pseudo-element adds to the specificity of a selector.

use vstd::prelude::*;

use crate::atom::wildcard;
use crate::catalog::PseudoElement;

verus! {

impl PseudoElement {
    /// A named view-transition pseudo-element counts like a type selector
    /// when its argument is an identifier and not at all when its argument
    /// is `*`. Every other pseudo-element counts once.
    pub open spec fn spec_specificity_count(&self) -> u32 {
        if self.is_named_view_transition() && self.spec_argument() == Some(wildcard()) {
            0
        } else {
            1
        }
    }

    /// The count that this pseudo-element contributes to the specificity.
    #[verifier::when_used_as_spec(spec_specificity_count)]
    pub fn specificity_count(&self) -> (count: u32)
        ensures
            count == self.spec_specificity_count(),
            count <= 1,
    {
        match self {
            PseudoElement::ViewTransitionGroup(name)
            | PseudoElement::ViewTransitionImagePair(name)
            | PseudoElement::ViewTransitionOld(name)
            | PseudoElement::ViewTransitionNew(name) => if name.is_wildcard() {
                0
            } else {
                1
            },
            _ => 1,
        }
    }
}

} // verus!
