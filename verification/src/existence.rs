//! Whether a resolved style means that an eager pseudo-element exists.

use vstd::prelude::*;

use crate::catalog::PseudoElement;
use crate::style::{ComputedValues, Display};

verus! {

impl PseudoElement {
    /// No box is generated under `display: none`, whatever the
    /// pseudo-element. `::before` and `::after` need, besides, a `content`
    /// that generates something.
    pub open spec fn spec_should_exist(&self, style: &ComputedValues) -> bool {
        &&& style.display != Display::NoBox
        &&& !(self.is_before_or_after() && style.ineffective_content_property)
    }

    /// Whether this eager pseudo-element should exist if it has the given
    /// style.
    pub fn should_exist(&self, style: &ComputedValues) -> (r: bool)
        requires
            self.is_eager(),
        ensures
            r == self.spec_should_exist(style),
    {
        if style.display == Display::NoBox {
            return false;
        }
        if self.is_before_or_after() && style.ineffective_content_property {
            return false;
        }
        true
    }
}

} // verus!
