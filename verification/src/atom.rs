//! Identifiers carried by the pseudo-elements that take an argument.

use vstd::prelude::*;
use vstd::std_specs::cmp::PartialEqSpecImpl;
use vstd::string::StringExecFns;

verus! {

/// An author-supplied identifier: the name of a highlight, or the argument of
/// a view-transition pseudo-element. Two identifiers are equal when they spell
/// the same text.
#[derive(Clone, Debug, Eq, Hash)]
pub struct AtomIdent(pub String);

impl View for AtomIdent {
    type V = Seq<char>;

    open spec fn view(&self) -> Seq<char> {
        self.0@
    }
}

/// The text of the universal argument, which matches every name.
pub open spec fn wildcard() -> Seq<char> {
    seq!['*']
}

impl AtomIdent {
    /// Makes an identifier that spells `text`.
    pub fn new(text: &str) -> (ident: AtomIdent)
        ensures
            ident@ == text@,
    {
        AtomIdent(String::from_str(text))
    }

    /// The text of the identifier.
    pub fn as_str(&self) -> (text: &str)
        ensures
            text@ == self@,
    {
        self.0.as_str()
    }

    /// Whether the identifier is the universal argument `*`.
    pub fn is_wildcard(&self) -> (r: bool)
        ensures
            r == (self@ == wildcard()),
    {
        let text = self.0.as_str();
        let r = text.unicode_len() == 1 && text.get_char(0) == '*';
        proof {
            if r {
                assert(self@ =~= wildcard());
            }
        }
        r
    }
}

impl PartialEq for AtomIdent {
    fn eq(&self, other: &AtomIdent) -> (r: bool) {
        self.0 == other.0
    }
}

impl PartialEqSpecImpl for AtomIdent {
    open spec fn obeys_eq_spec() -> bool {
        true
    }

    open spec fn eq_spec(&self, other: &AtomIdent) -> bool {
        self@ == other@
    }
}

} // verus!
