//! The text of a pseudo-element in CSS syntax: `::name`, or
//! `::name(argument)` for the variants that carry an identifier.

use vstd::prelude::*;
use vstd::string::StringExecFns;

use crate::atom::wildcard;
use crate::catalog::PseudoElement;

verus! {

/// The text that `cssparser::serialize_identifier` writes for the identifier
/// `ident`: the identifier with the characters escaped that CSS does not
/// take as they are.
pub uninterp spec fn css_identifier(ident: Seq<char>) -> Seq<char>;

/// Calls `cssparser::serialize_identifier` on `ident` with an empty `String`
/// to write to, and hands back what it wrote. The text is a function of
/// `ident` alone, and `css_identifier` is the name of that function; nothing
/// more is claimed of it. The call reports no failure of its own, only one of
/// the writer, and a `String` takes everything written to it.
#[verifier::external_body]
fn serialize_identifier(ident: &str) -> (escaped: String)
    ensures
        escaped@ == css_identifier(ident@),
{
    let mut escaped = String::new();
    let _ = cssparser::serialize_identifier(ident, &mut escaped);
    escaped
}

impl PseudoElement {
    /// The argument as it is written between the brackets: `*` as it is,
    /// any other identifier escaped.
    pub open spec fn spec_css_argument(&self) -> Option<Seq<char>> {
        match self.spec_argument() {
            Some(name) => Some(
                if name == wildcard() {
                    wildcard()
                } else {
                    css_identifier(name)
                },
            ),
            None => None,
        }
    }

    /// The text of the pseudo-element, given the text of its argument.
    pub open spec fn css_text_with(&self, argument: Option<Seq<char>>) -> Seq<char> {
        match argument {
            Some(written) => "::"@ + self.spec_name() + "("@ + written + ")"@,
            None => "::"@ + self.spec_name(),
        }
    }

    /// The text of the pseudo-element in CSS syntax.
    pub open spec fn css_text(&self) -> Seq<char> {
        self.css_text_with(self.spec_css_argument())
    }

    /// The argument of the pseudo-element as it is written between the
    /// brackets, for the variants that carry one.
    pub fn css_argument(&self) -> (argument: Option<String>)
        ensures
            match argument {
                Some(written) => self.spec_css_argument() == Some(written@),
                None => self.spec_css_argument() is None,
            },
    {
        match self.argument() {
            Some(name) => {
                if name.is_wildcard() {
                    Some(String::from_str(name.as_str()))
                } else {
                    Some(serialize_identifier(name.as_str()))
                }
            },
            None => None,
        }
    }

    /// Writes the pseudo-element with `argument` between brackets after its
    /// name, or the name alone where there is no argument.
    pub fn to_css_with_argument(&self, argument: Option<&str>) -> (text: String)
        ensures
            text@ == self.css_text_with(
                match argument {
                    Some(written) => Some(written@),
                    None => None,
                },
            ),
    {
        let mut text = String::from_str("::");
        text.append(self.name());
        if let Some(written) = argument {
            text.append("(");
            text.append(written);
            text.append(")");
        }
        text
    }

    /// The pseudo-element in CSS syntax.
    pub fn to_css_string(&self) -> (text: String)
        ensures
            text@ == self.css_text(),
    {
        match self.css_argument() {
            Some(written) => self.to_css_with_argument(Some(written.as_str())),
            None => self.to_css_with_argument(None),
        }
    }
}

} // verus!
