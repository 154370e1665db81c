//! The small predicates over the catalog that selector matching and the
//! cascade ask of a pseudo-element. Each is a test of membership in a fixed
//! set of variants, or a read of one flag.

use vstd::prelude::*;

use crate::atom::AtomIdent;
use crate::catalog::PseudoElement;
use crate::prefs::Prefs;
use crate::style::PropertyFlags;

verus! {

/// The preference that restricts the properties that apply to `::marker`.
pub const MARKER_RESTRICTED_PREF: &'static str = "layout.css.marker.restricted";

impl PseudoElement {
    /// The tree-abiding pseudo-elements, which may follow `::slotted()`.
    pub open spec fn spec_valid_after_slotted(&self) -> bool {
        matches!(
            *self,
            PseudoElement::Before
                | PseudoElement::After
                | PseudoElement::Marker
                | PseudoElement::Placeholder
                | PseudoElement::FileSelectorButton
                | PseudoElement::DetailsContent
        )
    }

    /// The four view-transition pseudo-elements that take a name. The root,
    /// `ViewTransition`, is not one of them.
    pub open spec fn spec_is_named_view_transition(&self) -> bool {
        matches!(
            *self,
            PseudoElement::ViewTransitionGroup(_)
                | PseudoElement::ViewTransitionImagePair(_)
                | PseudoElement::ViewTransitionOld(_)
                | PseudoElement::ViewTransitionNew(_)
        )
    }

    /// The descendants of a pseudo-element root: the named view-transition
    /// pseudo-elements.
    pub open spec fn spec_is_in_pseudo_element_tree(&self) -> bool {
        self.is_named_view_transition()
    }

    /// A pseudo-element takes state pseudo-classes when its flags say so or
    /// when it is in a pseudo-element tree.
    pub open spec fn spec_accepts_state_pseudo_classes(&self) -> bool {
        self.supports_user_action_state() || self.is_in_pseudo_element_tree()
    }

    /// The pseudo-elements that inherit from their parent in the flat tree.
    pub open spec fn spec_is_part_like(&self) -> bool {
        self.is_named_view_transition() || *self is DetailsContent
    }

    /// The pseudo-elements whose animations are kept with the parent
    /// element.
    pub open spec fn spec_animations_stored_in_parent(&self) -> bool {
        matches!(*self, PseudoElement::Before | PseudoElement::After | PseudoElement::Marker)
    }

    /// `::before` or `::after`.
    pub open spec fn spec_is_before_or_after(&self) -> bool {
        *self is Before || *self is After
    }

    /// `::before`.
    pub open spec fn spec_is_before(&self) -> bool {
        *self is Before
    }

    /// `::after`.
    pub open spec fn spec_is_after(&self) -> bool {
        *self is After
    }

    /// `::marker`.
    pub open spec fn spec_is_marker(&self) -> bool {
        *self is Marker
    }

    /// `::selection`.
    pub open spec fn spec_is_selection(&self) -> bool {
        *self is Selection
    }

    /// `::first-letter`.
    pub open spec fn spec_is_first_letter(&self) -> bool {
        *self is FirstLetter
    }

    /// `::first-line`.
    pub open spec fn spec_is_first_line(&self) -> bool {
        *self is FirstLine
    }

    /// `::-moz-color-swatch`.
    pub open spec fn spec_is_color_swatch(&self) -> bool {
        *self is MozColorSwatch
    }

    /// `::highlight(..)`, whatever its name.
    pub open spec fn spec_is_highlight(&self) -> bool {
        *self is Highlight
    }

    /// `::target-text`.
    pub open spec fn spec_is_target_text(&self) -> bool {
        *self is TargetText
    }

    /// The name of the highlight, for `::highlight(..)` alone.
    pub open spec fn spec_highlight_name(&self) -> Option<Seq<char>> {
        match *self {
            PseudoElement::Highlight(name) => Some(name@),
            _ => None,
        }
    }

    /// The tag that restricts the properties of this pseudo-element, where
    /// `marker_restricted` is what the marker preference reads as.
    pub open spec fn spec_property_restriction(&self, marker_restricted: bool) -> Option<
        PropertyFlags,
    > {
        match *self {
            PseudoElement::FirstLetter => Some(PropertyFlags::AppliesToFirstLetter),
            PseudoElement::FirstLine => Some(PropertyFlags::AppliesToFirstLine),
            PseudoElement::Placeholder => Some(PropertyFlags::AppliesToPlaceholder),
            PseudoElement::Cue => Some(PropertyFlags::AppliesToCue),
            PseudoElement::Marker => if marker_restricted {
                Some(PropertyFlags::AppliesToMarker)
            } else {
                None
            },
            _ => None,
        }
    }

    /// Whether this pseudo-element may follow `::slotted()`.
    #[verifier::when_used_as_spec(spec_valid_after_slotted)]
    pub fn valid_after_slotted(&self) -> (r: bool)
        ensures
            r == self.spec_valid_after_slotted(),
    {
        matches!(
            *self,
            PseudoElement::Before
                | PseudoElement::After
                | PseudoElement::Marker
                | PseudoElement::Placeholder
                | PseudoElement::FileSelectorButton
                | PseudoElement::DetailsContent
        )
    }

    /// Whether state pseudo-classes may follow this pseudo-element.
    #[verifier::when_used_as_spec(spec_accepts_state_pseudo_classes)]
    pub fn accepts_state_pseudo_classes(&self) -> (r: bool)
        ensures
            r == self.spec_accepts_state_pseudo_classes(),
    {
        self.supports_user_action_state() || self.is_in_pseudo_element_tree()
    }

    /// Whether this pseudo-element is a descendant of a pseudo-element root.
    #[verifier::when_used_as_spec(spec_is_in_pseudo_element_tree)]
    pub fn is_in_pseudo_element_tree(&self) -> (r: bool)
        ensures
            r == self.spec_is_in_pseudo_element_tree(),
    {
        self.is_named_view_transition()
    }

    /// Whether animations for this pseudo-element are stored in the parent
    /// element.
    #[verifier::when_used_as_spec(spec_animations_stored_in_parent)]
    pub fn animations_stored_in_parent(&self) -> (r: bool)
        ensures
            r == self.spec_animations_stored_in_parent(),
    {
        matches!(*self, PseudoElement::Before | PseudoElement::After | PseudoElement::Marker)
    }

    /// Whether this pseudo-element is `::before` or `::after`.
    #[verifier::when_used_as_spec(spec_is_before_or_after)]
    pub fn is_before_or_after(&self) -> (r: bool)
        ensures
            r == self.spec_is_before_or_after(),
    {
        matches!(*self, PseudoElement::Before | PseudoElement::After)
    }

    /// Whether this pseudo-element is `::before`.
    #[verifier::when_used_as_spec(spec_is_before)]
    pub fn is_before(&self) -> (r: bool)
        ensures
            r == self.spec_is_before(),
    {
        matches!(*self, PseudoElement::Before)
    }

    /// Whether this pseudo-element is `::after`.
    #[verifier::when_used_as_spec(spec_is_after)]
    pub fn is_after(&self) -> (r: bool)
        ensures
            r == self.spec_is_after(),
    {
        matches!(*self, PseudoElement::After)
    }

    /// Whether this pseudo-element is `::marker`.
    #[verifier::when_used_as_spec(spec_is_marker)]
    pub fn is_marker(&self) -> (r: bool)
        ensures
            r == self.spec_is_marker(),
    {
        matches!(*self, PseudoElement::Marker)
    }

    /// Whether this pseudo-element is `::selection`.
    #[verifier::when_used_as_spec(spec_is_selection)]
    pub fn is_selection(&self) -> (r: bool)
        ensures
            r == self.spec_is_selection(),
    {
        matches!(*self, PseudoElement::Selection)
    }

    /// Whether this pseudo-element is `::first-letter`.
    #[verifier::when_used_as_spec(spec_is_first_letter)]
    pub fn is_first_letter(&self) -> (r: bool)
        ensures
            r == self.spec_is_first_letter(),
    {
        matches!(*self, PseudoElement::FirstLetter)
    }

    /// Whether this pseudo-element is `::first-line`.
    #[verifier::when_used_as_spec(spec_is_first_line)]
    pub fn is_first_line(&self) -> (r: bool)
        ensures
            r == self.spec_is_first_line(),
    {
        matches!(*self, PseudoElement::FirstLine)
    }

    /// Whether this pseudo-element is `::-moz-color-swatch`.
    #[verifier::when_used_as_spec(spec_is_color_swatch)]
    pub fn is_color_swatch(&self) -> (r: bool)
        ensures
            r == self.spec_is_color_swatch(),
    {
        matches!(*self, PseudoElement::MozColorSwatch)
    }

    /// The identifier of the highlight that this pseudo-element represents.
    pub fn highlight_name(&self) -> (name: Option<&AtomIdent>)
        ensures
            match *self {
                PseudoElement::Highlight(highlight) => name == Some(&highlight),
                _ => name is None,
            },
            match name {
                Some(highlight) => self.spec_highlight_name() == Some(highlight@),
                None => self.spec_highlight_name() is None,
            },
    {
        match self {
            PseudoElement::Highlight(name) => Some(name),
            _ => None,
        }
    }

    /// Whether this pseudo-element is `::highlight(..)`.
    #[verifier::when_used_as_spec(spec_is_highlight)]
    pub fn is_highlight(&self) -> (r: bool)
        ensures
            r == self.spec_is_highlight(),
    {
        matches!(*self, PseudoElement::Highlight(_))
    }

    /// Whether this pseudo-element is `::target-text`.
    #[verifier::when_used_as_spec(spec_is_target_text)]
    pub fn is_target_text(&self) -> (r: bool)
        ensures
            r == self.spec_is_target_text(),
    {
        matches!(*self, PseudoElement::TargetText)
    }

    /// Whether this pseudo-element is a named view-transition
    /// pseudo-element.
    #[verifier::when_used_as_spec(spec_is_named_view_transition)]
    pub fn is_named_view_transition(&self) -> (r: bool)
        ensures
            r == self.spec_is_named_view_transition(),
    {
        matches!(
            *self,
            PseudoElement::ViewTransitionGroup(..)
                | PseudoElement::ViewTransitionImagePair(..)
                | PseudoElement::ViewTransitionOld(..)
                | PseudoElement::ViewTransitionNew(..)
        )
    }

    /// Whether this pseudo-element is part-like: it inherits from its parent
    /// in the flat tree, which may not be the originating element.
    #[verifier::when_used_as_spec(spec_is_part_like)]
    pub fn is_part_like(&self) -> (r: bool)
        ensures
            r == self.spec_is_part_like(),
    {
        self.is_named_view_transition() || matches!(*self, PseudoElement::DetailsContent)
    }

    /// The tag that a property must carry to apply to this pseudo-element,
    /// if its properties are restricted. `::marker` is restricted only while
    /// the preference `MARKER_RESTRICTED_PREF` is on.
    pub fn property_restriction(&self, prefs: &Prefs) -> (restriction: Option<PropertyFlags>)
        ensures
            restriction == self.spec_property_restriction(prefs.spec_get(MARKER_RESTRICTED_PREF@)),
    {
        match *self {
            PseudoElement::FirstLetter => Some(PropertyFlags::AppliesToFirstLetter),
            PseudoElement::FirstLine => Some(PropertyFlags::AppliesToFirstLine),
            PseudoElement::Placeholder => Some(PropertyFlags::AppliesToPlaceholder),
            PseudoElement::Cue => Some(PropertyFlags::AppliesToCue),
            PseudoElement::Marker => if prefs.get(MARKER_RESTRICTED_PREF) {
                Some(PropertyFlags::AppliesToMarker)
            } else {
                None
            },
            _ => None,
        }
    }
}

/// The named view-transition pseudo-elements are the group, the image pair,
/// the old and the new image, whatever their name, and nothing else: the
/// root of the view-transition tree is not one of them.
pub proof fn lemma_named_view_transitions(pseudo: PseudoElement)
    ensures
        pseudo.is_named_view_transition() <==> (pseudo is ViewTransitionGroup
            || pseudo is ViewTransitionImagePair || pseudo is ViewTransitionOld
            || pseudo is ViewTransitionNew),
        !PseudoElement::ViewTransition.is_named_view_transition(),
{
}

} // verus!
