//! Whether a pseudo-element is exposed to content, and the reads of the
//! catalog flags that restrict it to user-agent or chrome sheets.

use vstd::prelude::*;

use crate::atom::AtomIdent;
use crate::catalog::PseudoElement;
use crate::prefs::Prefs;

verus! {

/// The preference that gates `::highlight()`.
pub const CUSTOM_HIGHLIGHT_API_PREF: &'static str = "dom.customHighlightAPI.enabled";

/// The preference that gates `::target-text`.
pub const TEXT_FRAGMENTS_PREF: &'static str = "dom.text_fragments.enabled";

/// The preference that gates the `::slider-*` pseudo-elements.
pub const MODERN_RANGE_PSEUDOS_PREF: &'static str = "layout.css.modern-range-pseudos.enabled";

/// The preference that gates `::details-content`.
pub const DETAILS_CONTENT_PREF: &'static str = "layout.css.details-content.enabled";

/// The preference that gates the view-transition pseudo-elements.
pub const VIEW_TRANSITIONS_PREF: &'static str = "dom.viewTransitions.enabled";

impl PseudoElement {
    /// The preference that decides whether content may use this
    /// pseudo-element, for the pseudo-elements that one governs.
    pub open spec fn spec_governing_pref(&self) -> Option<Seq<char>> {
        match *self {
            PseudoElement::Highlight(_) => Some(CUSTOM_HIGHLIGHT_API_PREF@),
            PseudoElement::TargetText => Some(TEXT_FRAGMENTS_PREF@),
            PseudoElement::SliderFill
            | PseudoElement::SliderTrack
            | PseudoElement::SliderThumb => Some(MODERN_RANGE_PSEUDOS_PREF@),
            PseudoElement::DetailsContent => Some(DETAILS_CONTENT_PREF@),
            PseudoElement::ViewTransition
            | PseudoElement::ViewTransitionGroup(_)
            | PseudoElement::ViewTransitionImagePair(_)
            | PseudoElement::ViewTransitionOld(_)
            | PseudoElement::ViewTransitionNew(_) => Some(VIEW_TRANSITIONS_PREF@),
            _ => None,
        }
    }

    /// A governed pseudo-element is enabled as its preference reads. Any
    /// other is enabled unless the catalog restricts it to user-agent or
    /// chrome sheets.
    pub open spec fn spec_enabled_in_content(&self, prefs: &Prefs) -> bool {
        match self.spec_governing_pref() {
            Some(key) => prefs.spec_get(key),
            None => !self.flags().enabled_in_ua_sheets_and_chrome(),
        }
    }

    /// The flag of the same name.
    pub open spec fn spec_supports_user_action_state(&self) -> bool {
        self.flags().supports_user_action_state
    }

    /// The flag of the same name.
    pub open spec fn spec_enabled_in_ua_sheets(&self) -> bool {
        self.flags().enabled_in_ua_sheets
    }

    /// The flag of the same name.
    pub open spec fn spec_enabled_in_chrome(&self) -> bool {
        self.flags().enabled_in_chrome
    }

    /// The fixup is skipped unless the box is a flex or grid item.
    pub open spec fn spec_skip_item_display_fixup(&self) -> bool {
        !self.flags().is_flex_or_grid_item
    }

    /// The preference that decides whether content may use this
    /// pseudo-element, for the pseudo-elements that one governs.
    pub fn governing_pref(&self) -> (key: Option<&'static str>)
        ensures
            match key {
                Some(name) => self.spec_governing_pref() == Some(name@),
                None => self.spec_governing_pref() is None,
            },
    {
        match *self {
            PseudoElement::Highlight(_) => Some(CUSTOM_HIGHLIGHT_API_PREF),
            PseudoElement::TargetText => Some(TEXT_FRAGMENTS_PREF),
            PseudoElement::SliderFill
            | PseudoElement::SliderTrack
            | PseudoElement::SliderThumb => Some(MODERN_RANGE_PSEUDOS_PREF),
            PseudoElement::DetailsContent => Some(DETAILS_CONTENT_PREF),
            PseudoElement::ViewTransition
            | PseudoElement::ViewTransitionGroup(_)
            | PseudoElement::ViewTransitionImagePair(_)
            | PseudoElement::ViewTransitionOld(_)
            | PseudoElement::ViewTransitionNew(_) => Some(VIEW_TRANSITIONS_PREF),
            _ => None,
        }
    }

    /// Whether this pseudo-element is enabled for all content, under the
    /// preferences `prefs`.
    pub fn enabled_in_content(&self, prefs: &Prefs) -> (r: bool)
        ensures
            r == self.spec_enabled_in_content(prefs),
    {
        match self.governing_pref() {
            Some(key) => prefs.get(key),
            None => !self.flags().enabled_in_ua_sheets_and_chrome(),
        }
    }

    /// Whether this pseudo-element supports user-action selectors.
    #[verifier::when_used_as_spec(spec_supports_user_action_state)]
    pub fn supports_user_action_state(&self) -> (r: bool)
        ensures
            r == self.spec_supports_user_action_state(),
    {
        self.flags().supports_user_action_state
    }

    /// Whether this pseudo-element is enabled explicitly in user-agent
    /// sheets.
    #[verifier::when_used_as_spec(spec_enabled_in_ua_sheets)]
    pub fn enabled_in_ua_sheets(&self) -> (r: bool)
        ensures
            r == self.spec_enabled_in_ua_sheets(),
    {
        self.flags().enabled_in_ua_sheets
    }

    /// Whether this pseudo-element is enabled explicitly in chrome sheets.
    #[verifier::when_used_as_spec(spec_enabled_in_chrome)]
    pub fn enabled_in_chrome(&self) -> (r: bool)
        ensures
            r == self.spec_enabled_in_chrome(),
    {
        self.flags().enabled_in_chrome
    }

    /// Whether this pseudo-element skips the display fixup that items of
    /// flex and grid containers get.
    #[verifier::when_used_as_spec(spec_skip_item_display_fixup)]
    pub fn skip_item_display_fixup(&self) -> (r: bool)
        ensures
            r == self.spec_skip_item_display_fixup(),
    {
        !self.flags().is_flex_or_grid_item
    }
}

/// Whether content may use a highlight pseudo-element is what the highlight
/// preference reads as, whatever the name of the highlight.
pub proof fn lemma_highlight_follows_pref(name: AtomIdent, prefs: Prefs)
    ensures
        PseudoElement::Highlight(name).spec_enabled_in_content(&prefs) == prefs.spec_get(
            CUSTOM_HIGHLIGHT_API_PREF@,
        ),
{
}

/// A pseudo-element that no preference governs is enabled in content
/// exactly when the catalog enables it neither in user-agent sheets nor in
/// chrome sheets.
pub proof fn lemma_ungoverned_follows_catalog(pseudo: PseudoElement, prefs: Prefs)
    requires
        pseudo.spec_governing_pref() is None,
    ensures
        pseudo.spec_enabled_in_content(&prefs) <==> !pseudo.enabled_in_ua_sheets()
            && !pseudo.enabled_in_chrome(),
{
}

} // verus!
