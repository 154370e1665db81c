use pseudo_element::feature_gate::{
    CUSTOM_HIGHLIGHT_API_PREF, DETAILS_CONTENT_PREF, MODERN_RANGE_PSEUDOS_PREF,
    TEXT_FRAGMENTS_PREF, VIEW_TRANSITIONS_PREF,
};
use pseudo_element::{AtomIdent, Prefs, PseudoElement};

fn with(key: &str, value: bool) -> Prefs {
    let mut prefs = Prefs::new();
    prefs.set(key, value);
    prefs
}

#[test]
fn highlight_follows_its_preference() {
    let highlight = PseudoElement::Highlight(AtomIdent::new("x"));
    for value in [false, true] {
        let prefs = with("dom.customHighlightAPI.enabled", value);
        assert_eq!(prefs.get("dom.customHighlightAPI.enabled"), value);
        assert_eq!(highlight.enabled_in_content(&prefs), value);
    }
}

#[test]
fn preference_keys_are_spelled_as_documented() {
    assert_eq!(CUSTOM_HIGHLIGHT_API_PREF, "dom.customHighlightAPI.enabled");
    assert_eq!(TEXT_FRAGMENTS_PREF, "dom.text_fragments.enabled");
    assert_eq!(MODERN_RANGE_PSEUDOS_PREF, "layout.css.modern-range-pseudos.enabled");
    assert_eq!(DETAILS_CONTENT_PREF, "layout.css.details-content.enabled");
    assert_eq!(VIEW_TRANSITIONS_PREF, "dom.viewTransitions.enabled");
}

#[test]
fn governed_pseudo_elements_name_their_preference() {
    let name = || AtomIdent::new("n");
    assert_eq!(
        PseudoElement::Highlight(name()).governing_pref(),
        Some("dom.customHighlightAPI.enabled")
    );
    assert_eq!(PseudoElement::TargetText.governing_pref(), Some("dom.text_fragments.enabled"));
    for slider in [PseudoElement::SliderFill, PseudoElement::SliderTrack, PseudoElement::SliderThumb]
    {
        assert_eq!(slider.governing_pref(), Some("layout.css.modern-range-pseudos.enabled"));
    }
    assert_eq!(
        PseudoElement::DetailsContent.governing_pref(),
        Some("layout.css.details-content.enabled")
    );
    for transition in [
        PseudoElement::ViewTransition,
        PseudoElement::ViewTransitionGroup(name()),
        PseudoElement::ViewTransitionImagePair(name()),
        PseudoElement::ViewTransitionOld(name()),
        PseudoElement::ViewTransitionNew(name()),
    ] {
        assert_eq!(transition.governing_pref(), Some("dom.viewTransitions.enabled"));
    }
    assert_eq!(PseudoElement::Before.governing_pref(), None);
    assert_eq!(PseudoElement::MozRangeTrack.governing_pref(), None);
    assert_eq!(PseudoElement::Table.governing_pref(), None);
}

#[test]
fn each_governed_pseudo_element_follows_its_own_preference() {
    let name = || AtomIdent::new("n");
    let governed = vec![
        (PseudoElement::Highlight(name()), "dom.customHighlightAPI.enabled"),
        (PseudoElement::TargetText, "dom.text_fragments.enabled"),
        (PseudoElement::SliderFill, "layout.css.modern-range-pseudos.enabled"),
        (PseudoElement::SliderTrack, "layout.css.modern-range-pseudos.enabled"),
        (PseudoElement::SliderThumb, "layout.css.modern-range-pseudos.enabled"),
        (PseudoElement::DetailsContent, "layout.css.details-content.enabled"),
        (PseudoElement::ViewTransition, "dom.viewTransitions.enabled"),
        (PseudoElement::ViewTransitionGroup(name()), "dom.viewTransitions.enabled"),
        (PseudoElement::ViewTransitionImagePair(name()), "dom.viewTransitions.enabled"),
        (PseudoElement::ViewTransitionOld(name()), "dom.viewTransitions.enabled"),
        (PseudoElement::ViewTransitionNew(name()), "dom.viewTransitions.enabled"),
    ];
    let keys = [
        "dom.customHighlightAPI.enabled",
        "dom.text_fragments.enabled",
        "layout.css.modern-range-pseudos.enabled",
        "layout.css.details-content.enabled",
        "dom.viewTransitions.enabled",
    ];
    for (pseudo, own) in governed.iter() {
        assert!(!pseudo.enabled_in_content(&Prefs::new()), "{:?}", pseudo);
        for key in keys {
            let prefs = with(key, true);
            assert_eq!(pseudo.enabled_in_content(&prefs), key == *own, "{:?} {}", pseudo, key);
        }
    }
}

#[test]
fn governed_pseudo_elements_ignore_the_catalog_flags() {
    let prefs = with("layout.css.modern-range-pseudos.enabled", false);
    assert!(!PseudoElement::SliderThumb.enabled_in_ua_sheets());
    assert!(!PseudoElement::SliderThumb.enabled_in_chrome());
    assert!(!PseudoElement::SliderThumb.enabled_in_content(&prefs));
}

#[test]
fn ungoverned_pseudo_elements_follow_the_catalog_flags() {
    let mut all_on = Prefs::new();
    for key in [
        "dom.customHighlightAPI.enabled",
        "dom.text_fragments.enabled",
        "layout.css.modern-range-pseudos.enabled",
        "layout.css.details-content.enabled",
        "dom.viewTransitions.enabled",
    ] {
        all_on.set(key, true);
    }
    for prefs in [Prefs::new(), all_on] {
        assert!(PseudoElement::Before.enabled_in_content(&prefs));
        assert!(PseudoElement::Selection.enabled_in_content(&prefs));
        assert!(PseudoElement::MozRangeTrack.enabled_in_content(&prefs));
        assert!(PseudoElement::Placeholder.enabled_in_content(&prefs));
        assert!(!PseudoElement::MozReveal.enabled_in_content(&prefs));
        assert!(!PseudoElement::MozNumberSpinBox.enabled_in_content(&prefs));
        assert!(!PseudoElement::Table.enabled_in_content(&prefs));
        assert!(!PseudoElement::MozText.enabled_in_content(&prefs));
    }
}

#[test]
fn flag_reads_of_some_entries() {
    assert!(PseudoElement::Placeholder.supports_user_action_state());
    assert!(PseudoElement::FileSelectorButton.supports_user_action_state());
    assert!(!PseudoElement::Before.supports_user_action_state());
    assert!(!PseudoElement::Selection.supports_user_action_state());

    assert!(PseudoElement::MozReveal.enabled_in_ua_sheets());
    assert!(PseudoElement::MozNumberSpinBox.enabled_in_ua_sheets());
    assert!(PseudoElement::Canvas.enabled_in_ua_sheets());
    assert!(!PseudoElement::Marker.enabled_in_ua_sheets());

    assert!(PseudoElement::MozNumberSpinBox.enabled_in_chrome());
    assert!(PseudoElement::MozSearchClearButton.enabled_in_chrome());
    assert!(!PseudoElement::MozReveal.enabled_in_chrome());
    assert!(!PseudoElement::Canvas.enabled_in_chrome());
}

#[test]
fn display_fixup_is_skipped_unless_flex_or_grid_item() {
    assert!(!PseudoElement::Before.skip_item_display_fixup());
    assert!(!PseudoElement::After.skip_item_display_fixup());
    assert!(!PseudoElement::MozColorSwatch.skip_item_display_fixup());
    assert!(PseudoElement::Marker.skip_item_display_fixup());
    assert!(PseudoElement::Placeholder.skip_item_display_fixup());
    assert!(PseudoElement::Table.skip_item_display_fixup());
    for pseudo in [PseudoElement::Before, PseudoElement::Marker, PseudoElement::MozColorSwatch] {
        assert_eq!(pseudo.skip_item_display_fixup(), !pseudo.flags().is_flex_or_grid_item);
    }
}
