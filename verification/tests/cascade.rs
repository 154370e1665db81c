use pseudo_element::{AtomIdent, PseudoElement, PseudoElementCascadeType, EAGER_PSEUDO_COUNT};

fn samples() -> Vec<PseudoElement> {
    vec![
        PseudoElement::After,
        PseudoElement::Before,
        PseudoElement::Marker,
        PseudoElement::Backdrop,
        PseudoElement::Cue,
        PseudoElement::FirstLetter,
        PseudoElement::FirstLine,
        PseudoElement::Highlight(AtomIdent::new("h")),
        PseudoElement::Selection,
        PseudoElement::TargetText,
        PseudoElement::ViewTransition,
        PseudoElement::ViewTransitionGroup(AtomIdent::new("*")),
        PseudoElement::ViewTransitionImagePair(AtomIdent::new("a")),
        PseudoElement::ViewTransitionOld(AtomIdent::new("b")),
        PseudoElement::ViewTransitionNew(AtomIdent::new("c")),
        PseudoElement::MozNumberSpinBox,
        PseudoElement::MozRangeThumb,
        PseudoElement::Placeholder,
        PseudoElement::MozColorSwatch,
        PseudoElement::MozReveal,
        PseudoElement::FileSelectorButton,
        PseudoElement::SliderFill,
        PseudoElement::DetailsContent,
        PseudoElement::MozText,
        PseudoElement::OofPlaceholder,
        PseudoElement::Table,
        PseudoElement::TableRow,
        PseudoElement::Canvas,
        PseudoElement::Viewport,
        PseudoElement::AnonymousItem,
    ]
}

#[test]
fn eager_index_round_trips() {
    for pseudo in [PseudoElement::Before, PseudoElement::After, PseudoElement::Marker] {
        let index = pseudo.eager_index();
        assert!(index < EAGER_PSEUDO_COUNT);
        assert_eq!(PseudoElement::from_eager_index(index), pseudo);
    }
}

#[test]
fn eager_indices_have_no_gap_and_no_duplicate() {
    let mut seen = vec![false; EAGER_PSEUDO_COUNT];
    for index in 0..EAGER_PSEUDO_COUNT {
        let pseudo = PseudoElement::from_eager_index(index);
        assert!(pseudo.is_eager());
        assert_eq!(pseudo.eager_index(), index);
        assert!(!seen[index]);
        seen[index] = true;
    }
    assert_eq!(seen, vec![true, true, true]);
}

#[test]
fn eager_indices_follow_the_canonical_order() {
    assert_eq!(EAGER_PSEUDO_COUNT, 3);
    assert_eq!(PseudoElement::After.eager_index(), 0);
    assert_eq!(PseudoElement::Before.eager_index(), 1);
    assert_eq!(PseudoElement::Marker.eager_index(), 2);
    assert_eq!(PseudoElement::from_eager_index(0), PseudoElement::After);
    assert_eq!(PseudoElement::from_eager_index(1), PseudoElement::Before);
    assert_eq!(PseudoElement::from_eager_index(2), PseudoElement::Marker);
}

#[test]
fn eager_index_is_the_catalog_position() {
    for index in 0..EAGER_PSEUDO_COUNT {
        assert_eq!(PseudoElement::from_eager_index(index).index(), index);
    }
}

#[test]
fn cascade_categories_partition_the_catalog() {
    for pseudo in samples() {
        let count = [pseudo.is_eager(), pseudo.is_precomputed(), pseudo.is_lazy()]
            .iter()
            .filter(|b| **b)
            .count();
        assert_eq!(count, 1, "{:?}", pseudo);
    }
}

#[test]
fn cascade_type_names_the_category() {
    for pseudo in samples() {
        let expected = if pseudo.is_eager() {
            PseudoElementCascadeType::Eager
        } else if pseudo.is_precomputed() {
            PseudoElementCascadeType::Precomputed
        } else {
            assert!(pseudo.is_lazy());
            PseudoElementCascadeType::Lazy
        };
        assert_eq!(pseudo.cascade_type(), expected, "{:?}", pseudo);
    }
}

#[test]
fn cascade_type_of_some_entries() {
    assert_eq!(PseudoElement::Before.cascade_type(), PseudoElementCascadeType::Eager);
    assert_eq!(PseudoElement::After.cascade_type(), PseudoElementCascadeType::Eager);
    assert_eq!(PseudoElement::Marker.cascade_type(), PseudoElementCascadeType::Eager);
    assert_eq!(PseudoElement::Table.cascade_type(), PseudoElementCascadeType::Precomputed);
    assert_eq!(PseudoElement::MozText.cascade_type(), PseudoElementCascadeType::Precomputed);
    assert_eq!(PseudoElement::Selection.cascade_type(), PseudoElementCascadeType::Lazy);
    assert_eq!(PseudoElement::FirstLine.cascade_type(), PseudoElementCascadeType::Lazy);
    assert_eq!(
        PseudoElement::Highlight(AtomIdent::new("h")).cascade_type(),
        PseudoElementCascadeType::Lazy
    );
    assert_eq!(
        PseudoElement::ViewTransitionOld(AtomIdent::new("v")).cascade_type(),
        PseudoElementCascadeType::Lazy
    );
}

#[test]
fn precomputed_means_anonymous_box_outside_the_pseudo_element_tree() {
    for pseudo in samples() {
        assert_eq!(
            pseudo.is_precomputed(),
            pseudo.is_anon_box() && !pseudo.is_in_pseudo_element_tree(),
            "{:?}",
            pseudo
        );
    }
}

#[test]
fn lazy_means_neither_eager_nor_precomputed() {
    for pseudo in samples() {
        assert_eq!(pseudo.is_lazy(), !pseudo.is_eager() && !pseudo.is_precomputed());
    }
}

#[test]
fn eager_pseudo_elements_are_not_anonymous_boxes() {
    for pseudo in samples() {
        if pseudo.is_eager() {
            assert!(!pseudo.is_anon_box());
        }
    }
}
