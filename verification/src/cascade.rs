//! When the style of a pseudo-element is computed: eagerly with its
//! originating element, once per stylesheet set, or lazily on first query.

use vstd::prelude::*;

use crate::catalog::{eager_pseudos, PseudoElement, EAGER_PSEUDO_COUNT};

verus! {

/// How the style of a pseudo-element is resolved.
#[derive(Clone, Copy, Debug, PartialEq, Eq, Structural)]
pub enum PseudoElementCascadeType {
    /// Computed during the main pass and stored beside the style of the
    /// originating element.
    Eager,
    /// Computed on first query.
    Lazy,
    /// Computed once per set of stylesheets: it depends on no element.
    Precomputed,
}

impl PseudoElement {
    /// A precomputed pseudo-element is an anonymous box outside the
    /// pseudo-element tree.
    pub open spec fn spec_is_precomputed(&self) -> bool {
        self.is_anon_box() && !self.is_in_pseudo_element_tree()
    }

    /// A lazy pseudo-element is one that is neither eager nor precomputed.
    pub open spec fn spec_is_lazy(&self) -> bool {
        !self.is_eager() && !self.is_precomputed()
    }

    /// The cascade category: eager first, then precomputed, lazy for the
    /// rest.
    pub open spec fn spec_cascade_type(&self) -> PseudoElementCascadeType {
        if self.is_eager() {
            PseudoElementCascadeType::Eager
        } else if self.is_precomputed() {
            PseudoElementCascadeType::Precomputed
        } else {
            PseudoElementCascadeType::Lazy
        }
    }

    /// The place of an eager pseudo-element in `eager_pseudos()`.
    pub open spec fn spec_eager_index(&self) -> int {
        eager_pseudos().index_of(*self)
    }

    /// The eager pseudo-element at place `i` of `eager_pseudos()`.
    pub open spec fn spec_from_eager_index(i: int) -> PseudoElement {
        eager_pseudos()[i]
    }

    /// Whether this pseudo-element is precomputed.
    #[verifier::when_used_as_spec(spec_is_precomputed)]
    pub fn is_precomputed(&self) -> (r: bool)
        ensures
            r == self.spec_is_precomputed(),
    {
        self.is_anon_box() && !self.is_in_pseudo_element_tree()
    }

    /// Whether this pseudo-element is lazily cascaded.
    #[verifier::when_used_as_spec(spec_is_lazy)]
    pub fn is_lazy(&self) -> (r: bool)
        ensures
            r == self.spec_is_lazy(),
    {
        !self.is_eager() && !self.is_precomputed()
    }

    /// The kind of cascade that this pseudo-element uses.
    #[verifier::when_used_as_spec(spec_cascade_type)]
    pub fn cascade_type(&self) -> (kind: PseudoElementCascadeType)
        ensures
            kind == self.spec_cascade_type(),
    {
        if self.is_eager() {
            proof {
                lemma_eager_is_not_anon_box(*self);
            }
            assert(!self.is_anon_box());
            return PseudoElementCascadeType::Eager;
        }
        if self.is_precomputed() {
            return PseudoElementCascadeType::Precomputed;
        }
        PseudoElementCascadeType::Lazy
    }

    /// The canonical index of this eagerly cascaded pseudo-element, found by
    /// a scan of the eager pseudo-elements.
    pub fn eager_index(&self) -> (i: usize)
        requires
            self.is_eager(),
        ensures
            i == self.spec_eager_index(),
            i < EAGER_PSEUDO_COUNT,
            eager_pseudos()[i as int] == *self,
    {
        proof {
            lemma_eager_pseudos_are_the_eager(*self);
            lemma_eager_pseudos_distinct();
        }
        let mut i: usize = 0;
        while i + 1 < EAGER_PSEUDO_COUNT && PseudoElement::from_eager_index(i) != *self
            invariant
                i < EAGER_PSEUDO_COUNT,
                exists|j: int| i <= j < EAGER_PSEUDO_COUNT && eager_pseudos()[j] == *self,
            decreases EAGER_PSEUDO_COUNT - i,
        {
            i += 1;
        }
        i
    }

    /// The eagerly cascaded pseudo-element with canonical index `i`.
    pub fn from_eager_index(i: usize) -> (pseudo: PseudoElement)
        requires
            i < EAGER_PSEUDO_COUNT,
        ensures
            pseudo == PseudoElement::spec_from_eager_index(i as int),
    {
        if i == 0 {
            PseudoElement::After
        } else if i == 1 {
            PseudoElement::Before
        } else {
            PseudoElement::Marker
        }
    }
}

/// An eager pseudo-element is never an anonymous box.
pub proof fn lemma_eager_is_not_anon_box(pseudo: PseudoElement)
    ensures
        pseudo.is_eager() ==> !pseudo.is_anon_box(),
{
}

/// Every pseudo-element is in exactly one of the three cascade categories,
/// and `cascade_type` names that one.
pub proof fn lemma_cascade_partition(pseudo: PseudoElement)
    ensures
        pseudo.is_eager() || pseudo.is_precomputed() || pseudo.is_lazy(),
        !(pseudo.is_eager() && pseudo.is_precomputed()),
        !(pseudo.is_eager() && pseudo.is_lazy()),
        !(pseudo.is_precomputed() && pseudo.is_lazy()),
        pseudo.is_eager() <==> pseudo.cascade_type() == PseudoElementCascadeType::Eager,
        pseudo.is_precomputed() <==> pseudo.cascade_type()
            == PseudoElementCascadeType::Precomputed,
        pseudo.is_lazy() <==> pseudo.cascade_type() == PseudoElementCascadeType::Lazy,
{
}

/// `eager_pseudos()` holds the eager pseudo-elements and no others, and has
/// `EAGER_PSEUDO_COUNT` places.
pub proof fn lemma_eager_pseudos_are_the_eager(pseudo: PseudoElement)
    ensures
        eager_pseudos().len() == EAGER_PSEUDO_COUNT,
        pseudo.is_eager() <==> eager_pseudos().contains(pseudo),
{
    if pseudo.is_eager() {
        assert(eager_pseudos()[0] == PseudoElement::After);
        assert(eager_pseudos()[1] == PseudoElement::Before);
        assert(eager_pseudos()[2] == PseudoElement::Marker);
    }
}

/// No pseudo-element stands at two places of `eager_pseudos()`.
pub proof fn lemma_eager_pseudos_distinct()
    ensures
        eager_pseudos().no_duplicates(),
{
}

/// The eager pseudo-elements are a run of adjacent catalog entries, in
/// catalog order: place `i` holds the entry at position `i` of the catalog.
pub proof fn lemma_eager_pseudos_follow_catalog(i: int)
    requires
        0 <= i < EAGER_PSEUDO_COUNT,
    ensures
        eager_pseudos()[i].spec_index() == i,
{
}

/// Taking the index of an eager pseudo-element and then the pseudo-element
/// at that index gives the pseudo-element back, and the index is below
/// `EAGER_PSEUDO_COUNT`.
pub proof fn lemma_eager_index_round_trip(pseudo: PseudoElement)
    requires
        pseudo.is_eager(),
    ensures
        0 <= pseudo.spec_eager_index() < EAGER_PSEUDO_COUNT,
        PseudoElement::spec_from_eager_index(pseudo.spec_eager_index()) == pseudo,
{
    lemma_eager_pseudos_are_the_eager(pseudo);
}

/// Every index below `EAGER_PSEUDO_COUNT` is the index of one eager
/// pseudo-element, the one that `from_eager_index` gives for it: the indices
/// have no gap and no duplicate.
pub proof fn lemma_eager_indices_are_exact(i: int)
    requires
        0 <= i < EAGER_PSEUDO_COUNT,
    ensures
        PseudoElement::spec_from_eager_index(i).is_eager(),
        PseudoElement::spec_from_eager_index(i).spec_eager_index() == i,
{
    let pseudo = PseudoElement::spec_from_eager_index(i);
    lemma_eager_pseudos_are_the_eager(pseudo);
    lemma_eager_pseudos_distinct();
    lemma_eager_index_round_trip(pseudo);
}

} // verus!
