//! Classification of the pseudo-elements that a CSS style engine can
//! generate: when the style of each is computed, what it adds to the
//! specificity of a selector, whether content may use it, and whether a
//! resolved style means that it exists.
//!
//! Every function is a pure read of the catalog and of what the caller hands
//! in: a snapshot of preferences, or the part of a resolved style that
//! matters.

pub mod atom;
pub mod cascade;
pub mod catalog;
pub mod existence;
pub mod feature_gate;
pub mod predicates;
pub mod prefs;
pub mod serialize;
pub mod specificity;
pub mod style;

pub use crate::atom::AtomIdent;
pub use crate::cascade::PseudoElementCascadeType;
pub use crate::catalog::{PseudoElement, PseudoFlags, EAGER_PSEUDO_COUNT, PSEUDO_COUNT};
pub use crate::prefs::Prefs;
pub use crate::style::{ComputedValues, Display, PropertyFlags};
