//! What the classifier reads of a resolved style, and the tags that say
//! which properties apply to a pseudo-element.

use vstd::prelude::*;

verus! {

/// A resolved value of the `display` property.
#[derive(Clone, Copy, Debug, PartialEq, Eq, Structural)]
pub enum Display {
    /// `none`: no box is generated.
    NoBox,
    /// `contents`
    Contents,
    /// `inline`
    Inline,
    /// `block`
    Block,
    /// `flow-root`
    FlowRoot,
    /// `inline-block`
    InlineBlock,
    /// `list-item`
    ListItem,
    /// `flex`
    Flex,
    /// `inline-flex`
    InlineFlex,
    /// `grid`
    Grid,
    /// `inline-grid`
    InlineGrid,
    /// `table`
    Table,
    /// `inline-table`
    InlineTable,
}

/// The part of a resolved style that decides whether a pseudo-element
/// exists.
#[derive(Clone, Copy, Debug, PartialEq, Eq, Structural)]
pub struct ComputedValues {
    /// The resolved `display`.
    pub display: Display,
    /// Whether the `content` property resolves to a value that generates
    /// nothing for `::before` and `::after`.
    pub ineffective_content_property: bool,
}

/// A tag that a property must carry to apply to a restricted
/// pseudo-element.
#[derive(Clone, Copy, Debug, PartialEq, Eq, Structural)]
pub enum PropertyFlags {
    /// The property applies to `::first-letter`.
    AppliesToFirstLetter,
    /// The property applies to `::first-line`.
    AppliesToFirstLine,
    /// The property applies to `::placeholder`.
    AppliesToPlaceholder,
    /// The property applies to `::cue`.
    AppliesToCue,
    /// The property applies to `::marker`.
    AppliesToMarker,
}

} // verus!
