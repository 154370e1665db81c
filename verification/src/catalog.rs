//! The catalog of pseudo-elements: the closed set of variants, in catalog
//! order, with the static data that every entry carries.
//!
//! An entry has a stable name, a position, a set of flags, and two bits that
//! drive the cascade: whether it is an anonymous box and whether its style is
//! computed eagerly. The catalog never changes; everything here is a read.

use vstd::prelude::*;
use vstd::std_specs::cmp::PartialEqSpecImpl;

use crate::atom::AtomIdent;

verus! {

/// A pseudo-element. Most variants are plain markers; `Highlight` and the
/// four named view-transition variants carry the identifier they were written
/// with.
#[derive(Clone, Debug, Eq, Hash)]
pub enum PseudoElement {
    /// `::after`
    After,
    /// `::before`
    Before,
    /// `::marker`
    Marker,
    /// `::backdrop`
    Backdrop,
    /// `::cue`
    Cue,
    /// `::first-letter`
    FirstLetter,
    /// `::first-line`
    FirstLine,
    /// `::highlight(name)`
    Highlight(AtomIdent),
    /// `::selection`
    Selection,
    /// `::target-text`
    TargetText,
    /// `::view-transition`, the root of the view-transition tree
    ViewTransition,
    /// `::view-transition-group(name)`
    ViewTransitionGroup(AtomIdent),
    /// `::view-transition-image-pair(name)`
    ViewTransitionImagePair(AtomIdent),
    /// `::view-transition-old(name)`
    ViewTransitionOld(AtomIdent),
    /// `::view-transition-new(name)`
    ViewTransitionNew(AtomIdent),
    /// `::-moz-snapshot-containing-block`
    MozSnapshotContainingBlock,
    /// `::-moz-number-spin-box`
    MozNumberSpinBox,
    /// `::-moz-number-spin-up`
    MozNumberSpinUp,
    /// `::-moz-number-spin-down`
    MozNumberSpinDown,
    /// `::-moz-search-clear-button`
    MozSearchClearButton,
    /// `::-moz-progress-bar`
    MozProgressBar,
    /// `::-moz-range-track`
    MozRangeTrack,
    /// `::-moz-range-progress`
    MozRangeProgress,
    /// `::-moz-range-thumb`
    MozRangeThumb,
    /// `::-moz-meter-bar`
    MozMeterBar,
    /// `::placeholder`
    Placeholder,
    /// `::-moz-color-swatch`
    MozColorSwatch,
    /// `::-moz-text-control-editing-root`
    MozTextControlEditingRoot,
    /// `::-moz-text-control-preview`
    MozTextControlPreview,
    /// `::-moz-reveal`
    MozReveal,
    /// `::file-selector-button`
    FileSelectorButton,
    /// `::slider-track`
    SliderTrack,
    /// `::slider-thumb`
    SliderThumb,
    /// `::slider-fill`
    SliderFill,
    /// `::details-content`
    DetailsContent,
    /// `::-moz-text`, the box of a text node
    MozText,
    /// `::-moz-oof-placeholder`
    OofPlaceholder,
    /// `::-moz-first-letter-continuation`
    FirstLetterContinuation,
    /// `::-moz-block-inside-inline-wrapper`
    MozBlockInsideInlineWrapper,
    /// `::-moz-line-frame`
    MozLineFrame,
    /// `::-moz-button-content`
    ButtonContent,
    /// `::-moz-cell-content`
    CellContent,
    /// `::-moz-fieldset-content`
    FieldsetContent,
    /// `::-moz-inline-table`
    InlineTable,
    /// `::-moz-table`
    Table,
    /// `::-moz-table-cell`
    TableCell,
    /// `::-moz-table-column-group`
    TableColGroup,
    /// `::-moz-table-column`
    TableCol,
    /// `::-moz-table-wrapper`
    TableWrapper,
    /// `::-moz-table-row-group`
    TableRowGroup,
    /// `::-moz-table-row`
    TableRow,
    /// `::-moz-canvas`
    Canvas,
    /// `::-moz-page`
    Page,
    /// `::-moz-page-content`
    PageContent,
    /// `::-moz-scrolled-content`
    ScrolledContent,
    /// `::-moz-column-content`
    ColumnContent,
    /// `::-moz-viewport`
    Viewport,
    /// `::-moz-anonymous-item`
    AnonymousItem,
}

/// The number of entries in the catalog.
pub const PSEUDO_COUNT: usize = 58;

/// The number of eagerly cascaded pseudo-elements.
pub const EAGER_PSEUDO_COUNT: usize = 3;

/// The flags of a catalog entry, one named field for each.
#[derive(Clone, Copy, Debug, PartialEq, Eq, Structural)]
pub struct PseudoFlags {
    /// User-action pseudo-classes such as `:hover` may follow the
    /// pseudo-element.
    pub supports_user_action_state: bool,
    /// The pseudo-element is enabled explicitly in user-agent sheets.
    pub enabled_in_ua_sheets: bool,
    /// The pseudo-element is enabled explicitly in chrome sheets.
    pub enabled_in_chrome: bool,
    /// The box of the pseudo-element is an item of a flex or grid container.
    pub is_flex_or_grid_item: bool,
}

impl PseudoFlags {
    /// Whether either of the two bits that restrict a pseudo-element to
    /// user-agent or chrome sheets is set. An entry with neither is, by
    /// definition, available to content.
    pub open spec fn spec_enabled_in_ua_sheets_and_chrome(&self) -> bool {
        self.enabled_in_ua_sheets || self.enabled_in_chrome
    }

    /// Whether either of the two bits that restrict a pseudo-element to
    /// user-agent or chrome sheets is set.
    #[verifier::when_used_as_spec(spec_enabled_in_ua_sheets_and_chrome)]
    pub fn enabled_in_ua_sheets_and_chrome(&self) -> (r: bool)
        ensures
            r == self.spec_enabled_in_ua_sheets_and_chrome(),
    {
        self.enabled_in_ua_sheets || self.enabled_in_chrome
    }
}

/// The eagerly cascaded pseudo-elements, in their canonical order: a run of
/// adjacent catalog entries.
pub open spec fn eager_pseudos() -> Seq<PseudoElement> {
    seq![PseudoElement::After, PseudoElement::Before, PseudoElement::Marker]
}

impl PseudoElement {
    /// The position of the entry in the catalog.
    pub open spec fn spec_index(&self) -> nat {
        match *self {
            PseudoElement::After => 0,
            PseudoElement::Before => 1,
            PseudoElement::Marker => 2,
            PseudoElement::Backdrop => 3,
            PseudoElement::Cue => 4,
            PseudoElement::FirstLetter => 5,
            PseudoElement::FirstLine => 6,
            PseudoElement::Highlight(_) => 7,
            PseudoElement::Selection => 8,
            PseudoElement::TargetText => 9,
            PseudoElement::ViewTransition => 10,
            PseudoElement::ViewTransitionGroup(_) => 11,
            PseudoElement::ViewTransitionImagePair(_) => 12,
            PseudoElement::ViewTransitionOld(_) => 13,
            PseudoElement::ViewTransitionNew(_) => 14,
            PseudoElement::MozSnapshotContainingBlock => 15,
            PseudoElement::MozNumberSpinBox => 16,
            PseudoElement::MozNumberSpinUp => 17,
            PseudoElement::MozNumberSpinDown => 18,
            PseudoElement::MozSearchClearButton => 19,
            PseudoElement::MozProgressBar => 20,
            PseudoElement::MozRangeTrack => 21,
            PseudoElement::MozRangeProgress => 22,
            PseudoElement::MozRangeThumb => 23,
            PseudoElement::MozMeterBar => 24,
            PseudoElement::Placeholder => 25,
            PseudoElement::MozColorSwatch => 26,
            PseudoElement::MozTextControlEditingRoot => 27,
            PseudoElement::MozTextControlPreview => 28,
            PseudoElement::MozReveal => 29,
            PseudoElement::FileSelectorButton => 30,
            PseudoElement::SliderTrack => 31,
            PseudoElement::SliderThumb => 32,
            PseudoElement::SliderFill => 33,
            PseudoElement::DetailsContent => 34,
            PseudoElement::MozText => 35,
            PseudoElement::OofPlaceholder => 36,
            PseudoElement::FirstLetterContinuation => 37,
            PseudoElement::MozBlockInsideInlineWrapper => 38,
            PseudoElement::MozLineFrame => 39,
            PseudoElement::ButtonContent => 40,
            PseudoElement::CellContent => 41,
            PseudoElement::FieldsetContent => 42,
            PseudoElement::InlineTable => 43,
            PseudoElement::Table => 44,
            PseudoElement::TableCell => 45,
            PseudoElement::TableColGroup => 46,
            PseudoElement::TableCol => 47,
            PseudoElement::TableWrapper => 48,
            PseudoElement::TableRowGroup => 49,
            PseudoElement::TableRow => 50,
            PseudoElement::Canvas => 51,
            PseudoElement::Page => 52,
            PseudoElement::PageContent => 53,
            PseudoElement::ScrolledContent => 54,
            PseudoElement::ColumnContent => 55,
            PseudoElement::Viewport => 56,
            PseudoElement::AnonymousItem => 57,
        }
    }

    /// The identifier that the pseudo-element was written with, for the
    /// variants that take one.
    pub open spec fn spec_argument(&self) -> Option<Seq<char>> {
        match *self {
            PseudoElement::Highlight(name)
            | PseudoElement::ViewTransitionGroup(name)
            | PseudoElement::ViewTransitionImagePair(name)
            | PseudoElement::ViewTransitionOld(name)
            | PseudoElement::ViewTransitionNew(name) => Some(name@),
            _ => None,
        }
    }

    /// The stable name of the entry, as it is written after `::`.
    pub open spec fn spec_name(&self) -> Seq<char> {
        match *self {
            PseudoElement::After => "after"@,
            PseudoElement::Before => "before"@,
            PseudoElement::Marker => "marker"@,
            PseudoElement::Backdrop => "backdrop"@,
            PseudoElement::Cue => "cue"@,
            PseudoElement::FirstLetter => "first-letter"@,
            PseudoElement::FirstLine => "first-line"@,
            PseudoElement::Highlight(_) => "highlight"@,
            PseudoElement::Selection => "selection"@,
            PseudoElement::TargetText => "target-text"@,
            PseudoElement::ViewTransition => "view-transition"@,
            PseudoElement::ViewTransitionGroup(_) => "view-transition-group"@,
            PseudoElement::ViewTransitionImagePair(_) => "view-transition-image-pair"@,
            PseudoElement::ViewTransitionOld(_) => "view-transition-old"@,
            PseudoElement::ViewTransitionNew(_) => "view-transition-new"@,
            PseudoElement::MozSnapshotContainingBlock => "-moz-snapshot-containing-block"@,
            PseudoElement::MozNumberSpinBox => "-moz-number-spin-box"@,
            PseudoElement::MozNumberSpinUp => "-moz-number-spin-up"@,
            PseudoElement::MozNumberSpinDown => "-moz-number-spin-down"@,
            PseudoElement::MozSearchClearButton => "-moz-search-clear-button"@,
            PseudoElement::MozProgressBar => "-moz-progress-bar"@,
            PseudoElement::MozRangeTrack => "-moz-range-track"@,
            PseudoElement::MozRangeProgress => "-moz-range-progress"@,
            PseudoElement::MozRangeThumb => "-moz-range-thumb"@,
            PseudoElement::MozMeterBar => "-moz-meter-bar"@,
            PseudoElement::Placeholder => "placeholder"@,
            PseudoElement::MozColorSwatch => "-moz-color-swatch"@,
            PseudoElement::MozTextControlEditingRoot => "-moz-text-control-editing-root"@,
            PseudoElement::MozTextControlPreview => "-moz-text-control-preview"@,
            PseudoElement::MozReveal => "-moz-reveal"@,
            PseudoElement::FileSelectorButton => "file-selector-button"@,
            PseudoElement::SliderTrack => "slider-track"@,
            PseudoElement::SliderThumb => "slider-thumb"@,
            PseudoElement::SliderFill => "slider-fill"@,
            PseudoElement::DetailsContent => "details-content"@,
            PseudoElement::MozText => "-moz-text"@,
            PseudoElement::OofPlaceholder => "-moz-oof-placeholder"@,
            PseudoElement::FirstLetterContinuation => "-moz-first-letter-continuation"@,
            PseudoElement::MozBlockInsideInlineWrapper => "-moz-block-inside-inline-wrapper"@,
            PseudoElement::MozLineFrame => "-moz-line-frame"@,
            PseudoElement::ButtonContent => "-moz-button-content"@,
            PseudoElement::CellContent => "-moz-cell-content"@,
            PseudoElement::FieldsetContent => "-moz-fieldset-content"@,
            PseudoElement::InlineTable => "-moz-inline-table"@,
            PseudoElement::Table => "-moz-table"@,
            PseudoElement::TableCell => "-moz-table-cell"@,
            PseudoElement::TableColGroup => "-moz-table-column-group"@,
            PseudoElement::TableCol => "-moz-table-column"@,
            PseudoElement::TableWrapper => "-moz-table-wrapper"@,
            PseudoElement::TableRowGroup => "-moz-table-row-group"@,
            PseudoElement::TableRow => "-moz-table-row"@,
            PseudoElement::Canvas => "-moz-canvas"@,
            PseudoElement::Page => "-moz-page"@,
            PseudoElement::PageContent => "-moz-page-content"@,
            PseudoElement::ScrolledContent => "-moz-scrolled-content"@,
            PseudoElement::ColumnContent => "-moz-column-content"@,
            PseudoElement::Viewport => "-moz-viewport"@,
            PseudoElement::AnonymousItem => "-moz-anonymous-item"@,
        }
    }

    /// Whether the style of the pseudo-element is computed eagerly, during
    /// the main pass over its originating element.
    pub open spec fn spec_is_eager(&self) -> bool {
        self is After || self is Before || self is Marker
    }

    /// Whether the entry is an anonymous box: a box with no author-visible
    /// name, generated for layout alone. These are the entries from
    /// `MozText` to the end of the catalog.
    pub open spec fn spec_is_anon_box(&self) -> bool {
        PseudoElement::MozText.spec_index() <= self.spec_index()
    }

    /// The flags of the entry.
    pub open spec fn spec_flags(&self) -> PseudoFlags {
        PseudoFlags {
            supports_user_action_state: matches!(
                *self,
                PseudoElement::MozNumberSpinUp
                    | PseudoElement::MozNumberSpinDown
                    | PseudoElement::MozSearchClearButton
                    | PseudoElement::MozProgressBar
                    | PseudoElement::MozRangeTrack
                    | PseudoElement::MozRangeProgress
                    | PseudoElement::MozRangeThumb
                    | PseudoElement::MozMeterBar
                    | PseudoElement::Placeholder
                    | PseudoElement::MozColorSwatch
                    | PseudoElement::FileSelectorButton
                    | PseudoElement::SliderTrack
                    | PseudoElement::SliderThumb
                    | PseudoElement::SliderFill
            ),
            enabled_in_ua_sheets: self.spec_is_anon_box() || matches!(
                *self,
                PseudoElement::MozSnapshotContainingBlock
                    | PseudoElement::MozNumberSpinBox
                    | PseudoElement::MozNumberSpinUp
                    | PseudoElement::MozNumberSpinDown
                    | PseudoElement::MozSearchClearButton
                    | PseudoElement::MozTextControlEditingRoot
                    | PseudoElement::MozTextControlPreview
                    | PseudoElement::MozReveal
            ),
            enabled_in_chrome: matches!(
                *self,
                PseudoElement::MozNumberSpinBox
                    | PseudoElement::MozNumberSpinUp
                    | PseudoElement::MozNumberSpinDown
                    | PseudoElement::MozSearchClearButton
            ),
            is_flex_or_grid_item: matches!(
                *self,
                PseudoElement::After | PseudoElement::Before | PseudoElement::MozColorSwatch
            ),
        }
    }

    /// The position of the entry in the catalog.
    pub fn index(&self) -> (i: usize)
        ensures
            i == self.spec_index(),
            i < PSEUDO_COUNT,
    {
        match self {
            PseudoElement::After => 0,
            PseudoElement::Before => 1,
            PseudoElement::Marker => 2,
            PseudoElement::Backdrop => 3,
            PseudoElement::Cue => 4,
            PseudoElement::FirstLetter => 5,
            PseudoElement::FirstLine => 6,
            PseudoElement::Highlight(_) => 7,
            PseudoElement::Selection => 8,
            PseudoElement::TargetText => 9,
            PseudoElement::ViewTransition => 10,
            PseudoElement::ViewTransitionGroup(_) => 11,
            PseudoElement::ViewTransitionImagePair(_) => 12,
            PseudoElement::ViewTransitionOld(_) => 13,
            PseudoElement::ViewTransitionNew(_) => 14,
            PseudoElement::MozSnapshotContainingBlock => 15,
            PseudoElement::MozNumberSpinBox => 16,
            PseudoElement::MozNumberSpinUp => 17,
            PseudoElement::MozNumberSpinDown => 18,
            PseudoElement::MozSearchClearButton => 19,
            PseudoElement::MozProgressBar => 20,
            PseudoElement::MozRangeTrack => 21,
            PseudoElement::MozRangeProgress => 22,
            PseudoElement::MozRangeThumb => 23,
            PseudoElement::MozMeterBar => 24,
            PseudoElement::Placeholder => 25,
            PseudoElement::MozColorSwatch => 26,
            PseudoElement::MozTextControlEditingRoot => 27,
            PseudoElement::MozTextControlPreview => 28,
            PseudoElement::MozReveal => 29,
            PseudoElement::FileSelectorButton => 30,
            PseudoElement::SliderTrack => 31,
            PseudoElement::SliderThumb => 32,
            PseudoElement::SliderFill => 33,
            PseudoElement::DetailsContent => 34,
            PseudoElement::MozText => 35,
            PseudoElement::OofPlaceholder => 36,
            PseudoElement::FirstLetterContinuation => 37,
            PseudoElement::MozBlockInsideInlineWrapper => 38,
            PseudoElement::MozLineFrame => 39,
            PseudoElement::ButtonContent => 40,
            PseudoElement::CellContent => 41,
            PseudoElement::FieldsetContent => 42,
            PseudoElement::InlineTable => 43,
            PseudoElement::Table => 44,
            PseudoElement::TableCell => 45,
            PseudoElement::TableColGroup => 46,
            PseudoElement::TableCol => 47,
            PseudoElement::TableWrapper => 48,
            PseudoElement::TableRowGroup => 49,
            PseudoElement::TableRow => 50,
            PseudoElement::Canvas => 51,
            PseudoElement::Page => 52,
            PseudoElement::PageContent => 53,
            PseudoElement::ScrolledContent => 54,
            PseudoElement::ColumnContent => 55,
            PseudoElement::Viewport => 56,
            PseudoElement::AnonymousItem => 57,
        }
    }

    /// The identifier that the pseudo-element was written with, for the
    /// variants that take one.
    pub fn argument(&self) -> (name: Option<&AtomIdent>)
        ensures
            match name {
                Some(written) => self.spec_argument() == Some(written@),
                None => self.spec_argument() is None,
            },
    {
        match self {
            PseudoElement::Highlight(name)
            | PseudoElement::ViewTransitionGroup(name)
            | PseudoElement::ViewTransitionImagePair(name)
            | PseudoElement::ViewTransitionOld(name)
            | PseudoElement::ViewTransitionNew(name) => Some(name),
            _ => None,
        }
    }

    /// The stable name of the entry, as it is written after `::`.
    pub fn name(&self) -> (name: &'static str)
        ensures
            name@ == self.spec_name(),
    {
        match self {
            PseudoElement::After => "after",
            PseudoElement::Before => "before",
            PseudoElement::Marker => "marker",
            PseudoElement::Backdrop => "backdrop",
            PseudoElement::Cue => "cue",
            PseudoElement::FirstLetter => "first-letter",
            PseudoElement::FirstLine => "first-line",
            PseudoElement::Highlight(_) => "highlight",
            PseudoElement::Selection => "selection",
            PseudoElement::TargetText => "target-text",
            PseudoElement::ViewTransition => "view-transition",
            PseudoElement::ViewTransitionGroup(_) => "view-transition-group",
            PseudoElement::ViewTransitionImagePair(_) => "view-transition-image-pair",
            PseudoElement::ViewTransitionOld(_) => "view-transition-old",
            PseudoElement::ViewTransitionNew(_) => "view-transition-new",
            PseudoElement::MozSnapshotContainingBlock => "-moz-snapshot-containing-block",
            PseudoElement::MozNumberSpinBox => "-moz-number-spin-box",
            PseudoElement::MozNumberSpinUp => "-moz-number-spin-up",
            PseudoElement::MozNumberSpinDown => "-moz-number-spin-down",
            PseudoElement::MozSearchClearButton => "-moz-search-clear-button",
            PseudoElement::MozProgressBar => "-moz-progress-bar",
            PseudoElement::MozRangeTrack => "-moz-range-track",
            PseudoElement::MozRangeProgress => "-moz-range-progress",
            PseudoElement::MozRangeThumb => "-moz-range-thumb",
            PseudoElement::MozMeterBar => "-moz-meter-bar",
            PseudoElement::Placeholder => "placeholder",
            PseudoElement::MozColorSwatch => "-moz-color-swatch",
            PseudoElement::MozTextControlEditingRoot => "-moz-text-control-editing-root",
            PseudoElement::MozTextControlPreview => "-moz-text-control-preview",
            PseudoElement::MozReveal => "-moz-reveal",
            PseudoElement::FileSelectorButton => "file-selector-button",
            PseudoElement::SliderTrack => "slider-track",
            PseudoElement::SliderThumb => "slider-thumb",
            PseudoElement::SliderFill => "slider-fill",
            PseudoElement::DetailsContent => "details-content",
            PseudoElement::MozText => "-moz-text",
            PseudoElement::OofPlaceholder => "-moz-oof-placeholder",
            PseudoElement::FirstLetterContinuation => "-moz-first-letter-continuation",
            PseudoElement::MozBlockInsideInlineWrapper => "-moz-block-inside-inline-wrapper",
            PseudoElement::MozLineFrame => "-moz-line-frame",
            PseudoElement::ButtonContent => "-moz-button-content",
            PseudoElement::CellContent => "-moz-cell-content",
            PseudoElement::FieldsetContent => "-moz-fieldset-content",
            PseudoElement::InlineTable => "-moz-inline-table",
            PseudoElement::Table => "-moz-table",
            PseudoElement::TableCell => "-moz-table-cell",
            PseudoElement::TableColGroup => "-moz-table-column-group",
            PseudoElement::TableCol => "-moz-table-column",
            PseudoElement::TableWrapper => "-moz-table-wrapper",
            PseudoElement::TableRowGroup => "-moz-table-row-group",
            PseudoElement::TableRow => "-moz-table-row",
            PseudoElement::Canvas => "-moz-canvas",
            PseudoElement::Page => "-moz-page",
            PseudoElement::PageContent => "-moz-page-content",
            PseudoElement::ScrolledContent => "-moz-scrolled-content",
            PseudoElement::ColumnContent => "-moz-column-content",
            PseudoElement::Viewport => "-moz-viewport",
            PseudoElement::AnonymousItem => "-moz-anonymous-item",
        }
    }

    /// Whether the style of the pseudo-element is computed eagerly.
    #[verifier::when_used_as_spec(spec_is_eager)]
    pub fn is_eager(&self) -> (r: bool)
        ensures
            r == self.spec_is_eager(),
    {
        matches!(*self, PseudoElement::After | PseudoElement::Before | PseudoElement::Marker)
    }

    /// Whether the entry is an anonymous box.
    #[verifier::when_used_as_spec(spec_is_anon_box)]
    pub fn is_anon_box(&self) -> (r: bool)
        ensures
            r == self.spec_is_anon_box(),
    {
        PseudoElement::MozText.index() <= self.index()
    }

    /// The flags of the entry.
    #[verifier::when_used_as_spec(spec_flags)]
    pub fn flags(&self) -> (flags: PseudoFlags)
        ensures
            flags == self.spec_flags(),
    {
        PseudoFlags {
            supports_user_action_state: matches!(
                *self,
                PseudoElement::MozNumberSpinUp
                    | PseudoElement::MozNumberSpinDown
                    | PseudoElement::MozSearchClearButton
                    | PseudoElement::MozProgressBar
                    | PseudoElement::MozRangeTrack
                    | PseudoElement::MozRangeProgress
                    | PseudoElement::MozRangeThumb
                    | PseudoElement::MozMeterBar
                    | PseudoElement::Placeholder
                    | PseudoElement::MozColorSwatch
                    | PseudoElement::FileSelectorButton
                    | PseudoElement::SliderTrack
                    | PseudoElement::SliderThumb
                    | PseudoElement::SliderFill
            ),
            enabled_in_ua_sheets: self.is_anon_box() || matches!(
                *self,
                PseudoElement::MozSnapshotContainingBlock
                    | PseudoElement::MozNumberSpinBox
                    | PseudoElement::MozNumberSpinUp
                    | PseudoElement::MozNumberSpinDown
                    | PseudoElement::MozSearchClearButton
                    | PseudoElement::MozTextControlEditingRoot
                    | PseudoElement::MozTextControlPreview
                    | PseudoElement::MozReveal
            ),
            enabled_in_chrome: matches!(
                *self,
                PseudoElement::MozNumberSpinBox
                    | PseudoElement::MozNumberSpinUp
                    | PseudoElement::MozNumberSpinDown
                    | PseudoElement::MozSearchClearButton
            ),
            is_flex_or_grid_item: matches!(
                *self,
                PseudoElement::After | PseudoElement::Before | PseudoElement::MozColorSwatch
            ),
        }
    }
}

impl PartialEq for PseudoElement {
    fn eq(&self, other: &PseudoElement) -> (r: bool) {
        match (self, other) {
            (PseudoElement::Highlight(a), PseudoElement::Highlight(b))
            | (PseudoElement::ViewTransitionGroup(a), PseudoElement::ViewTransitionGroup(b))
            | (
                PseudoElement::ViewTransitionImagePair(a),
                PseudoElement::ViewTransitionImagePair(b),
            )
            | (PseudoElement::ViewTransitionOld(a), PseudoElement::ViewTransitionOld(b))
            | (PseudoElement::ViewTransitionNew(a), PseudoElement::ViewTransitionNew(b)) => a == b,
            _ => self.index() == other.index(),
        }
    }
}

impl PartialEqSpecImpl for PseudoElement {
    open spec fn obeys_eq_spec() -> bool {
        true
    }

    /// Two pseudo-elements are equal when they are the same catalog entry
    /// and, where the entry takes an identifier, the identifiers spell the
    /// same text.
    open spec fn eq_spec(&self, other: &PseudoElement) -> bool {
        self.spec_index() == other.spec_index() && self.spec_argument() == other.spec_argument()
    }
}

} // verus!
