//! Plain values of the drawing surface: colour and font arguments, text
//! alignment, the named paint groups, and normalized CSS colours.

use vstd::prelude::*;

verus! {

/// Colour or font argument for the drawing surface. `Static` carries a
/// string with a program-long address, so a backend can compare it by
/// pointer against its cache; `Borrowed` is the per-cell owned path.
#[derive(Copy, Clone)]
pub enum PaintColor<'a> {
    Static(&'static str),
    Borrowed(&'a str),
}

impl<'a> PaintColor<'a> {
    /// The colour text, whichever variant holds it.
    pub fn as_str(&self) -> (r: &str)
        ensures
            r@ == match *self {
                PaintColor::Static(s) => s@,
                PaintColor::Borrowed(s) => s@,
            },
    {
        match self {
            PaintColor::Static(s) => s,
            PaintColor::Borrowed(s) => s,
        }
    }
}

#[derive(Debug, Clone, Copy, PartialEq, Eq, Structural)]
pub enum TextAlign {
    Start,
    Center,
    End,
}

#[derive(Debug, Clone, Copy, PartialEq, Eq, Structural)]
pub enum TextBaseline {
    Top,
    Middle,
    Bottom,
    Alphabetic,
}

/// Label of a group of draws: the layers and sub-sections the renderer
/// brackets. A closed set, compared by variant.
#[derive(Debug, Clone, Copy, PartialEq, Eq, Hash, Structural)]
pub enum GroupClass {
    Grid,
    Overlay,
    Cells,
    FrozenSep,
    Headers,
    Corner,
    SelectionFill,
    SelectionStroke,
    Autofill,
    Clipboard,
    PointMode,
    FormulaRefs,
    ActiveCellRepaint,
    HeaderHighlights,
    /// Consumer band: every custom decoration shares this bracket.
    Custom,
}

/// Kebab-case class name of `g`.
pub open spec fn group_class_name(g: GroupClass) -> Seq<char> {
    match g {
        GroupClass::Grid => "grid"@,
        GroupClass::Overlay => "overlay"@,
        GroupClass::Cells => "cells"@,
        GroupClass::FrozenSep => "frozen-sep"@,
        GroupClass::Headers => "headers"@,
        GroupClass::Corner => "corner"@,
        GroupClass::SelectionFill => "selection-fill"@,
        GroupClass::SelectionStroke => "selection-stroke"@,
        GroupClass::Autofill => "autofill"@,
        GroupClass::Clipboard => "clipboard"@,
        GroupClass::PointMode => "point-mode"@,
        GroupClass::FormulaRefs => "formula-refs"@,
        GroupClass::ActiveCellRepaint => "active-cell-repaint"@,
        GroupClass::HeaderHighlights => "header-highlights"@,
        GroupClass::Custom => "custom"@,
    }
}

impl GroupClass {
    /// The kebab-case class name.
    pub fn as_str(self) -> (r: &'static str)
        ensures
            r@ == group_class_name(self),
    {
        match self {
            GroupClass::Grid => "grid",
            GroupClass::Overlay => "overlay",
            GroupClass::Cells => "cells",
            GroupClass::FrozenSep => "frozen-sep",
            GroupClass::Headers => "headers",
            GroupClass::Corner => "corner",
            GroupClass::SelectionFill => "selection-fill",
            GroupClass::SelectionStroke => "selection-stroke",
            GroupClass::Autofill => "autofill",
            GroupClass::Clipboard => "clipboard",
            GroupClass::PointMode => "point-mode",
            GroupClass::FormulaRefs => "formula-refs",
            GroupClass::ActiveCellRepaint => "active-cell-repaint",
            GroupClass::HeaderHighlights => "header-highlights",
            GroupClass::Custom => "custom",
        }
    }
}

/// What `str::to_lowercase` returns for a string: its Unicode lowercase
/// mapping, a function of the characters alone.
pub uninterp spec fn lowercase(s: Seq<char>) -> Seq<char>;

/// `str::to_lowercase`. Its result is named [`lowercase`] of the argument.
#[verifier::external_body]
fn to_lowercase(s: &str) -> (r: String)
    ensures
        r@ == lowercase(s@),
{
    s.to_lowercase()
}

/// A normalized CSS colour string: lowercase, with black for an empty
/// input.
pub struct CssColor(String);

impl CssColor {
    /// The colour's text.
    pub closed spec fn text(&self) -> Seq<char> {
        self.0@
    }

    /// Normalize `s`: an empty string becomes `#000000`, anything else its
    /// lowercase form.
    pub fn new(s: String) -> (c: Self)
        ensures
            s@.len() == 0 ==> c.text() == "#000000"@,
            s@.len() > 0 ==> c.text() == lowercase(s@),
    {
        if s.as_str().is_empty() {
            CssColor("#000000".to_owned())
        } else {
            CssColor(to_lowercase(s.as_str()))
        }
    }

    pub fn into_string(self) -> (r: String)
        ensures
            r@ == self.text(),
    {
        self.0
    }
}

} // verus!
