//! Selections of text.
use crate::point::Pos;
use rio_vt::crosswords::pos::{Column, Line, Pos as OuterPos, Side as OuterSide};
use rio_vt::selection::{
    Selection, SelectionRange as OuterRange, SelectionType as OuterSelectionType,
};
use vstd::prelude::*;

verus! {

/// How a selection grows.
#[derive(Debug, Clone, Copy, PartialEq, Eq, Structural)]
pub enum SelectionType {
    Simple,
    Block,
    Semantic,
    Lines,
}

/// A half of a cell.
#[derive(Debug, Clone, Copy, PartialEq, Eq, Structural)]
pub enum Side {
    Left,
    Right,
}

/// One end of a selection.
#[derive(Debug, Clone, Copy, PartialEq, Eq, Structural)]
pub struct Anchor {
    pub point: Pos,
    pub side: Side,
}

/// `rio_vt`'s selection.
#[verifier::external_type_specification]
#[verifier::external_body]
pub struct ExSelection(rio_vt::selection::Selection);

/// How a selection grows.
pub uninterp spec fn selection_type(selection: Selection) -> SelectionType;

/// The end of a selection where it was begun.
pub uninterp spec fn selection_start(selection: Selection) -> Anchor;

/// The end of a selection that moves.
pub uninterp spec fn selection_end(selection: Selection) -> Anchor;

/// `Selection::new`: both ends are at the given place.
#[verifier::external_body]
pub(crate) fn new_selection(ty: SelectionType, point: Pos, side: Side) -> (r: Selection)
    ensures
        selection_type(r) == ty,
        selection_start(r) == (Anchor { point, side }),
        selection_end(r) == (Anchor { point, side }),
{
    let kind = match ty {
        SelectionType::Simple => OuterSelectionType::Simple,
        SelectionType::Block => OuterSelectionType::Block,
        SelectionType::Semantic => OuterSelectionType::Semantic,
        SelectionType::Lines => OuterSelectionType::Lines,
    };
    let half = match side {
        Side::Left => OuterSide::Left,
        Side::Right => OuterSide::Right,
    };
    Selection::new(kind, OuterPos::new(Line(point.row), Column(point.col)), half)
}

/// `Selection::update`: the moving end goes to the given place.
#[verifier::external_body]
pub(crate) fn move_selection_end(selection: &mut Selection, point: Pos, side: Side)
    ensures
        selection_type(*final(selection)) == selection_type(*old(selection)),
        selection_start(*final(selection)) == selection_start(*old(selection)),
        selection_end(*final(selection)) == (Anchor { point, side }),
{
    let half = match side {
        Side::Left => OuterSide::Left,
        Side::Right => OuterSide::Right,
    };
    selection.update(OuterPos::new(Line(point.row), Column(point.col)), half);
}

/// The selected part of the grid.
#[derive(Debug, Clone, Copy, PartialEq, Eq, Structural)]
pub struct SelectionRange {
    /// Top left.
    pub start: Pos,
    /// Bottom right.
    pub end: Pos,
    /// Whether this is a rectangle and not a stretch of lines.
    pub is_block: bool,
}

/// Whether a cell is selected: its row is in range, and so is its column,
/// which counts in every row of a block and else only in the first and the
/// last row.
pub open spec fn range_contains(range: SelectionRange, point: Pos) -> bool {
    &&& range.start.row <= point.row <= range.end.row
    &&& range.start.col <= point.col || (range.start.row != point.row && !range.is_block)
    &&& point.col <= range.end.col || (range.end.row != point.row && !range.is_block)
}

impl SelectionRange {
    /// `SelectionRange::contains`: whether a cell is selected.
    #[verifier::external_body]
    pub(crate) fn contains(&self, point: Pos) -> (r: bool)
        ensures
            r == range_contains(*self, point),
    {
        OuterRange {
            start: OuterPos::new(Line(self.start.row), Column(self.start.col)),
            end: OuterPos::new(Line(self.end.row), Column(self.end.col)),
            is_block: self.is_block,
        }.contains(OuterPos::new(Line(point.row), Column(point.col)))
    }
}

} // verus!
