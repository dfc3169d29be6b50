//! Positions in the terminal grid and spans between two of them.
use vstd::prelude::*;

verus! {

/// A cell of the grid. Row 0 is the top of the screen; history rows are
/// negative.
#[derive(Debug, Clone, Copy, PartialEq, Eq, Structural)]
pub struct Pos {
    pub row: i32,
    pub col: usize,
}

/// Reading order: row by row, left to right within a row.
pub open spec fn at_or_before(a: Pos, b: Pos) -> bool {
    a.row < b.row || (a.row == b.row && a.col <= b.col)
}

impl Pos {
    /// Whether this position comes at or before `other` in reading order.
    pub fn at_or_before(&self, other: &Pos) -> (r: bool)
        ensures
            r == at_or_before(*self, *other),
    {
        self.row < other.row || (self.row == other.row && self.col <= other.col)
    }
}

/// A match of the link pattern: the cells from `start` to `end`, both
/// included, in reading order.
#[derive(Debug, Clone, Copy, PartialEq, Eq, Structural)]
pub struct Match {
    pub start: Pos,
    pub end: Pos,
}

/// Whether `p` is one of the cells of `m`.
pub open spec fn match_contains(m: Match, p: Pos) -> bool {
    at_or_before(m.start, p) && at_or_before(p, m.end)
}

impl Match {
    /// Whether `point` is one of the cells of this match.
    pub fn contains(&self, point: &Pos) -> (r: bool)
        ensures
            r == match_contains(*self, *point),
    {
        self.start.at_or_before(point) && point.at_or_before(&self.end)
    }
}

/// Reading order is a total order, so that a match is an interval of it.
pub proof fn reading_order_is_total(a: Pos, b: Pos, c: Pos)
    ensures
        at_or_before(a, a),
        at_or_before(a, b) || at_or_before(b, a),
        at_or_before(a, b) && at_or_before(b, a) ==> a == b,
        at_or_before(a, b) && at_or_before(b, c) ==> at_or_before(a, c),
{
}

} // verus!
