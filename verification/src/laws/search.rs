//! The link under the mouse.
use crate::grid::{
    cell_at_index, display_shows_every_cell, displayed_cells, grid_view, lines_fit, reading_index,
    reading_index_inverts, rectangular,
};
use crate::links::{
    search_all, search_step, viewport_bottom, viewport_fits, viewport_top, LinkSearch, SearchStep,
    URL_REGEX,
};
use crate::point::{Match, Pos};
use rio_vt::crosswords::grid::Grid;
use rio_vt::crosswords::square::Square;
use vstd::prelude::*;

verus! {

/// The lines that a search looks at are those of the displayed cells: the
/// first is as many lines above the screen as the display is scrolled back,
/// there are as many as the screen has, every displayed cell is on one of
/// them, and each of them is displayed.
pub proof fn search_looks_at_the_displayed_lines(grid: Grid<Square>)
    requires
        rectangular(grid_view(grid)),
        lines_fit(grid_view(grid)),
        grid_view(grid).lines >= 1,
        grid_view(grid).display_offset <= grid_view(grid).total_lines - grid_view(grid).lines,
        grid_view(grid).total_lines <= i32::MAX - 100,
    ensures
        viewport_fits(grid),
        viewport_top(grid) == -grid_view(grid).display_offset,
        viewport_bottom(grid) - viewport_top(grid) + 1 == grid_view(grid).lines,
        forall|i: int|
            0 <= i < displayed_cells(grid_view(grid)).len() ==> viewport_top(grid) <= (
            #[trigger] displayed_cells(grid_view(grid))[i]).pos.row <= viewport_bottom(grid),
        forall|row: int|
            viewport_top(grid) <= row <= viewport_bottom(grid) ==> displayed_cells(
                grid_view(grid),
            )[#[trigger] ((row - viewport_top(grid)) * grid_view(grid).columns)].pos.row == row,
        displayed_cells(grid_view(grid)).len() == (viewport_bottom(grid) - viewport_top(grid) + 1)
            * grid_view(grid).columns,
{
    let view = grid_view(grid);
    let columns = view.columns;
    let cells = displayed_cells(view);
    let top = -view.display_offset;
    display_shows_every_cell(view);
    let first = reading_index(view, top, 0);
    assert forall|i: int| 0 <= i < cells.len() implies viewport_top(grid) <= (
    #[trigger] cells[i]).pos.row <= viewport_bottom(grid) by {
        assert(cells[i] == cell_at_index(view, first + i));
        let line = i / columns;
        let col = i % columns;
        vstd::arithmetic::div_mod::lemma_fundamental_div_mod(i, columns);
        vstd::arithmetic::div_mod::lemma_mod_bound(i, columns);
        assert(0 <= line < view.lines) by (nonlinear_arith)
            requires
                i == columns * line + col,
                0 <= col < columns,
                0 <= i < view.lines * columns,
        ;
        assert(first + i == reading_index(view, top + line, col)) by (nonlinear_arith)
            requires
                first == top * columns + 0,
                i == columns * line + col,
                reading_index(view, top + line, col) == (top + line) * columns + col,
        ;
        reading_index_inverts(view, top + line, col);
    }
    assert forall|row: int| viewport_top(grid) <= row <= viewport_bottom(grid) implies cells[
    #[trigger] ((row - viewport_top(grid)) * columns)].pos.row == row by {
        let i = (row - top) * columns;
        assert(0 <= i < view.lines * columns) by (nonlinear_arith)
            requires
                i == (row - top) * columns,
                0 <= row - top < view.lines,
                columns >= 1,
        ;
        assert(cells[i] == cell_at_index(view, first + i));
        assert(first + i == reading_index(view, row, 0)) by (nonlinear_arith)
            requires
                first == top * columns + 0,
                i == (row - top) * columns,
                reading_index(view, row, 0) == row * columns + 0,
        ;
        reading_index_inverts(view, row, 0);
    }
}

/// Whether `point` is one of the cells of `found`.
pub open spec fn lies_on(point: Pos, found: Match) -> bool {
    &&& found.start.row < point.row || (found.start.row == point.row && found.start.col
        <= point.col)
    &&& point.row < found.end.row || (point.row == found.end.row && point.col <= found.end.col)
}

/// Whether a match up to number `k` has reached the displayed area.
pub open spec fn is_reached(search: LinkSearch, matches: Seq<Match>, k: int) -> bool {
    search.started || exists|j: int|
        0 <= j <= k && (#[trigger] matches[j]).end.row >= search.viewport_start
}

/// Whether match number `k` is the first one at the point, counting from the
/// first one that reaches the displayed area, and none before it begins below
/// that area.
pub open spec fn is_first_hit(search: LinkSearch, matches: Seq<Match>, k: int) -> bool {
    &&& 0 <= k < matches.len()
    &&& is_reached(search, matches, k)
    &&& lies_on(search.point, matches[k])
    &&& matches[k].start.row <= search.viewport_end
    &&& forall|j: int|
        0 <= j < k && #[trigger] is_reached(search, matches, j) ==> !lies_on(
            search.point,
            matches[j],
        ) && matches[j].start.row <= search.viewport_end
}

proof fn reaching_shifts(search: LinkSearch, matches: Seq<Match>, k: int)
    requires
        matches.len() > 0,
        0 <= k < matches.len() - 1,
        search_step(search, matches[0]).1 == SearchStep::Continue,
    ensures
        is_reached(search, matches, k + 1) == is_reached(
            search_step(search, matches[0]).0,
            matches.drop_first(),
            k,
        ),
{
    let next = search_step(search, matches[0]).0;
    let rest = matches.drop_first();
    if !search.started {
        if matches[0].end.row >= search.viewport_start {
            assert(is_reached(search, matches, k + 1));
        } else {
            if is_reached(search, matches, k + 1) {
                let j = choose|j: int|
                    0 <= j <= k + 1 && (#[trigger] matches[j]).end.row >= search.viewport_start;
                assert(rest[j - 1] == matches[j]);
            }
            if is_reached(next, rest, k) {
                let j = choose|j: int|
                    0 <= j <= k && (#[trigger] rest[j]).end.row >= next.viewport_start;
                assert(matches[j + 1] == rest[j]);
            }
        }
    }
}

/// A search finds exactly the first match at its point, from the first one on
/// that reaches the displayed area and before any that begins below it; it
/// finds nothing exactly when there is none.
pub proof fn search_finds_exactly_the_first_hit(search: LinkSearch, matches: Seq<Match>)
    ensures
        forall|k: int|
            #[trigger] is_first_hit(search, matches, k) ==> search_all(search, matches) == Some(
                matches[k],
            ),
        search_all(search, matches) is Some ==> exists|k: int|
            #[trigger] is_first_hit(search, matches, k),
    decreases matches.len(),
{
    if matches.len() > 0 {
        let (next, step) = search_step(search, matches[0]);
        let rest = matches.drop_first();
        assert(is_reached(search, matches, 0) <==> search.started || matches[0].end.row
            >= search.viewport_start);
        search_finds_exactly_the_first_hit(next, rest);
        if step == SearchStep::Continue {
            assert forall|k: int| #[trigger] is_first_hit(search, matches, k) implies search_all(
                search,
                matches,
            ) == Some(matches[k]) by {
                assert(k > 0);
                reaching_shifts(search, matches, k - 1);
                assert(rest[k - 1] == matches[k]);
                assert forall|j: int|
                    0 <= j < k - 1 && #[trigger] is_reached(next, rest, j) implies !lies_on(
                    next.point,
                    rest[j],
                ) && rest[j].start.row <= next.viewport_end by {
                    reaching_shifts(search, matches, j);
                    assert(rest[j] == matches[j + 1]);
                    assert(is_reached(search, matches, j + 1));
                }
                assert(is_first_hit(next, rest, k - 1));
            }
            if search_all(search, matches) is Some {
                let k = choose|k: int| #[trigger] is_first_hit(next, rest, k);
                reaching_shifts(search, matches, k);
                assert(rest[k] == matches[k + 1]);
                assert forall|j: int|
                    0 <= j < k + 1 && #[trigger] is_reached(search, matches, j) implies !lies_on(
                    search.point,
                    matches[j],
                ) && matches[j].start.row <= search.viewport_end by {
                    if j > 0 {
                        reaching_shifts(search, matches, j - 1);
                        assert(rest[j - 1] == matches[j]);
                        assert(is_reached(next, rest, j - 1));
                    }
                }
                assert(is_first_hit(search, matches, k + 1));
            }
        } else {
            assert(is_reached(search, matches, 0));
            assert forall|k: int| #[trigger] is_first_hit(search, matches, k) implies search_all(
                search,
                matches,
            ) == Some(matches[k]) by {
                if k > 0 {
                    assert(is_reached(search, matches, 0));
                }
            }
            if step == SearchStep::Found {
                assert(is_first_hit(search, matches, 0));
            }
        }
    }
}

/// Looking at a match: it is passed over while none has reached the displayed
/// area; it ends the search when it begins below that area; it is the link
/// when the point lies on it. What the search looks for stays the same.
pub proof fn looking_at_one_match(search: LinkSearch, found: Match)
    ensures
        ({
            let (next, step) = search_step(search, found);
            let reached = search.started || found.end.row >= search.viewport_start;
            &&& next.viewport_start == search.viewport_start
            &&& next.viewport_end == search.viewport_end
            &&& next.point == search.point
            &&& next.started == reached
            &&& step == SearchStep::Stop <==> reached && found.start.row > search.viewport_end
            &&& step == SearchStep::Found <==> reached && found.start.row <= search.viewport_end
                && lies_on(search.point, found)
        }),
{
}

/// Links begin with one of the known schemes and have no control characters,
/// spaces, brackets or quotes in them: this is the pattern that says so.
pub proof fn link_pattern_is_known()
    ensures
        URL_REGEX@
            == r#"(ipfs:|ipns:|magnet:|mailto:|gemini://|gopher://|https://|http://|news:|file://|git://|ssh:|ftp://)[^\u{0000}-\u{001F}\u{007F}-\u{009F}<>"\s{-}\^⟨⟩`]+"#@,
{
}

} // verus!
