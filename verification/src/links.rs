//! Finding the link under the mouse among the matches of the link pattern.
use crate::grid::{
    display_offset, grid_display_offset, grid_lines, screen_lines,
};
use crate::point::{match_contains, Match, Pos};
use rio_vt::crosswords::grid::Grid;
use rio_vt::crosswords::search::RegexSearch;
use rio_vt::crosswords::square::Square;
use vstd::prelude::*;

verus! {

/// What counts as a link.
pub const URL_REGEX: &'static str =
    r#"(ipfs:|ipns:|magnet:|mailto:|gemini://|gopher://|https://|http://|news:|file://|git://|ssh:|ftp://)[^\u{0000}-\u{001F}\u{007F}-\u{009F}<>"\s{-}\^⟨⟩`]+"#;

/// `rio_vt`'s compiled search pattern.
#[verifier::external_type_specification]
#[verifier::external_body]
pub struct ExRegexSearch(rio_vt::crosswords::search::RegexSearch);

/// Why a pattern could not be compiled.
#[verifier::external_type_specification]
#[verifier::external_body]
pub struct ExBuildError(rio_vt::crosswords::search::BuildError);

/// Whether `RegexSearch::new` accepts a pattern.
pub uninterp spec fn pattern_compiles(pattern: Seq<char>) -> bool;

/// The pattern that a search was made of.
pub uninterp spec fn search_pattern(search: RegexSearch) -> Seq<char>;

/// `RegexSearch::new`: a search for the pattern, where it can be compiled.
#[verifier::external_body]
pub(crate) fn compile_pattern(
    pattern: &str,
) -> (r: Result<RegexSearch, Box<rio_vt::crosswords::search::BuildError>>)
    ensures
        r is Ok == pattern_compiles(pattern@),
        r matches Ok(search) ==> search_pattern(search) == pattern@,
{
    RegexSearch::new(pattern)
}

/// How far a search reaches beyond the displayed area, in lines.
pub const SEARCH_MARGIN: i32 = 100;

/// The top line of the displayed area.
pub open spec fn viewport_top(grid: Grid<Square>) -> int {
    -(grid_display_offset(grid) as i32)
}

/// The bottom line of the displayed area.
pub open spec fn viewport_bottom(grid: Grid<Square>) -> int {
    viewport_top(grid) + (grid_lines(grid) as i32) - 1
}

/// Whether the lines of the displayed area, and those that a search reaches,
/// have numbers.
pub open spec fn viewport_fits(grid: Grid<Square>) -> bool {
    &&& viewport_top(grid) <= i32::MAX
    &&& viewport_top(grid) - SEARCH_MARGIN >= i32::MIN
    &&& (grid_lines(grid) as i32) > i32::MIN
    &&& i32::MIN <= viewport_bottom(grid) <= i32::MAX - SEARCH_MARGIN
}

/// Whether the lines of the displayed area, and those that a search reaches,
/// have numbers.
pub fn does_viewport_fit(grid: &Grid<Square>) -> (r: bool)
    ensures
        r == viewport_fits(*grid),
{
    let offset: i32 = #[verifier::truncate] (display_offset(grid) as i32);
    let lines: i32 = #[verifier::truncate] (screen_lines(grid) as i32);
    let top: i64 = -(offset as i64);
    let bottom: i64 = top + lines as i64 - 1;
    top <= i32::MAX as i64 && top - SEARCH_MARGIN as i64 >= i32::MIN as i64 && lines > i32::MIN
        && i32::MIN as i64 <= bottom && bottom <= i32::MAX as i64 - SEARCH_MARGIN as i64
}

/// A search for the link at a point, going through the matches of the link
/// pattern one by one.
#[derive(Debug, Clone, Copy, PartialEq, Eq, Structural)]
pub struct LinkSearch {
    /// The top line of the displayed area.
    pub viewport_start: i32,
    /// The bottom line of the displayed area.
    pub viewport_end: i32,
    /// Where the link should be.
    pub point: Pos,
    /// Whether a match has reached the displayed area yet.
    pub started: bool,
}

/// What to do after a match has been looked at.
#[derive(Debug, Clone, Copy, PartialEq, Eq, Structural)]
pub enum SearchStep {
    /// Look at the next match.
    Continue,
    /// This match is the link.
    Found,
    /// There is no link.
    Stop,
}

/// The larger of two numbers.
pub open spec fn greatest(a: i32, b: int) -> int {
    if a >= b {
        a as int
    } else {
        b
    }
}

/// What looking at one match does: matches above the displayed area are passed
/// over until one reaches it; one that begins below it ends the search.
pub open spec fn search_step(search: LinkSearch, found: Match) -> (LinkSearch, SearchStep) {
    if !search.started && found.end.row < search.viewport_start {
        (search, SearchStep::Continue)
    } else {
        let begun = LinkSearch { started: true, ..search };
        if found.start.row > search.viewport_end {
            (begun, SearchStep::Stop)
        } else if match_contains(found, search.point) {
            (begun, SearchStep::Found)
        } else {
            (begun, SearchStep::Continue)
        }
    }
}

impl LinkSearch {
    /// Whether the lines that the search reaches have numbers.
    pub open spec fn reach_fits(self) -> bool {
        &&& self.viewport_start - SEARCH_MARGIN >= i32::MIN
        &&& self.viewport_end + SEARCH_MARGIN <= i32::MAX
    }

    /// A search in the displayed area of `grid`.
    pub fn new(grid: &Grid<Square>, point: Pos) -> (r: LinkSearch)
        requires
            viewport_fits(*grid),
        ensures
            r.viewport_start == viewport_top(*grid),
            r.viewport_end == viewport_bottom(*grid),
            r.viewport_start == -(grid_display_offset(*grid) as i32),
            r.viewport_end == r.viewport_start + (grid_lines(*grid) as i32) - 1,
            r.point == point,
            !r.started,
            r.reach_fits(),
    {
        let offset: i32 = #[verifier::truncate] (display_offset(grid) as i32);
        let lines: i32 = #[verifier::truncate] (screen_lines(grid) as i32);
        let viewport_start: i32 = -offset;
        let viewport_end: i32 = viewport_start + (lines - 1);
        LinkSearch { viewport_start, viewport_end, point, started: false }
    }

    /// Where the line that the displayed area begins in is looked up.
    pub fn top(&self) -> (r: Pos)
        ensures
            r == (Pos { row: self.viewport_start, col: 0 }),
    {
        Pos { row: self.viewport_start, col: 0 }
    }

    /// Where the line that the displayed area ends in is looked up.
    pub fn bottom(&self) -> (r: Pos)
        ensures
            r == (Pos { row: self.viewport_end, col: 0 }),
    {
        Pos { row: self.viewport_end, col: 0 }
    }

    /// Where the matches begin and end that have to be looked at. `start` is
    /// the beginning of the wrapped line at the top of the displayed area and
    /// `end` the end of the one at its bottom; the search leaves out what is
    /// too far away.
    pub fn bounds(&self, start: Pos, end: Pos) -> (r: (Pos, Pos))
        requires
            self.reach_fits(),
        ensures
            r.0.row == greatest(start.row, self.viewport_start - SEARCH_MARGIN),
            r.0.col == start.col,
            r.1.row == crate::size::least(end.row as int, self.viewport_end + SEARCH_MARGIN),
            r.1.col == end.col,
            r.0.row >= start.row && r.0.row >= self.viewport_start - 100,
            r.0.row == start.row || r.0.row == self.viewport_start - 100,
            r.1.row <= end.row && r.1.row <= self.viewport_end + 100,
            r.1.row == end.row || r.1.row == self.viewport_end + 100,
    {
        let first: i32 = self.viewport_start - SEARCH_MARGIN;
        let last: i32 = self.viewport_end + SEARCH_MARGIN;
        (
            Pos { row: if start.row >= first { start.row } else { first }, col: start.col },
            Pos { row: if end.row <= last { end.row } else { last }, col: end.col },
        )
    }

    /// Looks at the matches one by one, and gives the one that is the link.
    pub fn find(self, matches: &Vec<Match>) -> (r: Option<Match>)
        ensures
            r == search_all(self, matches@),
    {
        let mut search: LinkSearch = self;
        let mut i: usize = 0;
        assert(matches@.skip(0) =~= matches@);
        while i < matches.len()
            invariant
                i <= matches.len(),
                search_all(search, matches@.skip(i as int)) == search_all(self, matches@),
            decreases matches.len() - i,
        {
            let found: Match = matches[i];
            let ghost rest = matches@.skip(i as int);
            assert(rest[0] == found);
            assert(rest.drop_first() =~= matches@.skip(i + 1));
            match search.examine(&found) {
                SearchStep::Continue => {},
                SearchStep::Found => {
                    return Some(found);
                },
                SearchStep::Stop => {
                    return None;
                },
            }
            i += 1;
        }
        None
    }

    /// Looks at the next match.
    pub fn examine(&mut self, found: &Match) -> (r: SearchStep)
        ensures
            (*final(self), r) == search_step(*old(self), *found),
    {
        if !self.started {
            if found.end.row < self.viewport_start {
                return SearchStep::Continue;
            }
            self.started = true;
        }
        if found.start.row > self.viewport_end {
            SearchStep::Stop
        } else if found.contains(&self.point) {
            SearchStep::Found
        } else {
            SearchStep::Continue
        }
    }
}

/// Whether a search is over before it runs out of matches: one of them is the
/// link, or shows that there is none.
pub open spec fn search_ends(search: LinkSearch, matches: Seq<Match>) -> bool
    decreases matches.len(),
{
    matches.len() > 0 && {
        let (next, step) = search_step(search, matches[0]);
        step != SearchStep::Continue || search_ends(next, matches.drop_first())
    }
}

/// What looking at the matches one by one comes to: the match that was found.
pub open spec fn search_all(search: LinkSearch, matches: Seq<Match>) -> Option<Match>
    decreases matches.len(),
{
    if matches.len() == 0 {
        None
    } else {
        let (next, step) = search_step(search, matches[0]);
        match step {
            SearchStep::Continue => search_all(next, matches.drop_first()),
            SearchStep::Found => Some(matches[0]),
            SearchStep::Stop => None,
        }
    }
}

/// A search that is over needs no further matches: whatever comes behind, it
/// finds the same.
pub proof fn ended_search_needs_no_more(search: LinkSearch, matches: Seq<Match>, more: Seq<Match>)
    requires
        search_ends(search, matches),
    ensures
        search_ends(search, matches + more),
        search_all(search, matches + more) == search_all(search, matches),
    decreases matches.len(),
{
    let (next, step) = search_step(search, matches[0]);
    assert((matches + more)[0] == matches[0]);
    if step == SearchStep::Continue {
        ended_search_needs_no_more(next, matches.drop_first(), more);
        assert((matches + more).drop_first() =~= matches.drop_first() + more);
    }
}

/// The matches from the first one on that reaches line `top`.
pub open spec fn reaching(matches: Seq<Match>, top: i32) -> Seq<Match>
    decreases matches.len(),
{
    if matches.len() > 0 && matches[0].end.row < top {
        reaching(matches.drop_first(), top)
    } else {
        matches
    }
}

/// The matches before the first one that begins below line `bottom`.
pub open spec fn beginning_by(matches: Seq<Match>, bottom: i32) -> Seq<Match>
    decreases matches.len(),
{
    if matches.len() > 0 && matches[0].start.row <= bottom {
        seq![matches[0]] + beginning_by(matches.drop_first(), bottom)
    } else {
        seq![]
    }
}

/// The first match with a cell at `point`.
pub open spec fn first_at(matches: Seq<Match>, point: Pos) -> Option<Match>
    decreases matches.len(),
{
    if matches.len() == 0 {
        None
    } else if match_contains(matches[0], point) {
        Some(matches[0])
    } else {
        first_at(matches.drop_first(), point)
    }
}

/// A search finds the first match at its point among the visible matches:
/// those from the first one on that reaches the displayed area, and before the
/// first one that begins below it.
pub proof fn search_finds_first_visible_match(search: LinkSearch, matches: Seq<Match>)
    requires
        !search.started,
    ensures
        search_all(search, matches) == first_at(
            beginning_by(reaching(matches, search.viewport_start), search.viewport_end),
            search.point,
        ),
    decreases matches.len(),
{
    if matches.len() > 0 && matches[0].end.row < search.viewport_start {
        search_finds_first_visible_match(search, matches.drop_first());
    } else {
        started_search_finds_first_match(
            LinkSearch { started: true, ..search },
            matches,
        );
        if matches.len() > 0 {
            assert(search_step(search, matches[0]) == search_step(
                LinkSearch { started: true, ..search },
                matches[0],
            ));
        }
    }
}

proof fn started_search_finds_first_match(search: LinkSearch, matches: Seq<Match>)
    requires
        search.started,
    ensures
        search_all(search, matches) == first_at(
            beginning_by(matches, search.viewport_end),
            search.point,
        ),
    decreases matches.len(),
{
    if matches.len() > 0 && matches[0].start.row <= search.viewport_end {
        started_search_finds_first_match(search, matches.drop_first());
        let rest = beginning_by(matches.drop_first(), search.viewport_end);
        assert((seq![matches[0]] + rest).drop_first() =~= rest);
    }
}

/// Whether matches stand in order: none begins or ends in a line above one
/// that comes before it.
pub open spec fn in_order(matches: Seq<Match>) -> bool {
    forall|i: int, j: int|
        0 <= i <= j < matches.len() ==> (#[trigger] matches[i]).start.row <= (
        #[trigger] matches[j]).start.row && matches[i].end.row <= matches[j].end.row
}

/// Whether a match has a line among those from `top` to `bottom`.
pub open spec fn is_visible(found: Match, top: i32, bottom: i32) -> bool {
    found.end.row >= top && found.start.row <= bottom
}

/// Of matches in order, exactly those with a line in the displayed area are
/// kept by passing over those above it and stopping at the first below it.
pub proof fn visible_matches_are_those_on_display(matches: Seq<Match>, top: i32, bottom: i32)
    requires
        in_order(matches),
    ensures
        beginning_by(reaching(matches, top), bottom) == matches.filter(
            |found: Match| is_visible(found, top, bottom),
        ),
    decreases matches.len(),
{
    let visible = |found: Match| is_visible(found, top, bottom);
    reveal(Seq::filter);
    if matches.len() > 0 {
        let first = seq![matches[0]];
        let rest = matches.drop_first();
        assert forall|i: int, j: int| 0 <= i <= j < rest.len() implies (
        #[trigger] rest[i]).start.row <= (#[trigger] rest[j]).start.row && rest[i].end.row
            <= rest[j].end.row by {
            assert(rest[i] == matches[i + 1] && rest[j] == matches[j + 1]);
        }
        visible_matches_are_those_on_display(rest, top, bottom);
        assert(matches =~= first + rest);
        Seq::filter_distributes_over_add(first, rest, visible);
        assert(first.drop_last() =~= seq![]);
        assert(first.drop_last().filter(visible) =~= seq![]);
        if rest.len() > 0 {
            assert(matches[0].start.row <= matches[1].start.row);
            assert(matches[0].end.row <= matches[1].end.row);
            assert(rest[0] == matches[1]);
        }
    }
}

/// Of matches in order, a search finds the first one at its point that has a
/// line in the displayed area.
pub proof fn search_finds_first_match_on_display(search: LinkSearch, matches: Seq<Match>)
    requires
        !search.started,
        in_order(matches),
    ensures
        search_all(search, matches) == first_at(
            matches.filter(
                |found: Match| is_visible(found, search.viewport_start, search.viewport_end),
            ),
            search.point,
        ),
{
    search_finds_first_visible_match(search, matches);
    visible_matches_are_those_on_display(matches, search.viewport_start, search.viewport_end);
}

/// The link that a search finds is one of the matches, lies at the point, and
/// begins by the bottom of the displayed area.
pub proof fn found_link_lies_at_point(search: LinkSearch, matches: Seq<Match>)
    ensures
        search_all(search, matches) matches Some(link) ==> {
            &&& matches.contains(link)
            &&& match_contains(link, search.point)
            &&& link.start.row <= search.viewport_end
        },
    decreases matches.len(),
{
    if matches.len() > 0 {
        let (next, step) = search_step(search, matches[0]);
        found_link_lies_at_point(next, matches.drop_first());
        if step == SearchStep::Continue {
            if let Some(link) = search_all(next, matches.drop_first()) {
                let i = choose|i: int|
                    0 <= i < matches.drop_first().len() && matches.drop_first()[i] == link;
                assert(matches[i + 1] == link);
            }
        } else {
            assert(matches.contains(matches[0]));
        }
    }
}

} // verus!
