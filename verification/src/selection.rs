//! Mouse selection in the conversation panel: which cells of a row are
//! highlighted, and which text a selection covers.

use vstd::prelude::*;
use crate::state::grid_view;
use crate::text::{join, trim_end, trim_end_index};

verus! {

/// `(start column, end column)`, end exclusive, highlighted on `row` for a
/// selection from `start` to `end` (both `(row, column)`, in reading order)
/// in a panel `width` cells wide.
pub open spec fn selection_cols(row: u16, start: (u16, u16), end: (u16, u16), width: u16) -> (
    u16,
    u16,
) {
    let (sr, sc) = start;
    let (er, ec) = end;
    if row < sr || row > er {
        (0, 0)
    } else if sr == er {
        (sc, ec)
    } else if row == sr {
        (sc, width)
    } else if row == er {
        (0, ec)
    } else {
        (0, width)
    }
}

/// The highlighted columns of `screen_row` (see [`selection_cols`]).
pub fn selection_cols_for_row(screen_row: u16, start: (u16, u16), end: (u16, u16), width: u16) -> (r:
    (u16, u16))
    ensures
        r == selection_cols(screen_row, start, end, width),
{
    let (sr, sc) = start;
    let (er, ec) = end;
    if screen_row < sr || screen_row > er {
        return (0, 0);
    }
    if sr == er {
        (sc, ec)
    } else if screen_row == sr {
        (sc, width)
    } else if screen_row == er {
        (0, ec)
    } else {
        (0, width)
    }
}

/// The cells `[a, b)` of `row`, cut to the row's length.
pub open spec fn row_slice(row: Seq<char>, a: int, b: int) -> Seq<char> {
    let lo = if a < row.len() { a } else { row.len() as int };
    let hi = if b < row.len() { b } else { row.len() as int };
    if lo < hi {
        row.subrange(lo, hi)
    } else {
        Seq::empty()
    }
}

/// Text selected on screen row `r` (grid row `r + scroll`), without trailing
/// whitespace.
pub open spec fn selected_line(
    grid: Seq<Seq<char>>,
    start: (u16, u16),
    end: (u16, u16),
    scroll: u16,
    r: int,
) -> Seq<char> {
    let g = r + scroll;
    if g >= grid.len() {
        Seq::empty()
    } else {
        let a = if r == start.0 { start.1 as int } else { 0 };
        let b = if r == end.0 { end.1 as int } else { grid[g].len() as int };
        trim_end(row_slice(grid[g], a, b))
    }
}

/// The selected lines of screen rows `start.0 ..= end.0`.
pub open spec fn selected_lines(
    grid: Seq<Seq<char>>,
    start: (u16, u16),
    end: (u16, u16),
    scroll: u16,
) -> Seq<Seq<char>> {
    Seq::new(
        (end.0 - start.0 + 1) as nat,
        |i: int| selected_line(grid, start, end, scroll, start.0 + i),
    )
}

/// The text a selection covers: its lines joined with newlines, or nothing
/// when that text is empty.
pub open spec fn selected_text(
    grid: Seq<Seq<char>>,
    start: (u16, u16),
    end: (u16, u16),
    scroll: u16,
) -> Option<Seq<char>> {
    let t = join(selected_lines(grid, start, end, scroll), "\n"@);
    if start.0 > end.0 || t.len() == 0 {
        None
    } else {
        Some(t)
    }
}

/// Text of screen row `r` of the selection.
fn line_text(grid: &Vec<Vec<char>>, start: (u16, u16), end: (u16, u16), scroll: u16, r: u16) -> (s:
    String)
    ensures
        s@ == selected_line(grid_view(grid@), start, end, scroll, r as int),
{
    let g: u32 = r as u32 + scroll as u32;
    if g as usize >= grid.len() {
        return String::new();
    }
    let row = &grid[g as usize];
    let a: usize = if r == start.0 { start.1 as usize } else { 0 };
    let b: usize = if r == end.0 { end.1 as usize } else { row.len() };
    let lo = if a < row.len() { a } else { row.len() };
    let hi0 = if b < row.len() { b } else { row.len() };
    let hi = if hi0 > lo { hi0 } else { lo };
    let mut cells: Vec<char> = Vec::new();
    let mut i: usize = lo;
    while i < hi
        invariant
            lo <= i <= hi <= row.len(),
            cells@ == row@.subrange(lo as int, i as int),
        decreases hi - i,
    {
        cells.push(row[i]);
        assert(row@.subrange(lo as int, i + 1) =~= row@.subrange(lo as int, i as int).push(row@[i as int]));
        i = i + 1;
    }
    proof {
        assert(grid_view(grid@)[g as int] == row@);
        assert(cells@ =~= row_slice(row@, a as int, b as int));
    }
    let e = trim_end_index(&cells, cells.len());
    let out = crate::text::string_from_range(&cells, 0, e);
    assert(cells@.subrange(0, e as int) =~= trim_end(cells@));
    out
}

/// The text covered by a selection from `start` to `end` (reading order) of
/// a panel whose grid is scrolled by `scroll` rows (see [`selected_text`]).
pub fn extract_selected_text(grid: &Vec<Vec<char>>, start: (u16, u16), end: (u16, u16), scroll: u16) -> (r:
    Option<String>)
    ensures
        match r {
            Some(t) => selected_text(grid_view(grid@), start, end, scroll) == Some(t@),
            None => selected_text(grid_view(grid@), start, end, scroll) is None,
        },
{
    if start.0 > end.0 {
        return None;
    }
    let ghost lines = selected_lines(grid_view(grid@), start, end, scroll);
    let mut out = String::new();
    let mut r: u16 = start.0;
    loop
        invariant_except_break
            out@ == join(lines.take(r - start.0), "\n"@),
        invariant
            start.0 <= r <= end.0,
            lines == selected_lines(grid_view(grid@), start, end, scroll),
        ensures
            out@ == join(lines, "\n"@),
        decreases end.0 - r,
    {
        let ghost k = r - start.0;
        let line = line_text(grid, start, end, scroll, r);
        assert(lines[k] == line@);
        assert(lines.take(k + 1).drop_last() =~= lines.take(k));
        if r == start.0 {
            out = line;
            assert(lines.take(1) =~= seq![lines[0]]);
        } else {
            out = crate::text::concat3(out.as_str(), "\n", line.as_str());
        }
        if r == end.0 {
            assert(lines.take(k + 1) =~= lines);
            break;
        }
        r = r + 1;
    }
    if out.as_str().is_empty() {
        None
    } else {
        Some(out)
    }
}

} // verus!
