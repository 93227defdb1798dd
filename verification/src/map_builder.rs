//! Reading a map from its text.

use vstd::prelude::*;
use vstd::string::*;
use crate::location::Location;
use crate::map::{
    entity_of, grid_of, has_start, last_start, last_start_before, lines_view, marks_start,
    no_start_before, read_before, row_of, rows_supported, rows_view, split_text, supported,
    text_lines, GridMap, MapEntity, MapError,
};
use crate::units::CELL;

verus! {

/// The first map.
pub const MAP_1: &'static str = "
########################
#                      #
#                      #
#                      #
#  P      ####         #
#         #  #         #
#         #  #         #
#         ####         #
#                      #
#                      #
#                      #
########################";

/// What reading `text` as a map gives: the map of its cells, started at the
/// last start marker, where every character stands for a cell and a start is
/// marked; else the reason why it is no map.
pub open spec fn reads_as(text: Seq<char>, r: Result<GridMap, MapError>) -> bool {
    let lines = text_lines(text);
    match r {
        Ok(m) => {
            &&& supported(lines)
            &&& m.cells() == grid_of(lines)
            &&& exists|row: int, column: int| #[trigger]
                last_start(lines, row, column) && m.start() == Location::of_cell(column, row)
        },
        Err(MapError::UnsupportedSymbol) => !supported(lines),
        Err(MapError::MissingStart) => supported(lines) && !has_start(lines),
    }
}

/// Reads the first map.
pub fn load_map_1() -> (r: Result<GridMap, MapError>)
    ensures
        reads_as(MAP_1@, r),
{
    proof {
        reveal_strlit("
########################
#                      #
#                      #
#                      #
#  P      ####         #
#         #  #         #
#         #  #         #
#         ####         #
#                      #
#                      #
#                      #
########################");
    }
    load_map_from_string(MAP_1)
}

/// The cell that a character of the map text stands for.
pub fn map_char_to_map_entity(c: char) -> (r: Result<MapEntity, MapError>)
    ensures
        match entity_of(c) {
            Some(e) => r == Ok::<MapEntity, MapError>(e),
            None => r == Err::<MapEntity, MapError>(MapError::UnsupportedSymbol),
        },
{
    if c == ' ' || c == 'P' {
        Ok(MapEntity::Nothing)
    } else if c == '#' {
        Ok(MapEntity::Wall)
    } else {
        Err(MapError::UnsupportedSymbol)
    }
}

/// The lines of a text, none of them longer than the text, nor more of them
/// than the text has characters.
pub fn split_lines(text: &str) -> (lines: Vec<Vec<char>>)
    ensures
        lines_view(lines) == text_lines(text@),
        lines.len() <= text@.len(),
        forall|k: int| 0 <= k < lines.len() ==> (#[trigger] lines[k]).len() <= text@.len(),
{
    let n: usize = text.unicode_len();
    let mut complete: Vec<Vec<char>> = Vec::new();
    let mut pending: Vec<char> = Vec::new();
    let mut i: usize = 0;
    assert(lines_view(complete) =~= Seq::<Seq<char>>::empty());
    assert(text@.take(0) =~= Seq::<char>::empty());
    while i < n
        invariant
            i <= n,
            n == text@.len(),
            split_text(text@.take(i as int)) == (lines_view(complete), pending@),
            complete.len() + pending.len() <= i,
            forall|k: int| 0 <= k < complete.len() ==> (#[trigger] complete[k]).len() <= i,
        decreases n - i,
    {
        let c: char = text.get_char(i);
        proof {
            assert(text@.take(i + 1).drop_last() =~= text@.take(i as int));
            assert(text@.take(i + 1).last() == c);
        }
        let ghost before = lines_view(complete);
        if c == '\n' {
            let len: usize = pending.len();
            if len > 0 && pending[len - 1] == '\r' {
                pending.pop();
            }
            let ghost line = pending@;
            complete.push(pending);
            pending = Vec::new();
            assert(lines_view(complete) =~= before.push(line));
        } else {
            pending.push(c);
        }
        i += 1;
    }
    assert(text@.take(n as int) =~= text@);
    if pending.len() > 0 {
        let ghost before = lines_view(complete);
        let ghost line = pending@;
        complete.push(pending);
        assert(lines_view(complete) =~= before.push(line));
    }
    complete
}

/// Reads a map from its text.
pub fn load_map_from_string(map_str: &str) -> (r: Result<GridMap, MapError>)
    requires
        map_str@.len() * CELL <= i64::MAX,
    ensures
        reads_as(map_str@, r),
{
    let lines: Vec<Vec<char>> = split_lines(map_str);
    let ghost text = lines_view(lines);
    let mut grid: Vec<Vec<MapEntity>> = Vec::new();
    let mut player: Option<Location> = None;
    let ghost mut start_row: int = 0;
    let ghost mut start_column: int = 0;
    let mut y: usize = 0;
    while y < lines.len()
        invariant
            y <= lines.len(),
            text == lines_view(lines),
            text == text_lines(map_str@),
            lines.len() * CELL <= i64::MAX,
            forall|k: int| 0 <= k < lines.len() ==> (#[trigger] lines[k]).len() * CELL <= i64::MAX,
            grid.len() == y,
            forall|r: int| 0 <= r < y ==> (#[trigger] grid[r])@ == row_of(text[r]),
            rows_supported(text, y as int),
            match player {
                None => no_start_before(text, y as int, 0),
                Some(p) => last_start_before(text, start_row, start_column, y as int, 0) && p
                    == Location::of_cell(start_column, start_row),
            },
        decreases lines.len() - y,
    {
        let line: &Vec<char> = &lines[y];
        let mut grid_line: Vec<MapEntity> = Vec::new();
        let mut x: usize = 0;
        while x < line.len()
            invariant
                x <= line.len(),
                y < lines.len(),
                text == lines_view(lines),
            text == text_lines(map_str@),
                line@ == text[y as int],
                line.len() * CELL <= i64::MAX,
                y * CELL <= i64::MAX,
                grid_line.len() == x,
                forall|c: int| 0 <= c < x ==> entity_of(#[trigger] line[c]) == Some(grid_line[c]),
                rows_supported(text, y as int),
                match player {
                    None => no_start_before(text, y as int, x as int),
                    Some(p) => last_start_before(text, start_row, start_column, y as int, x as int)
                        && p == Location::of_cell(start_column, start_row),
                },
            decreases line.len() - x,
        {
            let c: char = line[x];
            match map_char_to_map_entity(c) {
                Ok(entity) => {
                    grid_line.push(entity);
                },
                Err(e) => {
                    proof {
                        assert(entity_of(text[y as int][x as int]) is None);
                    }
                    return Err(e);
                },
            }
            if c == 'P' {
                player = Some(Location::new(x as i64 * CELL, y as i64 * CELL));
                proof {
                    start_row = y as int;
                    start_column = x as int;
                }
            }
            x += 1;
        }
        proof {
            assert(grid_line@ =~= row_of(text[y as int]));
            assert forall|r: int, c: int| #[trigger]
                marks_start(text, r, c) implies read_before(r, c, y + 1, 0) == read_before(
                r,
                c,
                y as int,
                x as int,
            ) by {}
            assert forall|r: int, c: int|
                0 <= r < y + 1 && r < text.len() && 0 <= c < text[r].len() implies (
            #[trigger] entity_of(text[r][c])) is Some by {
                if r == y {
                    assert(entity_of(line[c]) == Some(grid_line[c]));
                }
            }
        }
        grid.push(grid_line);
        y += 1;
    }
    proof {
        assert(rows_view(grid) =~= grid_of(text));
    }
    match player {
        None => Err(MapError::MissingStart),
        Some(start) => {
            proof {
                assert(last_start(text, start_row, start_column));
            }
            Ok(GridMap::from_rows(grid, start))
        },
    }
}

} // verus!
