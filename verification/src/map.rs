//! The grid map and its textual form.
//!
//! A map is written as text, one row per line and one character per cell:
//! a space is an empty cell, `#` a wall, and `P` an empty cell where the
//! player starts.

use vstd::prelude::*;
use crate::location::Location;
use crate::units::CELL;

verus! {

/// What a cell holds.
#[derive(Debug, Clone, Copy, PartialEq, Eq, Structural)]
pub enum MapEntity {
    Nothing,
    Wall,
}

/// Why a text is not a map.
#[derive(Debug, Clone, Copy, PartialEq, Eq, Structural)]
pub enum MapError {
    /// The text holds a character that stands for no cell.
    UnsupportedSymbol,
    /// The text marks no cell as the player's start.
    MissingStart,
}

/// Rows of cells, and the point where the player starts. Rows may differ in
/// length.
#[derive(Debug)]
pub struct GridMap {
    grid: Vec<Vec<MapEntity>>,
    player_start: Location,
}

/// The cell that a character stands for, if any.
pub open spec fn entity_of(c: char) -> Option<MapEntity> {
    if c == ' ' || c == 'P' {
        Some(MapEntity::Nothing)
    } else if c == '#' {
        Some(MapEntity::Wall)
    } else {
        None
    }
}

/// A line without the carriage return that may end it.
pub open spec fn without_carriage_return(line: Seq<char>) -> Seq<char> {
    if line.len() > 0 && line.last() == '\r' {
        line.drop_last()
    } else {
        line
    }
}

/// The lines that a text has completed with a line feed, and the characters
/// after the last line feed.
pub open spec fn split_text(text: Seq<char>) -> (Seq<Seq<char>>, Seq<char>)
    decreases text.len(),
{
    if text.len() == 0 {
        (Seq::empty(), Seq::empty())
    } else {
        let (complete, pending) = split_text(text.drop_last());
        if text.last() == '\n' {
            (complete.push(without_carriage_return(pending)), Seq::empty())
        } else {
            (complete, pending.push(text.last()))
        }
    }
}

/// The lines of a text. A line ends at a line feed, or at a carriage return
/// directly followed by one; the last line needs no line ending.
pub open spec fn text_lines(text: Seq<char>) -> Seq<Seq<char>> {
    let (complete, pending) = split_text(text);
    if pending.len() > 0 {
        complete.push(pending)
    } else {
        complete
    }
}

/// Every character of the first `rows` lines stands for a cell.
pub open spec fn rows_supported(lines: Seq<Seq<char>>, rows: int) -> bool {
    forall|r: int, c: int|
        0 <= r < rows && r < lines.len() && 0 <= c < lines[r].len() ==> (#[trigger] entity_of(
            lines[r][c],
        )) is Some
}

/// Every character of the lines stands for a cell.
pub open spec fn supported(lines: Seq<Seq<char>>) -> bool {
    rows_supported(lines, lines.len() as int)
}

/// The start marker stands at this row and column.
pub open spec fn marks_start(lines: Seq<Seq<char>>, row: int, column: int) -> bool {
    0 <= row < lines.len() && 0 <= column < lines[row].len() && lines[row][column] == 'P'
}

/// `(row, column)` comes before the cell that `rows` full rows and `columns`
/// cells of the next row are read up to.
pub open spec fn read_before(row: int, column: int, rows: int, columns: int) -> bool {
    row < rows || (row == rows && column < columns)
}

/// No start marker stands in what has been read.
pub open spec fn no_start_before(lines: Seq<Seq<char>>, rows: int, columns: int) -> bool {
    forall|r: int, c: int| #[trigger]
        marks_start(lines, r, c) ==> !read_before(r, c, rows, columns)
}

/// `(row, column)` holds the last start marker of what has been read.
pub open spec fn last_start_before(
    lines: Seq<Seq<char>>,
    row: int,
    column: int,
    rows: int,
    columns: int,
) -> bool {
    &&& marks_start(lines, row, column)
    &&& read_before(row, column, rows, columns)
    &&& forall|r: int, c: int| #[trigger]
        marks_start(lines, r, c) && read_before(r, c, rows, columns) ==> (r < row || (r == row
            && c <= column))
}

/// Some cell is marked as the start.
pub open spec fn has_start(lines: Seq<Seq<char>>) -> bool {
    !no_start_before(lines, lines.len() as int, 0)
}

/// `(row, column)` holds the last start marker of the lines, in reading order.
pub open spec fn last_start(lines: Seq<Seq<char>>, row: int, column: int) -> bool {
    last_start_before(lines, row, column, lines.len() as int, 0)
}

/// The cells that a line stands for.
pub open spec fn row_of(line: Seq<char>) -> Seq<MapEntity> {
    Seq::new(line.len(), |c: int| entity_of(line[c]).unwrap())
}

/// The cells that the lines stand for.
pub open spec fn grid_of(lines: Seq<Seq<char>>) -> Seq<Seq<MapEntity>> {
    Seq::new(lines.len(), |r: int| row_of(lines[r]))
}

/// The characters of each line.
pub open spec fn lines_view(lines: Vec<Vec<char>>) -> Seq<Seq<char>> {
    Seq::new(lines.len() as nat, |r: int| lines[r]@)
}

/// The cells of each row.
pub open spec fn rows_view(rows: Vec<Vec<MapEntity>>) -> Seq<Seq<MapEntity>> {
    Seq::new(rows.len() as nat, |r: int| rows[r]@)
}

impl GridMap {
    /// A map of the given rows, with the given start.
    pub(crate) fn from_rows(grid: Vec<Vec<MapEntity>>, player_start: Location) -> (m: Self)
        ensures
            m.cells() == rows_view(grid),
            m.start() == player_start,
    {
        GridMap { grid, player_start }
    }

    /// The cells, row by row.
    pub closed spec fn cells(&self) -> Seq<Seq<MapEntity>> {
        Seq::new(self.grid.len() as nat, |r: int| self.grid[r]@)
    }

    /// Where the player starts.
    pub closed spec fn start(&self) -> Location {
        self.player_start
    }

    /// The cell that holds `location` lies on the map.
    pub open spec fn contains(&self, location: Location) -> bool {
        &&& 0 <= location.row() < self.cells().len()
        &&& 0 <= location.column() < self.cells()[location.row()].len()
    }

    /// The cell that holds `location` is a wall.
    pub open spec fn wall_at(&self, location: Location) -> bool {
        self.contains(location) && self.cells()[location.row()][location.column()]
            == MapEntity::Wall
    }

    /// Where the player starts.
    pub fn player_start(&self) -> (r: Location)
        ensures
            r == self.start(),
    {
        self.player_start
    }

    /// Number of rows.
    pub fn height(&self) -> (r: usize)
        ensures
            r == self.cells().len(),
    {
        self.grid.len()
    }

    /// Number of cells in a row.
    pub fn width_of_row(&self, row: usize) -> (r: usize)
        requires
            row < self.cells().len(),
        ensures
            r == self.cells()[row as int].len(),
    {
        self.grid[row].len()
    }

    /// Whether the cell that holds `location` lies on the map.
    pub fn covers(&self, location: &Location) -> (r: bool)
        ensures
            r == self.contains(*location),
    {
        if location.x <= -CELL || location.y <= -CELL {
            return false;
        }
        let row: i64 = if location.y > 0 { location.y / CELL } else { 0 };
        let column: i64 = if location.x > 0 { location.x / CELL } else { 0 };
        if self.grid.len() as u64 <= row as u64 {
            return false;
        }
        (column as u64) < self.grid[row as usize].len() as u64
    }

    /// Whether the cell that holds `location` is a wall. The location must lie
    /// on the map.
    pub fn is_wall(&self, location: &Location) -> (r: bool)
        requires
            self.contains(*location),
        ensures
            r == self.wall_at(*location),
    {
        let row_index: i64 = if location.y > 0 { location.y / CELL } else { 0 };
        let column_index: i64 = if location.x > 0 { location.x / CELL } else { 0 };
        assert(row_index == location.row());
        assert(column_index == location.column());
        assert(self.cells()[row_index as int] == self.grid[row_index as int]@);
        let row: usize = row_index as usize;
        let cells: &Vec<MapEntity> = &self.grid[row];
        assert(column_index < cells.len());
        let column: usize = column_index as usize;
        match cells[column] {
            MapEntity::Wall => true,
            _ => false,
        }
    }
}

} // verus!
