//! A point of the world, in length units.

use vstd::prelude::*;
use crate::units::CELL;

verus! {

/// A point of the world. `x` grows with the column, `y` with the row; one
/// cell is `CELL` units wide.
#[derive(Debug, Clone, Copy, PartialEq, Eq, Structural)]
pub struct Location {
    pub x: i64,
    pub y: i64,
}

/// The cell index of a coordinate: the coordinate in cells, rounded toward zero.
pub open spec fn cell_index(coordinate: int) -> int {
    if coordinate >= 0 {
        coordinate / (CELL as int)
    } else {
        -((-coordinate) / (CELL as int))
    }
}

impl Location {
    pub fn new(x: i64, y: i64) -> (r: Self)
        ensures
            r.x == x,
            r.y == y,
    {
        Location { x, y }
    }

    /// The point at the origin corner of the cell in the given column and row.
    pub open spec fn of_cell(column: int, row: int) -> Location {
        Location { x: (column * CELL) as i64, y: (row * CELL) as i64 }
    }

    /// This point displaced by `(dx, dy)`.
    pub open spec fn shifted(self, dx: int, dy: int) -> Location {
        Location { x: (self.x + dx) as i64, y: (self.y + dy) as i64 }
    }

    /// Both coordinates can move by `margin` in either direction and stay
    /// within the range of the machine's integers.
    pub open spec fn has_room(self, margin: int) -> bool {
        &&& i64::MIN + margin <= self.x <= i64::MAX - margin
        &&& i64::MIN + margin <= self.y <= i64::MAX - margin
    }

    /// Column of the cell that holds this point.
    pub open spec fn column(self) -> int {
        cell_index(self.x as int)
    }

    /// Row of the cell that holds this point.
    pub open spec fn row(self) -> int {
        cell_index(self.y as int)
    }

    /// Whether both coordinates can move by `margin` in either direction.
    pub fn room_for(&self, margin: i64) -> (r: bool)
        requires
            0 <= margin,
        ensures
            r == self.has_room(margin as int),
    {
        i64::MIN + margin <= self.x && self.x <= i64::MAX - margin && i64::MIN + margin <= self.y
            && self.y <= i64::MAX - margin
    }

    pub fn set_x(&mut self, x: i64)
        ensures
            final(self).x == x,
            final(self).y == old(self).y,
    {
        self.x = x;
    }

    pub fn set_y(&mut self, y: i64)
        ensures
            final(self).x == old(self).x,
            final(self).y == y,
    {
        self.y = y;
    }

    pub fn move_x(&mut self, amt: i64)
        requires
            i64::MIN <= old(self).x + amt <= i64::MAX,
        ensures
            final(self).x == old(self).x + amt,
            final(self).y == old(self).y,
    {
        self.x = self.x + amt;
    }

    pub fn move_y(&mut self, amt: i64)
        requires
            i64::MIN <= old(self).y + amt <= i64::MAX,
        ensures
            final(self).x == old(self).x,
            final(self).y == old(self).y + amt,
    {
        self.y = self.y + amt;
    }
}

} // verus!
