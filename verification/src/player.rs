//! The player: where it stands, where it faces, and how wide it sees.

use vstd::prelude::*;
use vstd::arithmetic::div_mod::*;
use crate::location::Location;
use crate::trig::{cosine, cosine_units, sine, sine_units};
use crate::units::{DEFAULT_FOV, LOOK_STEP, STEP};

verus! {

/// A way to move, relative to where the player faces.
#[derive(Debug, Clone, Copy, PartialEq, Eq, Structural)]
pub enum Direction {
    Forward,
    Back,
    Left,
    Right,
}

/// The player. `direction` is the bearing it faces, in degrees, and `fov`
/// the angle it sees, in degrees.
#[derive(Debug, Clone, Copy)]
pub struct Player {
    pub location: Location,
    pub direction: i32,
    pub fov: u32,
}

/// The bearing after a turn by `delta` degrees: the sum, less a full turn
/// where it reaches one, plus a full turn where a turn to the left brings it
/// to zero or below.
pub open spec fn turned(direction: int, delta: int) -> int {
    let sum = direction + delta;
    if sum >= 360 {
        sum - 360
    } else if sum <= 0 && delta < 0 {
        sum + 360
    } else {
        sum
    }
}

/// The bearing after `count` turns by `delta` degrees.
pub open spec fn turned_times(direction: int, delta: int, count: nat) -> int
    decreases count,
{
    if count == 0 {
        direction
    } else {
        turned(turned_times(direction, delta, (count - 1) as nat), delta)
    }
}

/// Degrees between the bearing faced and the bearing moved along.
pub open spec fn bearing_offset(dir: Direction) -> int {
    match dir {
        Direction::Forward => 0,
        Direction::Back => 180,
        Direction::Left => 270,
        Direction::Right => 90,
    }
}

impl Player {
    /// This player after a turn by `delta` degrees.
    pub open spec fn turned_by(self, delta: int) -> Player {
        Player { direction: turned(self.direction as int, delta) as i32, ..self }
    }

    /// This player after one step in the given way.
    pub open spec fn moved(self, dir: Direction) -> Player {
        let bearing = self.direction + bearing_offset(dir);
        Player { location: self.location.shifted(cosine(bearing), sine(bearing)), ..self }
    }

    /// A turn by `delta` degrees stays within the machine's integers.
    pub open spec fn can_turn(self, delta: int) -> bool {
        i32::MIN <= self.direction + delta <= i32::MAX
    }

    /// A player at `location` that faces along the x axis.
    pub fn new(location: Location) -> (r: Self)
        ensures
            r.location == location,
            r.direction == 0,
            r.fov == DEFAULT_FOV,
    {
        Player { location, direction: 0, fov: DEFAULT_FOV }
    }

    /// Turns by `delta` degrees, to the right where `delta` is positive.
    pub fn turn(&mut self, delta: i32)
        requires
            old(self).can_turn(delta as int),
        ensures
            *final(self) == old(self).turned_by(delta as int),
            final(self).direction == turned(old(self).direction as int, delta as int),
    {
        let sum: i32 = self.direction + delta;
        if sum >= 360 {
            self.direction = sum - 360;
        } else if sum <= 0 && delta < 0 {
            self.direction = sum + 360;
        } else {
            self.direction = sum;
        }
    }

    /// Turns one look step to the right.
    pub fn look_right(&mut self)
        requires
            old(self).can_turn(LOOK_STEP as int),
        ensures
            *final(self) == old(self).turned_by(LOOK_STEP as int),
            final(self).direction == turned(old(self).direction as int, LOOK_STEP as int),
    {
        self.turn(LOOK_STEP);
    }

    /// Turns one look step to the left.
    pub fn look_left(&mut self)
        requires
            old(self).can_turn(-LOOK_STEP),
        ensures
            *final(self) == old(self).turned_by(-LOOK_STEP),
            final(self).direction == turned(old(self).direction as int, -LOOK_STEP),
    {
        self.turn(-LOOK_STEP);
    }

    /// Moves one step in the given way. Walls do not stop the player.
    pub fn move_direction(&mut self, dir: &Direction)
        requires
            old(self).location.has_room(STEP as int),
        ensures
            *final(self) == old(self).moved(*dir),
            final(self).location.x == old(self).location.x + cosine(
                old(self).direction + bearing_offset(*dir),
            ),
            final(self).location.y == old(self).location.y + sine(
                old(self).direction + bearing_offset(*dir),
            ),
    {
        let mut move_angle: i64 = self.direction as i64;
        match dir {
            Direction::Forward => (),
            Direction::Back => move_angle += 180,
            Direction::Left => move_angle += 270,
            Direction::Right => move_angle += 90,
        }
        let dx: i64 = cosine_units(move_angle);
        let dy: i64 = sine_units(move_angle);
        self.location.move_x(dx);
        self.location.move_y(dy);
    }
}

/// A turn changes the bearing by `delta`, up to full turns.
pub proof fn lemma_turn_congruent(direction: int, delta: int)
    ensures
        turned(direction, delta) % 360 == (direction + delta) % 360,
{
    lemma_mod_multiples_vanish(-1, direction + delta, 360);
    lemma_mod_multiples_vanish(1, direction + delta, 360);
}

/// A turn by one look step to the right from a bearing in `0..360` ends in
/// `0..360`.
pub proof fn lemma_look_right_closed(direction: int)
    requires
        0 <= direction < 360,
    ensures
        0 <= turned(direction, LOOK_STEP as int) < 360,
{
}

/// After `count` turns by `delta` the bearing has changed by `count * delta`,
/// up to full turns.
pub proof fn lemma_turns_congruent(direction: int, delta: int, count: nat)
    ensures
        turned_times(direction, delta, count) % 360 == (direction + count * delta) % 360,
    decreases count,
{
    if count > 0 {
        let before = turned_times(direction, delta, (count - 1) as nat);
        lemma_turns_congruent(direction, delta, (count - 1) as nat);
        lemma_turn_congruent(before, delta);
        let sum = direction + (count - 1) * delta;
        lemma_add_mod_noop(before, delta, 360);
        lemma_add_mod_noop(sum, delta, 360);
        assert(sum + delta == direction + count * delta) by (nonlinear_arith)
            requires
                sum == direction + (count - 1) * delta,
        ;
        assert(turned_times(direction, delta, count) == turned(before, delta));
        assert((before + delta) % 360 == (sum + delta) % 360);
    } else {
        assert(count * delta == 0) by (nonlinear_arith)
            requires
                count == 0,
        ;
    }
}

/// Turns to the right keep a bearing of `0..360` in `0..360`.
pub proof fn lemma_looks_right_closed(direction: int, count: nat)
    requires
        0 <= direction < 360,
    ensures
        0 <= turned_times(direction, LOOK_STEP as int, count) < 360,
    decreases count,
{
    if count > 0 {
        lemma_looks_right_closed(direction, (count - 1) as nat);
    }
}

/// A hundred and eighty look steps to the right make a full turn: from any
/// bearing they end on the same bearing up to full turns, and from a bearing
/// in `0..360` on that very bearing.
pub proof fn lemma_full_turn_right(direction: int)
    ensures
        turned_times(direction, LOOK_STEP as int, 180) % 360 == direction % 360,
        0 <= direction < 360 ==> turned_times(direction, LOOK_STEP as int, 180) == direction,
{
    lemma_turns_congruent(direction, LOOK_STEP as int, 180);
    lemma_mod_multiples_vanish(1, direction, 360);
    if 0 <= direction < 360 {
        lemma_looks_right_closed(direction, 180);
        lemma_small_mod(direction as nat, 360);
        lemma_small_mod(turned_times(direction, LOOK_STEP as int, 180) as nat, 360);
    }
}

} // verus!
