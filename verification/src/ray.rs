//! The ray march: how far a wall is along a bearing.

use vstd::prelude::*;
use crate::location::Location;
use crate::map::GridMap;
use crate::trig::{cosine, cosine_units, lemma_cardinal_steps, sine, sine_units};
use crate::units::{CELL, MAX_STEPS, MAX_VIEW_DISTANCE, STEP};

verus! {

/// Where the ray from `origin` along `bearing` is after `steps` steps.
pub open spec fn cursor(origin: Location, bearing: int, steps: int) -> Location {
    origin.shifted(steps * cosine(bearing), steps * sine(bearing))
}

/// The ray meets no wall in its first `steps` positions.
pub open spec fn clear_before(map: &GridMap, origin: Location, bearing: int, steps: int) -> bool {
    forall|n: int| 0 <= n < steps ==> !map.wall_at(#[trigger] cursor(origin, bearing, n))
}

/// The ray first meets a wall after `steps` steps, within view.
pub open spec fn first_hit(map: &GridMap, origin: Location, bearing: int, steps: int) -> bool {
    &&& 0 <= steps < MAX_STEPS
    &&& clear_before(map, origin, bearing, steps)
    &&& map.wall_at(cursor(origin, bearing, steps))
}

/// The ray stays on the map for as long as it has met no wall.
pub open spec fn ray_on_map(map: &GridMap, origin: Location, bearing: int) -> bool {
    forall|n: int|
        0 <= n < MAX_STEPS && #[trigger] clear_before(map, origin, bearing, n) ==> map.contains(
            cursor(origin, bearing, n),
        )
}

/// The distance at which the ray first meets a wall, if it meets one within
/// view.
pub open spec fn wall_distance(map: &GridMap, origin: Location, bearing: int) -> Option<i64> {
    if exists|n: int| first_hit(map, origin, bearing, n) {
        Some(((choose|n: int| first_hit(map, origin, bearing, n)) * STEP) as i64)
    } else {
        None
    }
}

/// Walks from `start_location` along `direction`, one step at a time, until
/// it stands in a wall or has gone as far as the view reaches. Gives the
/// distance walked to the wall, or `None` where the view ends before one.
pub fn distance_to_wall(map: &GridMap, start_location: &Location, direction: i64) -> (r: Option<
    i64,
>)
    requires
        start_location.has_room(MAX_VIEW_DISTANCE as int),
        ray_on_map(map, *start_location, direction as int),
    ensures
        r == wall_distance(map, *start_location, direction as int),
        match r {
            Some(d) => 0 <= d < MAX_VIEW_DISTANCE && d % STEP == 0 && first_hit(
                map,
                *start_location,
                direction as int,
                (d / STEP) as int,
            ),
            None => clear_before(map, *start_location, direction as int, MAX_STEPS as int),
        },
{
    let ghost origin = *start_location;
    let ghost bearing = direction as int;
    let dx: i64 = cosine_units(direction);
    let dy: i64 = sine_units(direction);
    let mut steps: i64 = 0;
    let mut curr_location: Location = *start_location;
    while steps < MAX_STEPS
        invariant
            0 <= steps <= MAX_STEPS,
            origin == *start_location,
            bearing == direction as int,
            dx == cosine(bearing),
            dy == sine(bearing),
            -STEP <= dx <= STEP,
            -STEP <= dy <= STEP,
            origin.has_room(MAX_VIEW_DISTANCE as int),
            ray_on_map(map, origin, bearing),
            clear_before(map, origin, bearing, steps as int),
            curr_location.x == origin.x + steps * dx,
            curr_location.y == origin.y + steps * dy,
            curr_location == cursor(origin, bearing, steps as int),
        decreases MAX_STEPS - steps,
    {
        if map.is_wall(&curr_location) {
            let distance: i64 = steps * STEP;
            proof {
                assert(first_hit(map, origin, bearing, steps as int));
                assert forall|n: int| first_hit(map, origin, bearing, n) implies n == steps by {
                    if n < steps {
                        assert(!map.wall_at(cursor(origin, bearing, n)));
                    } else if n > steps {
                        assert(!map.wall_at(cursor(origin, bearing, steps as int)));
                    }
                }
                assert((steps * STEP) % (STEP as int) == 0 && (steps * STEP) / (STEP as int)
                    == steps) by (nonlinear_arith)
                    requires
                        0 <= steps,
                ;
            }
            return Some(distance);
        }
        proof {
            let s = steps as int;
            let x = dx as int;
            let y = dy as int;
            assert((s + 1) * x == s * x + x && -15_000_000 <= (s + 1) * x <= 15_000_000)
                by (nonlinear_arith)
                requires
                    0 <= s < 150,
                    -100_000 <= x <= 100_000,
            ;
            assert((s + 1) * y == s * y + y && -15_000_000 <= (s + 1) * y <= 15_000_000)
                by (nonlinear_arith)
                requires
                    0 <= s < 150,
                    -100_000 <= y <= 100_000,
            ;
        }
        curr_location.move_x(dx);
        curr_location.move_y(dy);
        steps += 1;
    }
    proof {
        assert forall|n: int| !first_hit(map, origin, bearing, n) by {
            if 0 <= n < MAX_STEPS {
                assert(!map.wall_at(cursor(origin, bearing, n)));
            }
        }
    }
    None
}

/// Whether a march from `start_location` along `direction` can be made: the
/// start leaves room for the longest ray, and the ray stays on the map for as
/// long as it has met no wall.
pub fn can_march(map: &GridMap, start_location: &Location, direction: i64) -> (r: bool)
    ensures
        r == (start_location.has_room(MAX_VIEW_DISTANCE as int) && ray_on_map(
            map,
            *start_location,
            direction as int,
        )),
{
    if !start_location.room_for(MAX_VIEW_DISTANCE) {
        return false;
    }
    let ghost origin = *start_location;
    let ghost bearing = direction as int;
    let dx: i64 = cosine_units(direction);
    let dy: i64 = sine_units(direction);
    let mut steps: i64 = 0;
    let mut curr_location: Location = *start_location;
    while steps < MAX_STEPS
        invariant
            0 <= steps <= MAX_STEPS,
            origin == *start_location,
            bearing == direction as int,
            dx == cosine(bearing),
            dy == sine(bearing),
            -STEP <= dx <= STEP,
            -STEP <= dy <= STEP,
            origin.has_room(MAX_VIEW_DISTANCE as int),
            clear_before(map, origin, bearing, steps as int),
            forall|n: int| 0 <= n < steps ==> map.contains(#[trigger] cursor(origin, bearing, n)),
            curr_location.x == origin.x + steps * dx,
            curr_location.y == origin.y + steps * dy,
            curr_location == cursor(origin, bearing, steps as int),
        decreases MAX_STEPS - steps,
    {
        if !map.covers(&curr_location) {
            return false;
        }
        if map.is_wall(&curr_location) {
            proof {
                assert forall|n: int|
                    0 <= n < MAX_STEPS && #[trigger] clear_before(
                        map,
                        origin,
                        bearing,
                        n,
                    ) implies map.contains(cursor(origin, bearing, n)) by {
                    if n > steps {
                        assert(!map.wall_at(cursor(origin, bearing, steps as int)));
                    }
                }
            }
            return true;
        }
        proof {
            let s = steps as int;
            let x = dx as int;
            let y = dy as int;
            assert((s + 1) * x == s * x + x && -15_000_000 <= (s + 1) * x <= 15_000_000)
                by (nonlinear_arith)
                requires
                    0 <= s < 150,
                    -100_000 <= x <= 100_000,
            ;
            assert((s + 1) * y == s * y + y && -15_000_000 <= (s + 1) * y <= 15_000_000)
                by (nonlinear_arith)
                requires
                    0 <= s < 150,
                    -100_000 <= y <= 100_000,
            ;
        }
        curr_location.move_x(dx);
        curr_location.move_y(dy);
        steps += 1;
    }
    true
}

/// The point at distance `t` from `origin` along one of the four axes.
pub open spec fn point_along(origin: Location, bearing: int, t: int) -> Location {
    origin.shifted(t * (cosine(bearing) / (STEP as int)), t * (sine(bearing) / (STEP as int)))
}

/// A ray that meets no wall within view has no wall distance.
pub proof fn lemma_escaped_ray(map: &GridMap, origin: Location, bearing: int)
    requires
        clear_before(map, origin, bearing, MAX_STEPS as int),
    ensures
        wall_distance(map, origin, bearing) is None,
{
    assert forall|n: int| !first_hit(map, origin, bearing, n) by {
        if 0 <= n < MAX_STEPS {
            assert(!map.wall_at(cursor(origin, bearing, n)));
        }
    }
}

/// Along an axis, a wall whose face is `k` whole cells away is found within
/// one step of `k` cells: where every point of the ray nearer than `k` cells
/// is free, and every point from there to one step farther, the face itself
/// left aside, is wall, the wall distance lies between `k` cells and one step
/// more.
pub proof fn lemma_cardinal_hit(map: &GridMap, origin: Location, bearing: int, k: int)
    requires
        bearing == 0 || bearing == 90 || bearing == 180 || bearing == 270,
        0 <= k,
        k * CELL + STEP < MAX_VIEW_DISTANCE,
        forall|t: int| 0 <= t < k * CELL ==> !map.wall_at(#[trigger] point_along(origin, bearing, t)),
        forall|t: int|
            k * CELL < t <= k * CELL + STEP ==> map.wall_at(
                #[trigger] point_along(origin, bearing, t),
            ),
    ensures
        wall_distance(map, origin, bearing) is Some,
        k * CELL <= wall_distance(map, origin, bearing).unwrap() <= k * CELL + STEP,
{
    lemma_cardinal_steps();
    let ux = cosine(bearing) / (STEP as int);
    let uy = sine(bearing) / (STEP as int);
    assert(cosine(bearing) == STEP * ux && sine(bearing) == STEP * uy);
    assert forall|n: int| cursor(origin, bearing, n) == point_along(origin, bearing, n * STEP) by {
        assert(n * (STEP * ux) == (n * STEP) * ux) by (nonlinear_arith);
        assert(n * (STEP * uy) == (n * STEP) * uy) by (nonlinear_arith);
    }
    let near = 10 * k;
    assert(clear_before(map, origin, bearing, near)) by {
        assert forall|n: int| 0 <= n < near implies !map.wall_at(
            #[trigger] cursor(origin, bearing, n),
        ) by {
            assert(cursor(origin, bearing, n) == point_along(origin, bearing, n * STEP));
        }
    }
    assert(cursor(origin, bearing, near + 1) == point_along(origin, bearing, (near + 1) * STEP));
    assert(map.wall_at(cursor(origin, bearing, near + 1)));
    let hit = if map.wall_at(cursor(origin, bearing, near)) {
        near
    } else {
        near + 1
    };
    assert(first_hit(map, origin, bearing, hit));
    let found = choose|n: int| first_hit(map, origin, bearing, n);
    if found < near {
        assert(!map.wall_at(cursor(origin, bearing, found)));
    }
    if found > near + 1 {
        assert(!map.wall_at(cursor(origin, bearing, near + 1)));
    }
}

} // verus!
