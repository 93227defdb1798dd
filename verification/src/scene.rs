//! The scene: one chunk of the screen for each degree of the field of view
//! in which a wall is seen.

use vstd::prelude::*;
use vstd::arithmetic::div_mod::*;
use crate::game::GameState;
use crate::ray::{can_march, distance_to_wall, ray_on_map, wall_distance};
use crate::units::{CELL, MAX_SHADE, MAX_VIEW_DISTANCE, WALL_HEIGHT_AT_ONE_CELL};

verus! {

/// A vertical slice of the screen in which a wall is seen, and how far the
/// wall is.
#[derive(Debug, Clone, Copy, PartialEq, Eq, Structural)]
pub struct FovChunk {
    pub start_x: u32,
    pub width: u32,
    pub distance: i64,
}

/// A filled rectangle on the screen. `y` is its upper edge, and lies above
/// the screen where the rectangle is taller than the screen.
#[derive(Debug, Clone, Copy, PartialEq, Eq, Structural)]
pub struct Rectangle {
    pub x: u32,
    pub y: i64,
    pub w: u32,
    pub h: i64,
    pub shade: u8,
}

/// Number of bearings sampled for a field of view: one for each whole degree
/// from half the field to the left to half the field to the right.
pub open spec fn chunk_count(fov: int) -> int {
    2 * (fov / 2) + 1
}

/// The bearing of the sample with the given index.
pub open spec fn view_angle(state: &GameState, index: int) -> int {
    state.player.direction - state.player.fov / 2 + index
}

/// The width of every chunk.
pub open spec fn chunk_width(state: &GameState, screen_width: u32) -> int {
    screen_width as int / state.player.fov as int
}

/// The chunk of the sample with the given index, if a wall is seen there.
pub open spec fn chunk_at(state: &GameState, screen_width: u32, index: int) -> Option<FovChunk> {
    match wall_distance(&state.map, state.player.location, view_angle(state, index)) {
        Some(distance) => Some(
            FovChunk {
                start_x: (chunk_width(state, screen_width) * index) as u32,
                width: chunk_width(state, screen_width) as u32,
                distance,
            },
        ),
        None => None,
    }
}

/// The chunks of the first `count` samples, from left to right.
pub open spec fn chunks_upto(state: &GameState, screen_width: u32, count: nat) -> Seq<FovChunk>
    decreases count,
{
    if count == 0 {
        Seq::empty()
    } else {
        let before = chunks_upto(state, screen_width, (count - 1) as nat);
        match chunk_at(state, screen_width, count - 1) {
            Some(chunk) => before.push(chunk),
            None => before,
        }
    }
}

/// The chunks of all samples, from left to right.
pub open spec fn scene(state: &GameState, screen_width: u32) -> Seq<FovChunk> {
    chunks_upto(state, screen_width, chunk_count(state.player.fov as int) as nat)
}

/// Every sampled ray stays on the map for as long as it has met no wall.
pub open spec fn view_on_map(state: &GameState) -> bool {
    forall|index: int|
        0 <= index < chunk_count(state.player.fov as int) ==> ray_on_map(
            &state.map,
            state.player.location,
            #[trigger] view_angle(state, index),
        )
}

/// The widths of the chunks, added up.
pub open spec fn total_width(chunks: Seq<FovChunk>) -> int
    decreases chunks.len(),
{
    if chunks.len() == 0 {
        0
    } else {
        total_width(chunks.drop_last()) + chunks.last().width
    }
}

/// The height at which a wall at the given distance appears: inversely
/// proportional to the distance, and the largest height there is at
/// distance zero.
pub open spec fn wall_height(distance: int) -> int {
    if distance <= 0 {
        i64::MAX as int
    } else {
        (WALL_HEIGHT_AT_ONE_CELL * CELL) / distance
    }
}

/// The shade of a wall at the given distance: brightest at distance zero,
/// darker in proportion to the distance, black where the view ends.
pub open spec fn shade(distance: int) -> int {
    if distance <= 0 {
        MAX_SHADE as int
    } else if distance >= MAX_VIEW_DISTANCE {
        0
    } else {
        MAX_SHADE - (MAX_SHADE * distance) / (MAX_VIEW_DISTANCE as int)
    }
}

/// The rectangle that shows a chunk on a screen of the given height: as wide
/// as the chunk, as tall as `wall_height` says, centred on the middle of the
/// screen, and shaded as `shade` says.
pub open spec fn rectangle_of(chunk: FovChunk, screen_height: u32) -> Rectangle {
    Rectangle {
        x: chunk.start_x,
        y: (screen_height / 2 - wall_height(chunk.distance as int) / 2) as i64,
        w: chunk.width,
        h: wall_height(chunk.distance as int) as i64,
        shade: shade(chunk.distance as int) as u8,
    }
}

/// Marches one ray for each sampled bearing of the player's field of view
/// and lays out a chunk for each ray that meets a wall.
pub fn draw_scene(state: &GameState, screen_width: u32) -> (chunks: Vec<FovChunk>)
    requires
        state.player.fov > 0,
        state.player.location.has_room(MAX_VIEW_DISTANCE as int),
        view_on_map(state),
    ensures
        chunks@ == scene(state, screen_width),
        chunks.len() <= chunk_count(state.player.fov as int),
        forall|i: int|
            0 <= i < chunks.len() ==> 0 <= (#[trigger] chunks[i]).distance < MAX_VIEW_DISTANCE,
{
    let half_fov: u32 = state.player.fov / 2;
    let fov_screen_width: u32 = screen_width / state.player.fov;
    let count: u64 = 2 * (half_fov as u64) + 1;
    let first_angle: i64 = state.player.direction as i64 - half_fov as i64;
    let mut chunks: Vec<FovChunk> = Vec::new();
    let mut index: u64 = 0;
    proof {
        lemma_fundamental_div_mod(screen_width as int, state.player.fov as int);
    }
    while index < count
        invariant
            index <= count,
            count == chunk_count(state.player.fov as int),
            count <= state.player.fov + 1,
            half_fov == state.player.fov / 2,
            first_angle == state.player.direction - half_fov,
            fov_screen_width == chunk_width(state, screen_width),
            state.player.fov * fov_screen_width <= screen_width,
            state.player.location.has_room(MAX_VIEW_DISTANCE as int),
            view_on_map(state),
            chunks@ == chunks_upto(state, screen_width, index as nat),
            chunks.len() <= index,
            forall|i: int|
                0 <= i < chunks.len() ==> 0 <= (#[trigger] chunks[i]).distance
                    < MAX_VIEW_DISTANCE,
        decreases count - index,
    {
        let angle: i64 = first_angle + index as i64;
        assert(angle == view_angle(state, index as int));
        let dist_to_wall = distance_to_wall(&state.map, &state.player.location, angle);
        if let Some(distance) = dist_to_wall {
            assert(index * fov_screen_width <= screen_width) by (nonlinear_arith)
                requires
                    index <= state.player.fov,
                    0 <= fov_screen_width,
                    state.player.fov * fov_screen_width <= screen_width,
            ;
            let start_x: u64 = fov_screen_width as u64 * index;
            assert(start_x == chunk_width(state, screen_width) * index) by (nonlinear_arith)
                requires
                    start_x == fov_screen_width * index,
                    fov_screen_width == chunk_width(state, screen_width),
            ;
            chunks.push(FovChunk { start_x: start_x as u32, width: fov_screen_width, distance });
        }
        index += 1;
    }
    chunks
}

/// Whether the scene can be drawn: the field of view is not empty, the
/// player's location leaves room for the longest ray, and every sampled ray
/// stays on the map for as long as it has met no wall.
pub fn can_draw_scene(state: &GameState) -> (r: bool)
    ensures
        r == (state.player.fov > 0 && state.player.location.has_room(MAX_VIEW_DISTANCE as int)
            && view_on_map(state)),
{
    if state.player.fov == 0 || !state.player.location.room_for(MAX_VIEW_DISTANCE) {
        return false;
    }
    let half_fov: u32 = state.player.fov / 2;
    let count: u64 = 2 * (half_fov as u64) + 1;
    let first_angle: i64 = state.player.direction as i64 - half_fov as i64;
    let mut index: u64 = 0;
    while index < count
        invariant
            index <= count,
            count == chunk_count(state.player.fov as int),
            first_angle == state.player.direction - state.player.fov / 2,
            forall|i: int|
                0 <= i < index ==> ray_on_map(
                    &state.map,
                    state.player.location,
                    #[trigger] view_angle(state, i),
                ),
        decreases count - index,
    {
        let angle: i64 = first_angle + index as i64;
        assert(angle == view_angle(state, index as int));
        if !can_march(&state.map, &state.player.location, angle) {
            return false;
        }
        index += 1;
    }
    true
}

/// Lays out the rectangle that shows a chunk on a screen of the given
/// height.
pub fn chunk_rectangle(chunk: &FovChunk, screen_height: u32) -> (r: Rectangle)
    requires
        0 <= chunk.distance,
    ensures
        r == rectangle_of(*chunk, screen_height),
        r.h == wall_height(chunk.distance as int),
        r.y == screen_height / 2 - wall_height(chunk.distance as int) / 2,
        r.shade == shade(chunk.distance as int),
{
    let dist_to_wall: i64 = chunk.distance;
    let h: i64 = if dist_to_wall == 0 {
        i64::MAX
    } else {
        (WALL_HEIGHT_AT_ONE_CELL * CELL) / dist_to_wall
    };
    let y: i64 = (screen_height / 2) as i64 - h / 2;
    let rgb: u8 = if dist_to_wall >= MAX_VIEW_DISTANCE {
        0
    } else {
        let dimmed: i64 = (255 * dist_to_wall) / MAX_VIEW_DISTANCE;
        assert(0 <= dimmed < 255) by (nonlinear_arith)
            requires
                dimmed == (255 * dist_to_wall) / 15_000_000,
                0 <= dist_to_wall < 15_000_000,
        ;
        MAX_SHADE - dimmed as u8
    };
    Rectangle { x: chunk.start_x, y, w: chunk.width, h, shade: rgb }
}

/// Lays out the rectangle of a chunk that spans `start_x` to `end_x` and
/// shows a wall at the given distance.
pub fn draw_fov_chunk(start_x: u32, end_x: u32, dist_to_wall: i64, screen_height: u32) -> (r:
    Rectangle)
    requires
        start_x <= end_x,
        0 <= dist_to_wall,
    ensures
        r == rectangle_of(
            (FovChunk { start_x, width: (end_x - start_x) as u32, distance: dist_to_wall }),
            screen_height,
        ),
        r.x == start_x,
        r.w == end_x - start_x,
        r.h == wall_height(dist_to_wall as int),
        r.y == screen_height / 2 - wall_height(dist_to_wall as int) / 2,
        r.shade == shade(dist_to_wall as int),
{
    let chunk = FovChunk { start_x, width: end_x - start_x, distance: dist_to_wall };
    chunk_rectangle(&chunk, screen_height)
}

/// Lays out the whole frame: the rectangle of each chunk of the scene, from
/// left to right.
pub fn draw_frame(state: &GameState, screen_width: u32, screen_height: u32) -> (frame: Vec<
    Rectangle,
>)
    requires
        state.player.fov > 0,
        state.player.location.has_room(MAX_VIEW_DISTANCE as int),
        view_on_map(state),
    ensures
        frame.len() == scene(state, screen_width).len(),
        forall|i: int|
            0 <= i < frame.len() ==> #[trigger] frame[i] == rectangle_of(
                scene(state, screen_width)[i],
                screen_height,
            ),
{
    let chunks: Vec<FovChunk> = draw_scene(state, screen_width);
    let mut frame: Vec<Rectangle> = Vec::new();
    let mut index: usize = 0;
    while index < chunks.len()
        invariant
            index <= chunks.len(),
            frame.len() == index,
            forall|i: int|
                0 <= i < chunks.len() ==> 0 <= (#[trigger] chunks[i]).distance,
            forall|i: int|
                0 <= i < index ==> #[trigger] frame[i] == rectangle_of(chunks[i], screen_height),
        decreases chunks.len() - index,
    {
        let rectangle: Rectangle = chunk_rectangle(&chunks[index], screen_height);
        frame.push(rectangle);
        index += 1;
    }
    frame
}

/// The first `count` samples give at most `count` chunks, each as wide as
/// every other.
pub proof fn lemma_chunks_upto(state: &GameState, screen_width: u32, count: nat)
    requires
        state.player.fov > 0,
    ensures
        chunks_upto(state, screen_width, count).len() <= count,
        total_width(chunks_upto(state, screen_width, count)) == chunks_upto(
            state,
            screen_width,
            count,
        ).len() * chunk_width(state, screen_width),
    decreases count,
{
    let q = chunk_width(state, screen_width);
    let fov = state.player.fov as int;
    let rest = screen_width as int % fov;
    lemma_fundamental_div_mod(screen_width as int, fov);
    assert(0 <= q <= screen_width) by (nonlinear_arith)
        requires
            screen_width == fov * q + rest,
            0 <= rest < fov,
            0 <= screen_width,
    ;
    if count > 0 {
        let before = chunks_upto(state, screen_width, (count - 1) as nat);
        lemma_chunks_upto(state, screen_width, (count - 1) as nat);
        match chunk_at(state, screen_width, count - 1) {
            Some(chunk) => {
                assert(before.push(chunk).drop_last() =~= before);
                assert((before.len() + 1) * q == before.len() * q + q) by (nonlinear_arith);
            },
            None => {},
        }
    } else {
        assert(0 * q == 0);
    }
}

/// A scene has at most one chunk for each sampled bearing, and its chunks
/// are all of one width. Together they are no wider than the screen, unless
/// the field of view is an even number of degrees, a wall is seen at every
/// sampled bearing, and the width of one chunk exceeds what the division of
/// the screen into chunks leaves over.
pub proof fn lemma_scene_fits(state: &GameState, screen_width: u32)
    requires
        state.player.fov > 0,
    ensures
        scene(state, screen_width).len() <= chunk_count(state.player.fov as int),
        total_width(scene(state, screen_width)) == scene(state, screen_width).len() * chunk_width(
            state,
            screen_width,
        ),
        scene(state, screen_width).len() <= state.player.fov || chunk_width(state, screen_width)
            <= screen_width % state.player.fov ==> total_width(scene(state, screen_width))
            <= screen_width,
{
    let fov = state.player.fov as int;
    let q = chunk_width(state, screen_width);
    let len = scene(state, screen_width).len() as int;
    let rest = screen_width as int % fov;
    lemma_chunks_upto(state, screen_width, chunk_count(fov) as nat);
    lemma_fundamental_div_mod(screen_width as int, fov);
    lemma_fundamental_div_mod(fov, 2);
    assert(0 <= q) by (nonlinear_arith)
        requires
            screen_width == fov * q + rest,
            0 <= rest < fov,
            0 <= screen_width,
    ;
    if len <= fov {
        assert(len * q <= screen_width) by (nonlinear_arith)
            requires
                len <= fov,
                0 <= q,
                screen_width == fov * q + rest,
                0 <= rest,
        ;
    } else if q <= rest {
        assert(len * q <= screen_width) by (nonlinear_arith)
            requires
                len <= fov + 1,
                0 <= q <= rest,
                screen_width == fov * q + rest,
        ;
    }
}

/// A wall is shown no brighter for being farther.
pub proof fn lemma_shade_monotone(near: int, far: int)
    requires
        0 <= near <= far,
    ensures
        shade(far) <= shade(near),
        0 <= shade(far) <= MAX_SHADE,
{
    lemma_div_is_ordered(MAX_SHADE * near, MAX_SHADE * far, MAX_VIEW_DISTANCE as int);
    if 0 < far < MAX_VIEW_DISTANCE {
        assert(0 <= (255 * far) / 15_000_000 < 255) by (nonlinear_arith)
            requires
                0 < far < 15_000_000,
        ;
    }
    if 0 < near < MAX_VIEW_DISTANCE {
        assert(0 <= (255 * near) / 15_000_000 < 255) by (nonlinear_arith)
            requires
                0 < near < 15_000_000,
        ;
    }
}

/// A wall at distance zero is shown brightest, and one where the view ends
/// black.
pub proof fn lemma_shade_ends()
    ensures
        shade(0) == MAX_SHADE,
        shade(MAX_VIEW_DISTANCE as int) == 0,
{
}

} // verus!
