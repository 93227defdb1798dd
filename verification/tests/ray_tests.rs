use doom_style_fps::game::GameState;
use doom_style_fps::location::Location;
use doom_style_fps::map::GridMap;
use doom_style_fps::map_builder::{load_map_1, load_map_from_string};
use doom_style_fps::ray::{can_march, distance_to_wall};
use doom_style_fps::scene::{
    can_draw_scene, chunk_rectangle, draw_fov_chunk, draw_frame, draw_scene, FovChunk, Rectangle,
};

/// A room of the given size with a wall all around and the start marker in
/// the given row and column.
fn room(width: usize, height: usize, row: usize, column: usize) -> GridMap {
    let mut text = String::new();
    for r in 0..height {
        for c in 0..width {
            if r == row && c == column {
                text.push('P');
            } else if r == 0 || c == 0 || r == height - 1 || c == width - 1 {
                text.push('#');
            } else {
                text.push(' ');
            }
        }
        if r + 1 < height {
            text.push('\n');
        }
    }
    load_map_from_string(&text).expect("a room is a map")
}

fn march(map: &GridMap, from: &Location, bearing: i64) -> Option<i64> {
    assert!(can_march(map, from, bearing));
    distance_to_wall(map, from, bearing)
}

#[test]
fn start_and_corridors_of_a_walled_room() {
    let map = room(24, 12, 4, 3);
    let start = map.player_start();
    assert_eq!(start, Location::new(3_000_000, 4_000_000));
    // the far wall, at column 23, is twenty cells away: out of view
    assert_eq!(march(&map, &start, 0), None);
    // the wall below begins at row 11, seven cells away
    assert_eq!(march(&map, &start, 90), Some(7_000_000));
    // the wall at column 0 ends three cells back, two cells away
    assert_eq!(march(&map, &start, 180), Some(2_100_000));
    // the wall at row 0 ends three cells away
    assert_eq!(march(&map, &start, 270), Some(3_100_000));
}

#[test]
fn corridor_to_the_far_wall_within_view() {
    let map = room(24, 12, 4, 13);
    let start = map.player_start();
    assert_eq!(start, Location::new(13_000_000, 4_000_000));
    let d = march(&map, &start, 0).expect("the wall at column 23 is in view");
    assert!((d - 10_000_000).abs() <= 100_000);
    assert_eq!(d, 10_000_000);
    assert_eq!(march(&map, &start, 360), Some(10_000_000));
    assert_eq!(march(&map, &start, -360), Some(10_000_000));
}

#[test]
fn wall_just_within_and_just_out_of_view() {
    // fourteen and nine tenths cells to the wall: the last step looked at
    let map = room(40, 5, 2, 1);
    let from = Location::new(24_100_000, 2_000_000);
    assert_eq!(march(&map, &from, 0), Some(14_900_000));
    let from = Location::new(24_000_000, 2_000_000);
    assert_eq!(march(&map, &from, 0), None);
}

#[test]
fn ray_that_meets_no_wall_gives_none() {
    let map = room(40, 40, 20, 20);
    let start = map.player_start();
    for bearing in [0, 17, 45, 90, 133, 180, 225, 270, 301, 359, -45, 720] {
        assert_eq!(march(&map, &start, bearing), None, "bearing {}", bearing);
    }
}

#[test]
fn march_from_inside_a_wall_is_zero() {
    let map = room(24, 12, 4, 3);
    for bearing in [0, 90, 200] {
        assert_eq!(march(&map, &Location::new(0, 0), bearing), Some(0));
        assert_eq!(march(&map, &Location::new(23_500_000, 6_200_000), bearing), Some(0));
    }
}

#[test]
fn march_along_a_diagonal() {
    let map = room(24, 12, 4, 3);
    let start = map.player_start();
    // each step moves 70711 units in both coordinates
    assert_eq!(march(&map, &start, 45), Some(9_900_000));
    assert_eq!(march(&map, &start, 315), Some(4_300_000));
    assert_eq!(march(&map, &start, -45), Some(4_300_000));
    assert_eq!(march(&map, &start, 135), Some(2_900_000));
}

#[test]
fn march_on_the_first_map() {
    let map = load_map_1().expect("the first map is a map");
    let start = map.player_start();
    assert_eq!(march(&map, &start, 0), Some(7_000_000));
    assert_eq!(march(&map, &start, 180), Some(2_100_000));
}

#[test]
fn ray_that_leaves_the_map_cannot_be_marched() {
    let map = load_map_from_string("P   \n    ").expect("a map");
    let start = map.player_start();
    assert!(!can_march(&map, &start, 0));
    assert!(!can_march(&map, &start, 90));
    let map = room(24, 12, 4, 3);
    assert!(!can_march(&map, &Location::new(i64::MAX - 1_000, 0), 0));
    assert!(!can_march(&map, &Location::new(30_000_000, 0), 0));
    assert!(can_march(&map, &Location::new(3_000_000, 4_000_000), 0));
}

#[test]
fn scene_of_a_small_room_has_a_chunk_for_each_degree() {
    let state = GameState::new(room(5, 5, 2, 2));
    assert!(can_draw_scene(&state));
    let chunks = draw_scene(&state, 2500);
    assert_eq!(chunks.len(), 91);
    for (i, chunk) in chunks.iter().enumerate() {
        assert_eq!(chunk.width, 27);
        assert_eq!(chunk.start_x, 27 * i as u32);
        assert_eq!(
            Some(chunk.distance),
            distance_to_wall(&state.map, &state.player.location, i as i64 - 45)
        );
    }
    // straight ahead the wall at column 4 is two cells away
    assert_eq!(chunks[45], FovChunk { start_x: 1215, width: 27, distance: 2_000_000 });
    let total: u32 = chunks.iter().map(|c| c.width).sum();
    assert_eq!(total, 2457);
    assert!(total <= 2500);
}

#[test]
fn scene_leaves_out_rays_that_meet_no_wall() {
    let state = GameState::new(room(24, 12, 4, 3));
    assert!(can_draw_scene(&state));
    let chunks = draw_scene(&state, 2500);
    let mut expected: Vec<FovChunk> = Vec::new();
    for i in 0..91u32 {
        let angle = i as i64 - 45;
        if let Some(distance) = distance_to_wall(&state.map, &state.player.location, angle) {
            expected.push(FovChunk { start_x: 27 * i, width: 27, distance });
        }
    }
    assert_eq!(chunks, expected);
    assert!(chunks.len() < 91);
    assert_eq!(chunks[0], FovChunk { start_x: 0, width: 27, distance: 4_300_000 });
    assert_eq!(
        chunks[chunks.len() - 1],
        FovChunk { start_x: 2430, width: 27, distance: 9_900_000 }
    );
    assert!(!chunks.iter().any(|c| c.start_x == 27 * 45));
    let total: u32 = chunks.iter().map(|c| c.width).sum();
    assert!(total <= 2500);
}

#[test]
fn scene_in_the_open_is_empty() {
    let state = GameState::new(room(40, 40, 20, 20));
    assert!(can_draw_scene(&state));
    assert_eq!(draw_scene(&state, 2500), Vec::<FovChunk>::new());
}

#[test]
fn scene_of_an_odd_field_of_view() {
    let mut state = GameState::new(room(5, 5, 2, 2));
    state.player.fov = 5;
    state.player.direction = 90;
    assert!(can_draw_scene(&state));
    let chunks = draw_scene(&state, 103);
    assert_eq!(chunks.len(), 5);
    // only the ray straight down reaches the wall in twenty steps
    let distances = [2_100_000, 2_100_000, 2_000_000, 2_100_000, 2_100_000];
    for (i, chunk) in chunks.iter().enumerate() {
        assert_eq!(chunk.width, 20);
        assert_eq!(chunk.start_x, 20 * i as u32);
        assert_eq!(chunk.distance, distances[i]);
    }
    state.player.fov = 1;
    let chunks = draw_scene(&state, 103);
    assert_eq!(chunks, vec![FovChunk { start_x: 0, width: 103, distance: 2_000_000 }]);
}

#[test]
fn even_field_of_view_can_overrun_a_narrow_screen() {
    let state = GameState::new(room(5, 5, 2, 2));
    assert!(can_draw_scene(&state));
    let chunks = draw_scene(&state, 90);
    assert_eq!(chunks.len(), 91);
    let total: u32 = chunks.iter().map(|c| c.width).sum();
    assert_eq!(total, 91);
}

#[test]
fn scene_cannot_be_drawn_without_a_field_of_view() {
    let mut state = GameState::new(room(5, 5, 2, 2));
    state.player.fov = 0;
    assert!(!can_draw_scene(&state));
    state.player.fov = 90;
    state.player.location = Location::new(-5_000_000, 0);
    assert!(!can_draw_scene(&state));
}

#[test]
fn rectangle_of_a_chunk() {
    let r = draw_fov_chunk(1215, 1242, 2_000_000, 1500);
    assert_eq!(r.x, 1215);
    assert_eq!(r.w, 27);
    assert_eq!(r.h, 3000);
    assert_eq!(r.y, 750 - 1500);
    assert_eq!(r.shade, 221);

    let r = draw_fov_chunk(0, 27, 1_000_000, 1500);
    assert_eq!(r.h, 6000);
    assert_eq!(r.y, -2250);
    assert_eq!(r.shade, 238);

    let r = draw_fov_chunk(0, 27, 14_900_000, 1501);
    assert_eq!(r.h, 402);
    assert_eq!(r.y, 750 - 201);
    assert_eq!(r.shade, 2);
}

#[test]
fn rectangle_at_distance_zero_is_as_tall_as_can_be() {
    let r = draw_fov_chunk(5, 5, 0, 1500);
    assert_eq!(r.w, 0);
    assert_eq!(r.h, i64::MAX);
    assert_eq!(r.y, 750 - i64::MAX / 2);
    assert_eq!(r.shade, 255);
}

#[test]
fn shade_falls_with_distance() {
    assert_eq!(draw_fov_chunk(0, 1, 0, 100).shade, 255);
    assert_eq!(draw_fov_chunk(0, 1, 15_000_000, 100).shade, 0);
    assert_eq!(draw_fov_chunk(0, 1, 20_000_000, 100).shade, 0);
    assert_eq!(draw_fov_chunk(0, 1, 7_500_000, 100).shade, 128);
    assert_eq!(draw_fov_chunk(0, 1, 100_000, 100).shade, 254);
    let mut last: u8 = 255;
    for n in 0..=150i64 {
        let shade = draw_fov_chunk(0, 1, n * 100_000, 100).shade;
        assert!(shade <= last);
        last = shade;
    }
    assert_eq!(last, 0);
}

#[test]
fn frame_has_a_rectangle_for_each_chunk() {
    let state = GameState::new(room(24, 12, 4, 3));
    assert!(can_draw_scene(&state));
    let chunks = draw_scene(&state, 2500);
    let frame = draw_frame(&state, 2500, 1500);
    assert_eq!(frame.len(), chunks.len());
    for (chunk, rectangle) in chunks.iter().zip(frame.iter()) {
        assert_eq!(*rectangle, chunk_rectangle(chunk, 1500));
        assert_eq!(
            *rectangle,
            draw_fov_chunk(chunk.start_x, chunk.start_x + chunk.width, chunk.distance, 1500)
        );
    }
    // the leftmost ray meets the upper wall after forty-three steps
    assert_eq!(frame[0], Rectangle { x: 0, y: 750 - 697, w: 27, h: 1395, shade: 182 });
}

#[test]
fn frame_in_the_open_is_empty() {
    let state = GameState::new(room(40, 40, 20, 20));
    assert!(can_draw_scene(&state));
    assert_eq!(draw_frame(&state, 2500, 1500), Vec::<Rectangle>::new());
}
