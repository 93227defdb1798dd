use doom_style_fps::game::{capture_user_input, GameState, UserInput};
use doom_style_fps::location::Location;
use doom_style_fps::map_builder::load_map_from_string;
use doom_style_fps::player::{Direction, Player};
use doom_style_fps::trig::{cosine_units, sine_units, wrap_degrees};

fn player_at(x: i64, y: i64, direction: i32) -> Player {
    let mut player = Player::new(Location::new(x, y));
    player.direction = direction;
    player
}

#[test]
fn new_player_faces_along_x() {
    let player = Player::new(Location::new(3_000_000, 4_000_000));
    assert_eq!(player.location, Location::new(3_000_000, 4_000_000));
    assert_eq!(player.direction, 0);
    assert_eq!(player.fov, 90);
}

#[test]
fn sines_of_whole_degrees() {
    assert_eq!(sine_units(0), 0);
    assert_eq!(sine_units(1), 1_745);
    assert_eq!(sine_units(30), 50_000);
    assert_eq!(sine_units(45), 70_711);
    assert_eq!(sine_units(90), 100_000);
    assert_eq!(sine_units(150), 50_000);
    assert_eq!(sine_units(180), 0);
    assert_eq!(sine_units(210), -50_000);
    assert_eq!(sine_units(270), -100_000);
    assert_eq!(sine_units(330), -50_000);
    assert_eq!(sine_units(390), 50_000);
    assert_eq!(sine_units(-90), -100_000);
    assert_eq!(sine_units(-30), -50_000);
}

#[test]
fn cosines_of_whole_degrees() {
    assert_eq!(cosine_units(0), 100_000);
    assert_eq!(cosine_units(60), 50_000);
    assert_eq!(cosine_units(90), 0);
    assert_eq!(cosine_units(180), -100_000);
    assert_eq!(cosine_units(270), 0);
    assert_eq!(cosine_units(315), 70_711);
    assert_eq!(cosine_units(-45), 70_711);
    assert_eq!(cosine_units(360), 100_000);
    assert_eq!(cosine_units(i64::MAX), cosine_units(i64::MAX % 360));
}

#[test]
fn bearings_wrap_into_a_full_turn() {
    assert_eq!(wrap_degrees(0), 0);
    assert_eq!(wrap_degrees(359), 359);
    assert_eq!(wrap_degrees(360), 0);
    assert_eq!(wrap_degrees(725), 5);
    assert_eq!(wrap_degrees(-1), 359);
    assert_eq!(wrap_degrees(-360), 0);
    assert_eq!(wrap_degrees(-361), 359);
    assert_eq!(wrap_degrees(i64::MIN), 352);
    assert_eq!(wrap_degrees(i64::MAX), 7);
}

#[test]
fn pythagoras_holds_to_rounding() {
    for d in 0..360i64 {
        let s = sine_units(d);
        let c = cosine_units(d);
        let norm = s * s + c * c;
        assert!((norm - 10_000_000_000i64).abs() < 200_000, "at {} degrees", d);
    }
}

#[test]
fn look_right_wraps_at_a_full_turn() {
    let mut player = player_at(0, 0, 356);
    player.look_right();
    assert_eq!(player.direction, 358);
    player.look_right();
    assert_eq!(player.direction, 0);
    player.look_right();
    assert_eq!(player.direction, 2);
}

#[test]
fn look_left_wraps_at_zero() {
    let mut player = player_at(0, 0, 4);
    player.look_left();
    assert_eq!(player.direction, 2);
    player.look_left();
    assert_eq!(player.direction, 360);
    player.look_left();
    assert_eq!(player.direction, 358);
}

#[test]
fn turn_wraps_once() {
    let mut player = player_at(0, 0, 350);
    player.turn(20);
    assert_eq!(player.direction, 10);
    player.turn(-20);
    assert_eq!(player.direction, 350);
    player.turn(400);
    assert_eq!(player.direction, 390);
    player.turn(0);
    assert_eq!(player.direction, 30);
    let mut player = player_at(0, 0, 0);
    player.turn(0);
    assert_eq!(player.direction, 0);
    player.turn(-400);
    assert_eq!(player.direction, -40);
    assert_eq!(player.location, Location::new(0, 0));
    assert_eq!(player.fov, 90);
}

#[test]
fn full_turn_right_comes_back() {
    for start in [0, 1, 2, 77, 180, 358, 359] {
        let mut player = player_at(0, 0, start);
        for _ in 0..180 {
            player.look_right();
            assert!(0 <= player.direction && player.direction < 360);
        }
        assert_eq!(player.direction, start);
    }
}

#[test]
fn steps_along_the_axes() {
    let mut player = player_at(5_000_000, 5_000_000, 0);
    player.move_direction(&Direction::Forward);
    assert_eq!(player.location, Location::new(5_100_000, 5_000_000));
    player.move_direction(&Direction::Right);
    assert_eq!(player.location, Location::new(5_100_000, 5_100_000));
    player.move_direction(&Direction::Back);
    assert_eq!(player.location, Location::new(5_000_000, 5_100_000));
    player.move_direction(&Direction::Left);
    assert_eq!(player.location, Location::new(5_000_000, 5_000_000));
    assert_eq!(player.direction, 0);
}

#[test]
fn steps_along_a_slanted_bearing() {
    let mut player = player_at(0, 0, 30);
    player.move_direction(&Direction::Forward);
    assert_eq!(player.location, Location::new(86_603, 50_000));
    player.move_direction(&Direction::Right);
    assert_eq!(player.location, Location::new(86_603 - 50_000, 50_000 + 86_603));
    let mut player = player_at(0, 0, 300);
    player.move_direction(&Direction::Left);
    // 300 + 270 = 570, the bearing 210
    assert_eq!(player.location, Location::new(-86_603, -50_000));
}

#[test]
fn walls_do_not_stop_the_player() {
    let map = load_map_from_string("####\n#P #\n####").expect("a map");
    let mut state = GameState::new(map);
    assert_eq!(state.player.location, Location::new(1_000_000, 1_000_000));
    state.player.turn(180);
    state.player.move_direction(&Direction::Forward);
    assert_eq!(state.player.location, Location::new(900_000, 1_000_000));
    assert!(state.map.is_wall(&state.player.location));
}

#[test]
fn input_is_applied_in_order() {
    let map = load_map_from_string("####\n#P #\n####").expect("a map");
    let mut state = GameState::new(map);
    let all = UserInput {
        look_right: true,
        look_left: true,
        forward: true,
        left: true,
        back: true,
        right: true,
    };
    capture_user_input(&mut state, &all);
    // right to 2, left to 0 which wraps up to 360, then four steps that cancel
    assert_eq!(state.player.direction, 360);
    assert_eq!(state.player.location, Location::new(1_000_000, 1_000_000));

    let none = UserInput {
        look_right: false,
        look_left: false,
        forward: false,
        left: false,
        back: false,
        right: false,
    };
    capture_user_input(&mut state, &none);
    assert_eq!(state.player.direction, 360);
    assert_eq!(state.player.location, Location::new(1_000_000, 1_000_000));

    let ahead = UserInput { look_right: true, forward: true, ..none };
    state.player.direction = 88;
    capture_user_input(&mut state, &ahead);
    assert_eq!(state.player.direction, 90);
    assert_eq!(state.player.location, Location::new(1_000_000, 1_100_000));

    let strafe = UserInput { left: true, ..none };
    capture_user_input(&mut state, &strafe);
    assert_eq!(state.player.direction, 90);
    assert_eq!(state.player.location, Location::new(1_100_000, 1_100_000));
}
