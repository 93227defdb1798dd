//! The world: one map and one player, changed once for each round of input.

use vstd::prelude::*;
use crate::map::GridMap;
use crate::player::{Direction, Player};
use crate::trig::lemma_sine_bounds;
use crate::units::{DEFAULT_FOV, LOOK_STEP, STEP};

verus! {

/// The map and the player on it.
#[derive(Debug)]
pub struct GameState {
    pub map: GridMap,
    pub player: Player,
}

/// What the user asks for in one round: a flag for each key that is down.
#[derive(Debug, Clone, Copy, PartialEq, Eq, Structural)]
pub struct UserInput {
    pub look_right: bool,
    pub look_left: bool,
    pub forward: bool,
    pub left: bool,
    pub back: bool,
    pub right: bool,
}

/// The player after one round of input: the looks first, to the right and
/// then to the left, then one step for each way asked for, forward, left,
/// back and right in that order.
pub open spec fn after_input(player: Player, input: UserInput) -> Player {
    let looked_right = if input.look_right {
        player.turned_by(LOOK_STEP as int)
    } else {
        player
    };
    let looked = if input.look_left {
        looked_right.turned_by(-LOOK_STEP)
    } else {
        looked_right
    };
    let after_forward = if input.forward {
        looked.moved(Direction::Forward)
    } else {
        looked
    };
    let after_left = if input.left {
        after_forward.moved(Direction::Left)
    } else {
        after_forward
    };
    let after_back = if input.back {
        after_left.moved(Direction::Back)
    } else {
        after_left
    };
    if input.right {
        after_back.moved(Direction::Right)
    } else {
        after_back
    }
}

impl GameState {
    /// The world at its beginning: the player stands at the map's start and
    /// faces along the x axis.
    pub fn new(map: GridMap) -> (state: Self)
        ensures
            state.map == map,
            state.player.location == map.start(),
            state.player.direction == 0,
            state.player.fov == DEFAULT_FOV,
    {
        let player = Player::new(map.player_start());
        GameState { map, player }
    }
}

/// Applies one round of input to the player. The map stays as it is.
pub fn capture_user_input(state: &mut GameState, input: &UserInput)
    requires
        old(state).player.location.has_room(4 * STEP),
        i32::MIN + 360 <= old(state).player.direction <= i32::MAX - 360,
    ensures
        final(state).player == after_input(old(state).player, *input),
        final(state).map == old(state).map,
{
    if input.look_right {
        state.player.look_right();
    }
    if input.look_left {
        state.player.look_left();
    }
    if input.forward {
        proof {
            lemma_sine_bounds(state.player.direction as int);
        }
        state.player.move_direction(&Direction::Forward);
    }
    if input.left {
        proof {
            lemma_sine_bounds(state.player.direction + 270);
        }
        state.player.move_direction(&Direction::Left);
    }
    if input.back {
        proof {
            lemma_sine_bounds(state.player.direction + 180);
        }
        state.player.move_direction(&Direction::Back);
    }
    if input.right {
        proof {
            lemma_sine_bounds(state.player.direction + 90);
        }
        state.player.move_direction(&Direction::Right);
    }
}

} // verus!
