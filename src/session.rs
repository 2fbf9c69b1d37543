//! The decisions of the loop that runs a game: when to tick, when to start
//! over and how long to wait between ticks.
use vstd::prelude::*;
use std::collections::VecDeque;

use crate::engine::{next_model, respawn_choice_count, update_game_context};
use crate::grid::Direction;
use crate::state::{fresh_game, initial_food_cells, GameContext, GameState};

verus! {

/// The game after one frame: a running game takes a tick with the inputs
/// queued during the frame, an ended one stays as it is.
pub fn tick(game_context: GameContext, event_queue: VecDeque<Direction>) -> (r: GameContext)
    requires
        game_context@.wf(),
    ensures
        game_context.state == GameState::GameOver ==> r@ == game_context@,
        game_context.state == GameState::Running ==> exists|k: nat|
            (k < respawn_choice_count(game_context@) || k == 0) && r@ == #[trigger] next_model(
                game_context@,
                event_queue@,
                k,
            ),
{
    match game_context.state {
        GameState::Running => update_game_context(game_context, event_queue),
        GameState::GameOver => game_context,
    }
}

/// The game after the player asks to go on: an ended game is replaced by a
/// fresh one, a running one stays as it is.
pub fn accept(game_context: GameContext) -> (r: GameContext)
    ensures
        game_context.state == GameState::Running ==> r@ == game_context@,
        game_context.state == GameState::GameOver ==> exists|k: nat|
            k < initial_food_cells().len() && r@ == #[trigger] fresh_game(k),
{
    match game_context.state {
        GameState::Running => game_context,
        GameState::GameOver => GameContext::new(),
    }
}

/// Nanoseconds to wait between two ticks at `speed` ticks per second.
pub fn frame_delay_nanos(speed: u32) -> (r: u32)
    requires
        speed > 0,
    ensures
        r == 1_000_000_000int / (speed as int),
{
    1_000_000_000u32 / speed
}

} // verus!
