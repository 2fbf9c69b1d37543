//! What holds of every tick of a game.
use vstd::prelude::*;

use crate::cells::{in_rect, lemma_free_cells, lemma_free_cells_complete};
use crate::engine::{ends_game, grown, has_left_board, next_model, resolved_heading, speed_for};
use crate::food::respawn_cells;
use crate::grid::{on_board, opposite, step, Direction, Position, H, W};
use crate::state::{GameModel, GameState};

verus! {

/// A tick is a function of the game, the queued inputs and the food choice
/// alone: the same three always give the same next game.
pub proof fn lemma_tick_deterministic(
    a: GameModel,
    b: GameModel,
    inputs_a: Seq<Direction>,
    inputs_b: Seq<Direction>,
    choice: nat,
)
    requires
        a == b,
        inputs_a == inputs_b,
    ensures
        next_model(a, inputs_a, choice) == next_model(b, inputs_b, choice),
{
}

/// In a tick that does not end the game, the last queued input becomes the
/// heading unless it points straight back, in which case the heading stays;
/// with no input the heading stays.
pub proof fn lemma_reverse_rejected(m: GameModel, inputs: Seq<Direction>, choice: nat)
    requires
        m.wf(),
        !ends_game(m.body),
    ensures
        inputs.len() == 0 ==> next_model(m, inputs, choice).heading == m.heading,
        inputs.len() > 0 && inputs.last() == opposite(m.heading) ==> next_model(
            m,
            inputs,
            choice,
        ).heading == m.heading,
        inputs.len() > 0 && inputs.last() != opposite(m.heading) ==> next_model(
            m,
            inputs,
            choice,
        ).heading == inputs.last(),
{
}

/// A snake with a cell off the board ends the game on the next tick, and
/// does not move.
pub proof fn lemma_off_board_ends_game(m: GameModel, inputs: Seq<Direction>, choice: nat)
    requires
        has_left_board(m.body),
    ensures
        next_model(m, inputs, choice).phase == GameState::GameOver,
        next_model(m, inputs, choice).body == m.body,
{
}

/// A snake whose head steps off the board in a tick is still running after
/// that tick, with its head off the board, and the tick after it ends the
/// game.
pub proof fn lemma_leaving_board_ends_game(
    m: GameModel,
    inputs: Seq<Direction>,
    choice: nat,
    later_inputs: Seq<Direction>,
    later_choice: nat,
)
    requires
        m.wf(),
        m.phase == GameState::Running,
        !ends_game(m.body),
        !on_board(step(m.body.last(), resolved_heading(m.heading, inputs))),
    ensures
        next_model(m, inputs, choice).phase == GameState::Running,
        !on_board(next_model(m, inputs, choice).body.last()),
        next_model(next_model(m, inputs, choice), later_inputs, later_choice).phase
            == GameState::GameOver,
{
    let m1 = next_model(m, inputs, choice);
    let last = (m1.body.len() - 1) as int;
    assert(!on_board(m1.body[last]));
}

/// A snake with the same cell at two distinct indices ends the game on the
/// next tick, before it moves.
pub proof fn lemma_self_overlap_ends_game(
    m: GameModel,
    inputs: Seq<Direction>,
    choice: nat,
    i: int,
    j: int,
)
    requires
        0 <= i < m.body.len(),
        0 <= j < m.body.len(),
        i != j,
        m.body[i] == m.body[j],
    ensures
        next_model(m, inputs, choice).phase == GameState::GameOver,
        next_model(m, inputs, choice).body == m.body,
{
}

/// In a tick that does not end the game and in which the snake covers the
/// food, the snake grows by one cell; the food reappears on an interior cell
/// that the snake does not occupy at that moment, whenever there is one.
pub proof fn lemma_eating_grows(m: GameModel, inputs: Seq<Direction>, choice: nat)
    requires
        m.wf(),
        !ends_game(m.body),
        m.body.contains(m.food),
    ensures
        next_model(m, inputs, choice).body.len() == m.body.len() + 1,
        (exists|c: Position|
            in_rect(c, 1, 1, (W - 2) as nat, (H - 2) as nat) && !#[trigger] grown(
                m.body,
            ).contains(c)) ==> {
            let food = next_model(m, inputs, choice).food;
            &&& !grown(m.body).contains(food)
            &&& in_rect(food, 1, 1, (W - 2) as nat, (H - 2) as nat)
        },
{
    let body = grown(m.body);
    let cells = respawn_cells(body);
    if exists|c: Position|
        in_rect(c, 1, 1, (W - 2) as nat, (H - 2) as nat) && !#[trigger] body.contains(c) {
        let c = choose|c: Position|
            in_rect(c, 1, 1, (W - 2) as nat, (H - 2) as nat) && !#[trigger] body.contains(c);
        lemma_free_cells_complete(body, 1, 1, (W - 2) as nat, (H - 2) as nat, c);
        lemma_free_cells(body, 1, 1, (W - 2) as nat, (H - 2) as nat);
        assert(0 <= choice % cells.len() < cells.len());
    }
}

/// After a tick that does not end the game the speed is `speed_for` of the
/// snake's length, and `speed_for` never decreases as the length grows.
pub proof fn lemma_speed_follows_length(
    m: GameModel,
    inputs: Seq<Direction>,
    choice: nat,
    shorter: nat,
    longer: nat,
)
    requires
        m.wf(),
        !ends_game(m.body),
        shorter <= longer,
    ensures
        next_model(m, inputs, choice).speed == speed_for(next_model(m, inputs, choice).body.len()),
        speed_for(shorter) <= speed_for(longer),
{
    assert(shorter / 3 <= longer / 3) by (nonlinear_arith)
        requires
            shorter <= longer,
    ;
}

} // verus!
