//! The rule that moves a game on by one tick.
use vstd::prelude::*;
use std::collections::VecDeque;

use crate::cells::{lemma_body_fits_board, list_free_cells, occupies};
use crate::food::{chosen_cell, pick_cell, random_below, respawn_cells};
use crate::grid::{can_step, on_board, step, Direction, Position, H, INIT_SPEED, W, opposite};
use crate::state::{GameContext, GameModel, GameState, Snake};

verus! {

/// Whether some cell of `body` lies off the board.
pub open spec fn has_left_board(body: Seq<Position>) -> bool {
    exists|i: int| 0 <= i < body.len() && !on_board(#[trigger] body[i])
}

/// Whether the snake `body` has crashed: into a wall or into itself.
pub open spec fn ends_game(body: Seq<Position>) -> bool {
    has_left_board(body) || !body.no_duplicates()
}

/// The heading after a tick whose queued inputs are `inputs`: the last input
/// wins, unless it would turn the snake back onto itself.
pub open spec fn resolved_heading(current: Direction, inputs: Seq<Direction>) -> Direction {
    if inputs.len() == 0 {
        current
    } else if inputs.last() == opposite(current) {
        current
    } else {
        inputs.last()
    }
}

/// The cell that a new tail segment takes when the snake eats.
pub open spec fn placeholder() -> Position {
    Position { x: 0, y: 0 }
}

/// The snake with one more segment in front of its tail.
pub open spec fn grown(body: Seq<Position>) -> Seq<Position> {
    seq![placeholder()] + body
}

/// The snake after one step in heading `d`: the tail cell leaves and a new
/// head is added one cell beyond the old one.
pub open spec fn moved(body: Seq<Position>, d: Direction) -> Seq<Position> {
    body.drop_first().push(step(body.last(), d))
}

/// Ticks per second of a snake of `len` cells.
pub open spec fn speed_for(len: nat) -> int {
    INIT_SPEED + len / 3
}

/// The game after one tick with queued inputs `inputs`, where eaten food
/// reappears on respawn cell number `choice` (counted modulo their number).
pub open spec fn next_model(m: GameModel, inputs: Seq<Direction>, choice: nat) -> GameModel {
    if ends_game(m.body) {
        GameModel {
            body: m.body,
            heading: m.heading,
            food: m.food,
            speed: m.speed,
            phase: GameState::GameOver,
        }
    } else {
        let eaten = m.body.contains(m.food);
        let body = if eaten {
            grown(m.body)
        } else {
            m.body
        };
        let food = if eaten {
            chosen_cell(respawn_cells(body), choice, m.food)
        } else {
            m.food
        };
        let heading = resolved_heading(m.heading, inputs);
        let body = moved(body, heading);
        GameModel { body, heading, food, speed: speed_for(body.len()), phase: m.phase }
    }
}

/// Number of cells that eaten food may reappear on in the coming tick, or 0
/// when no food is eaten in it.
pub open spec fn respawn_choice_count(m: GameModel) -> nat {
    if !ends_game(m.body) && m.body.contains(m.food) {
        respawn_cells(grown(m.body)).len()
    } else {
        0
    }
}

/// Whether some cell of `positions` lies off the board.
pub fn off_board_anywhere(positions: &VecDeque<Position>) -> (r: bool)
    ensures
        r == has_left_board(positions@),
{
    let mut i: usize = 0;
    while i < positions.len()
        invariant
            i <= positions@.len(),
            forall|j: int| 0 <= j < i ==> on_board(#[trigger] positions@[j]),
        decreases positions@.len() - i,
    {
        let p = positions[i];
        if p.x < 0 || p.x >= W || p.y < 0 || p.y >= H {
            assert(!on_board(positions@[i as int]));
            return true;
        }
        i = i + 1;
    }
    false
}

/// Whether two entries of `positions` at distinct indices are the same cell.
pub fn overlaps_itself(positions: &VecDeque<Position>) -> (r: bool)
    ensures
        r == !positions@.no_duplicates(),
{
    let n = positions.len();
    let mut i: usize = 0;
    while i < n
        invariant
            n == positions@.len(),
            i <= n,
            forall|a: int, b: int|
                0 <= a < i && a < b < n ==> positions@[a] != positions@[b],
        decreases n - i,
    {
        let mut j: usize = i + 1;
        while j < n
            invariant
                n == positions@.len(),
                i < n,
                i < j <= n,
                forall|a: int, b: int|
                    0 <= a < i && a < b < n ==> positions@[a] != positions@[b],
                forall|b: int| i < b < j ==> positions@[i as int] != positions@[b],
            decreases n - j,
        {
            if positions[i] == positions[j] {
                return true;
            }
            j = j + 1;
        }
        i = i + 1;
    }
    false
}

/// The snake moved one cell on in its heading: the tail cell is dropped and
/// a new head is appended one cell beyond the old head.
pub fn update_snake_position(snake: Snake) -> (r: Snake)
    requires
        snake.positions@.len() >= 1,
        can_step(snake.positions@.last(), snake.direction),
    ensures
        r.positions@ == moved(snake.positions@, snake.direction),
        r.direction == snake.direction,
{
    let mut snake = snake;
    let ghost before = snake.positions@;
    let head_index: usize = snake.positions.len();
    let head = snake.positions[head_index - 1];
    let head = match snake.direction {
        Direction::Left => head.offset(-1, 0),
        Direction::Right => head.offset(1, 0),
        Direction::Up => head.offset(0, -1),
        Direction::Down => head.offset(0, 1),
    };
    snake.positions.pop_front();
    snake.positions.push_back(head);
    assert(snake.positions@ =~= moved(before, snake.direction));
    snake
}

/// One tick of a running game, with eaten food reappearing on respawn cell
/// number `food_choice` (counted modulo their number): the crash checks, then
/// eating, then the heading from the last queued input, then the move, then
/// the speed.
pub fn update_game_context_using(
    game_context: GameContext,
    event_queue: VecDeque<Direction>,
    food_choice: usize,
) -> (r: GameContext)
    requires
        game_context@.wf(),
        game_context.state == GameState::Running,
    ensures
        r@ == next_model(game_context@, event_queue@, food_choice as nat),
{
    let mut game_context = game_context;
    let mut event_queue = event_queue;
    let ghost m = game_context@;
    let ghost inputs = event_queue@;
    if off_board_anywhere(&game_context.snake.positions) || overlaps_itself(
        &game_context.snake.positions,
    ) {
        game_context.state = GameState::GameOver;
        return game_context;
    }
    proof {
        lemma_body_fits_board(m.body);
        assert(on_board(m.body[m.body.len() - 1]));
    }
    if occupies(&game_context.snake.positions, game_context.food.position) {
        game_context.snake.positions.push_front(Position::new(0, 0));
        let cells = list_free_cells(&game_context.snake.positions, 1, 1, W - 2, H - 2);
        game_context.food.position = pick_cell(&cells, food_choice, game_context.food.position);
    }
    let ghost body = game_context.snake.positions@;
    assert(body.last() == m.body.last());
    match event_queue.pop_back() {
        Some(direction) => {
            if !game_context.snake.direction.is_opposite(&direction) {
                game_context.snake.direction = direction;
            }
        },
        None => {},
    }
    assert(game_context.snake.direction == resolved_heading(m.heading, inputs));
    game_context.snake = update_snake_position(game_context.snake);
    game_context.speed = INIT_SPEED + (game_context.snake.positions.len() / 3) as u32;
    game_context
}

/// Number of cells that eaten food may reappear on in the coming tick of
/// `game_context`, or 0 when no food is eaten in it.
pub fn food_choice_count(game_context: &GameContext) -> (r: usize)
    requires
        game_context@.wf(),
    ensures
        r == respawn_choice_count(game_context@),
{
    let positions = &game_context.snake.positions;
    if off_board_anywhere(positions) || overlaps_itself(positions) {
        return 0;
    }
    if !occupies(positions, game_context.food.position) {
        return 0;
    }
    proof {
        lemma_body_fits_board(positions@);
    }
    let mut grown_positions = positions.clone();
    assert(grown_positions@ == positions@);
    grown_positions.push_front(Position::new(0, 0));
    let cells = list_free_cells(&grown_positions, 1, 1, W - 2, H - 2);
    cells.len()
}

/// One tick of a running game; eaten food reappears on a respawn cell drawn
/// at random.
pub fn update_game_context(game_context: GameContext, event_queue: VecDeque<Direction>) -> (r:
    GameContext)
    requires
        game_context@.wf(),
        game_context.state == GameState::Running,
    ensures
        exists|k: nat|
            (k < respawn_choice_count(game_context@) || k == 0) && r@ == #[trigger] next_model(
                game_context@,
                event_queue@,
                k,
            ),
{
    let n = food_choice_count(&game_context);
    let k = if n > 0 {
        random_below(n)
    } else {
        0
    };
    let r = update_game_context_using(game_context, event_queue, k);
    assert(r@ == next_model(game_context@, event_queue@, k as nat));
    r
}

} // verus!
