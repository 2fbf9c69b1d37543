//! The state of one game: the snake, the food, the speed and the phase.
use vstd::prelude::*;
use std::collections::VecDeque;

use crate::cells::list_free_cells;
use crate::food::{pick_cell, random_below};
use crate::grid::{Direction, Position, H, INIT_SPEED, W};

verus! {

/// Whether the game is being played or has ended.
#[derive(Debug, Clone, Copy, PartialEq, Eq, Structural)]
pub enum GameState {
    Running,
    GameOver,
}

/// The snake: its cells from tail to head (the last cell is the head) and
/// its heading.
#[derive(Debug)]
pub struct Snake {
    pub positions: VecDeque<Position>,
    pub direction: Direction,
}

/// The one piece of food on the board.
#[derive(Debug)]
pub struct Food {
    pub position: Position,
}

/// Everything that one game consists of.
#[derive(Debug)]
pub struct GameContext {
    pub snake: Snake,
    pub food: Food,
    pub speed: u32,
    pub state: GameState,
}

/// A game as mathematical values.
pub struct GameModel {
    /// The snake's cells, tail first, head last.
    pub body: Seq<Position>,
    pub heading: Direction,
    pub food: Position,
    /// Ticks per second.
    pub speed: int,
    pub phase: GameState,
}

impl View for GameContext {
    type V = GameModel;

    open spec fn view(&self) -> GameModel {
        GameModel {
            body: self.snake.positions@,
            heading: self.snake.direction,
            food: self.food.position,
            speed: self.speed as int,
            phase: self.state,
        }
    }
}

impl GameModel {
    /// A snake always has a head.
    pub open spec fn wf(self) -> bool {
        self.body.len() >= 1
    }
}

/// The snake of a fresh game: three cells in the middle row, heading right,
/// with the head in the middle column.
pub open spec fn initial_body() -> Seq<Position> {
    seq![
        Position { x: (W / 2 - 2) as i32, y: (H / 2) as i32 },
        Position { x: (W / 2 - 1) as i32, y: (H / 2) as i32 },
        Position { x: (W / 2) as i32, y: (H / 2) as i32 },
    ]
}

/// The cells where the food of a fresh game may appear: every cell of the
/// board that the fresh snake does not occupy.
pub open spec fn initial_food_cells() -> Seq<Position> {
    crate::cells::free_cells(initial_body(), 0, 0, W as nat, H as nat)
}

/// A fresh game with its food on free cell number `choice` of
/// `initial_food_cells` (counted modulo their number).
pub open spec fn fresh_game(choice: nat) -> GameModel {
    let cells = initial_food_cells();
    GameModel {
        body: initial_body(),
        heading: Direction::Right,
        food: cells[(choice % cells.len()) as int],
        speed: INIT_SPEED as int,
        phase: GameState::Running,
    }
}

fn initial_snake_cells() -> (r: VecDeque<Position>)
    ensures
        r@ == initial_body(),
{
    let mut positions: VecDeque<Position> = VecDeque::new();
    positions.push_back(Position::new(W / 2 - 2, H / 2));
    positions.push_back(Position::new(W / 2 - 1, H / 2));
    positions.push_back(Position::new(W / 2, H / 2));
    assert(positions@ =~= initial_body());
    positions
}

impl GameContext {
    /// A fresh game whose food lies on free cell number `choice` of
    /// `initial_food_cells`, counted modulo their number.
    pub fn with_food_choice(choice: usize) -> (r: GameContext)
        ensures
            r@ == fresh_game(choice as nat),
    {
        let positions = initial_snake_cells();
        let cells = list_free_cells(&positions, 0, 0, W, H);
        proof {
            crate::food::lemma_initial_food_cells_nonempty();
        }
        let food = pick_cell(&cells, choice, Position::new(0, 0));
        GameContext {
            snake: Snake { positions, direction: Direction::Right },
            food: Food { position: food },
            speed: INIT_SPEED,
            state: GameState::Running,
        }
    }

    /// A fresh game with its food on a free cell drawn at random.
    pub fn new() -> (r: GameContext)
        ensures
            exists|k: nat| k < initial_food_cells().len() && r@ == #[trigger] fresh_game(k),
    {
        let cells = list_free_cells(&initial_snake_cells(), 0, 0, W, H);
        proof {
            crate::food::lemma_initial_food_cells_nonempty();
        }
        let k = random_below(cells.len());
        let r = GameContext::with_food_choice(k);
        assert(r@ == fresh_game(k as nat));
        r
    }
}

} // verus!
