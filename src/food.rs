//! Where the food goes: the cells it may take and the choice among them.
use vstd::prelude::*;
use rand::Rng;

use crate::cells::{free_cells, lemma_free_cells_complete};
use crate::grid::{Position, H, W};
use crate::state::{initial_body, initial_food_cells};

verus! {

/// The cells where eaten food may reappear next to the snake `body`: the
/// free cells of the interior of the board, `[1, W-2] x [1, H-2]`.
pub open spec fn respawn_cells(body: Seq<Position>) -> Seq<Position> {
    free_cells(body, 1, 1, (W - 2) as nat, (H - 2) as nat)
}

/// Cell number `choice` of `cells`, counted modulo their number, or
/// `fallback` when there is none.
pub open spec fn chosen_cell(cells: Seq<Position>, choice: nat, fallback: Position) -> Position {
    if cells.len() > 0 {
        cells[(choice % cells.len()) as int]
    } else {
        fallback
    }
}

/// Cell number `choice` of `cells`, counted modulo their number, or
/// `fallback` when there is none.
pub fn pick_cell(cells: &Vec<Position>, choice: usize, fallback: Position) -> (r: Position)
    ensures
        r == chosen_cell(cells@, choice as nat, fallback),
{
    if cells.len() > 0 {
        cells[choice % cells.len()]
    } else {
        fallback
    }
}

/// The board minus the fresh snake is not empty.
pub proof fn lemma_initial_food_cells_nonempty()
    ensures
        initial_food_cells().len() > 0,
{
    let corner = Position { x: 0, y: 0 };
    assert(!initial_body().contains(corner)) by {
        assert forall|i: int| 0 <= i < initial_body().len() implies initial_body()[i] != corner by {}
    }
    lemma_free_cells_complete(initial_body(), 0, 0, W as nat, H as nat, corner);
}

/// Relies on `rand::Rng::gen_range` over `rand::thread_rng()`: a number of the
/// half-open range `0..n`, drawn at random; it panics only on an empty range.
#[verifier::external_body]
pub(crate) fn random_below(n: usize) -> (r: usize)
    requires
        n > 0,
    ensures
        r < n,
{
    rand::thread_rng().gen_range(0..n)
}

} // verus!
