//! Where things go on screen: pixel rectangles for board cells and text lines.
use vstd::prelude::*;

use crate::grid::{Position, GRID_SIZE_PX, H, W};
use crate::state::GameContext;

verus! {

/// A rectangle on screen, in pixels: top-left corner, width and height.
#[derive(Debug, Clone, Copy, PartialEq, Eq, Structural)]
pub struct ScreenRect {
    pub x: i32,
    pub y: i32,
    pub width: u32,
    pub height: u32,
}

/// The remainder of `a` divided by `b` as Rust's `%` computes it: truncated
/// towards zero, with the sign of `a`.
pub open spec fn trunc_rem(a: int, b: int) -> int {
    if a >= 0 {
        a % b
    } else {
        -((-a) % b)
    }
}

/// The rectangle that spans text columns `start_column..end_column` and
/// text rows `start_row..end_row`, one cell per column and per row.
pub fn get_rect_for_lines(start_column: i32, start_row: i32, end_column: i32, end_row: i32) -> (r:
    ScreenRect)
    requires
        i32::MIN <= start_column * GRID_SIZE_PX <= i32::MAX,
        i32::MIN <= start_row * GRID_SIZE_PX <= i32::MAX,
        i32::MIN <= end_column - start_column <= i32::MAX,
        i32::MIN <= end_row - start_row <= i32::MAX,
        i32::MIN <= (end_column - start_column) * GRID_SIZE_PX <= i32::MAX,
        i32::MIN <= (end_row - start_row) * GRID_SIZE_PX <= i32::MAX,
    ensures
        r.x == start_column * GRID_SIZE_PX,
        r.y == start_row * GRID_SIZE_PX,
        r.width == (((end_column - start_column) * GRID_SIZE_PX) as i32) as u32,
        r.height == (((end_row - start_row) * GRID_SIZE_PX) as i32) as u32,
{
    let width: i32 = (end_column - start_column) * GRID_SIZE_PX;
    let height: i32 = (end_row - start_row) * GRID_SIZE_PX;
    ScreenRect {
        x: start_column * GRID_SIZE_PX,
        y: start_row * GRID_SIZE_PX,
        width: width as u32,
        height: height as u32,
    }
}

/// The rectangle of a cell on screen, as the board is drawn: coordinates are
/// taken modulo the board's size (keeping their sign), times the cell size.
pub open spec fn square_of(p: Position) -> ScreenRect {
    ScreenRect {
        x: (trunc_rem(p.x as int, W as int) * GRID_SIZE_PX) as i32,
        y: (trunc_rem(p.y as int, H as int) * GRID_SIZE_PX) as i32,
        width: GRID_SIZE_PX as u32,
        height: GRID_SIZE_PX as u32,
    }
}

/// The rectangle that cell `pos` is drawn in.
pub fn square_for(pos: &Position) -> (r: ScreenRect)
    ensures
        r == square_of(*pos),
{
    let col: i32 = pos.x % W;
    let row: i32 = pos.y % H;
    ScreenRect {
        x: col * GRID_SIZE_PX,
        y: row * GRID_SIZE_PX,
        width: GRID_SIZE_PX as u32,
        height: GRID_SIZE_PX as u32,
    }
}

/// The rectangles drawn in one frame of play: the snake's cells from tail to
/// head, then the food.
pub fn gameplay_squares(game_context: &GameContext) -> (r: Vec<ScreenRect>)
    ensures
        r@ == game_context@.body.map_values(|p: Position| square_of(p)).push(
            square_of(game_context@.food),
        ),
{
    let positions = &game_context.snake.positions;
    let mut r: Vec<ScreenRect> = Vec::new();
    let mut i: usize = 0;
    while i < positions.len()
        invariant
            i <= positions@.len(),
            r@ == positions@.subrange(0, i as int).map_values(|p: Position| square_of(p)),
        decreases positions@.len() - i,
    {
        r.push(square_for(&positions[i]));
        assert(positions@.subrange(0, i + 1) == positions@.subrange(0, i as int).push(positions@[i as int]));
        assert(r@ =~= positions@.subrange(0, i + 1).map_values(|p: Position| square_of(p)));
        i = i + 1;
    }
    assert(positions@.subrange(0, i as int) =~= positions@);
    r.push(square_for(&game_context.food.position));
    r
}

} // verus!
