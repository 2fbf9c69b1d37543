//! Enumerating the cells of a rectangle of the board that a body leaves free,
//! and the pigeonhole bound on how long a body that fits the board can be.
use vstd::prelude::*;
use vstd::set_lib::{lemma_int_range, lemma_len_subset, set_int_range};
use std::collections::VecDeque;

use crate::grid::{on_board, Position, H, W};

verus! {

/// The free cells of row `y`, among the `cols` columns that start at `x0`,
/// from left to right.
pub open spec fn free_in_row(body: Seq<Position>, x0: int, y: int, cols: nat) -> Seq<Position>
    decreases cols,
{
    if cols == 0 {
        Seq::empty()
    } else {
        let rest = free_in_row(body, x0, y, (cols - 1) as nat);
        let c = Position { x: (x0 + cols - 1) as i32, y: y as i32 };
        if body.contains(c) {
            rest
        } else {
            rest.push(c)
        }
    }
}

/// The cells of the rectangle with top-left corner `(x0, y0)`, `w` columns
/// and `h` rows that `body` does not occupy, row by row from the top, each
/// row from left to right.
pub open spec fn free_cells(body: Seq<Position>, x0: int, y0: int, w: nat, h: nat) -> Seq<Position>
    decreases h,
{
    if h == 0 {
        Seq::empty()
    } else {
        free_cells(body, x0, y0, w, (h - 1) as nat) + free_in_row(body, x0, y0 + h - 1, w)
    }
}

/// Whether `p` lies in the rectangle with top-left corner `(x0, y0)`, `w`
/// columns and `h` rows.
pub open spec fn in_rect(p: Position, x0: int, y0: int, w: nat, h: nat) -> bool {
    x0 <= p.x < x0 + w && y0 <= p.y < y0 + h
}

/// A rectangle whose coordinates all fit in `i32`.
pub open spec fn rect_fits(x0: int, y0: int, w: nat, h: nat) -> bool {
    0 <= x0 && 0 <= y0 && x0 + w <= i32::MAX && y0 + h <= i32::MAX
}

/// Every cell of a row that is listed as free is in the row and off the body.
pub proof fn lemma_free_in_row(body: Seq<Position>, x0: int, y: int, cols: nat)
    requires
        0 <= x0,
        x0 + cols <= i32::MAX,
        i32::MIN <= y <= i32::MAX,
    ensures
        forall|k: int|
            0 <= k < free_in_row(body, x0, y, cols).len() ==> {
                let c = #[trigger] free_in_row(body, x0, y, cols)[k];
                &&& !body.contains(c)
                &&& c.y == y
                &&& x0 <= c.x < x0 + cols
            },
    decreases cols,
{
    if cols > 0 {
        let cm = (cols - 1) as nat;
        lemma_free_in_row(body, x0, y, cm);
        let rest = free_in_row(body, x0, y, cm);
        let c = Position { x: (x0 + cm) as i32, y: y as i32 };
        if !body.contains(c) {
            assert forall|k: int| 0 <= k < rest.push(c).len() implies {
                let d = #[trigger] rest.push(c)[k];
                &&& !body.contains(d)
                &&& d.y == y
                &&& x0 <= d.x < x0 + cols
            } by {
                if k < rest.len() {
                    assert(rest.push(c)[k] == rest[k]);
                }
            }
        }
    }
}

/// Every cell listed as free is in the rectangle and off the body.
pub proof fn lemma_free_cells(body: Seq<Position>, x0: int, y0: int, w: nat, h: nat)
    requires
        rect_fits(x0, y0, w, h),
    ensures
        forall|k: int|
            0 <= k < free_cells(body, x0, y0, w, h).len() ==> {
                let c = #[trigger] free_cells(body, x0, y0, w, h)[k];
                &&& !body.contains(c)
                &&& in_rect(c, x0, y0, w, h)
            },
    decreases h,
{
    if h > 0 {
        let hm = (h - 1) as nat;
        lemma_free_cells(body, x0, y0, w, hm);
        lemma_free_in_row(body, x0, y0 + hm, w);
        let a = free_cells(body, x0, y0, w, hm);
        let b = free_in_row(body, x0, y0 + hm, w);
        assert forall|k: int| 0 <= k < (a + b).len() implies {
            let c = #[trigger] (a + b)[k];
            &&& !body.contains(c)
            &&& in_rect(c, x0, y0, w, h)
        } by {
            if k < a.len() {
                assert((a + b)[k] == a[k]);
            } else {
                assert((a + b)[k] == b[k - a.len()]);
            }
        }
    }
}

/// A cell of the row that is off the body is listed as free.
pub proof fn lemma_free_in_row_complete(
    body: Seq<Position>,
    x0: int,
    y: int,
    cols: nat,
    c: Position,
)
    requires
        0 <= x0,
        x0 + cols <= i32::MAX,
        i32::MIN <= y <= i32::MAX,
        c.y == y,
        x0 <= c.x < x0 + cols,
        !body.contains(c),
    ensures
        free_in_row(body, x0, y, cols).contains(c),
    decreases cols,
{
    let cm = (cols - 1) as nat;
    let rest = free_in_row(body, x0, y, cm);
    let last = Position { x: (x0 + cm) as i32, y: y as i32 };
    if c == last {
        assert(rest.push(c)[rest.len() as int] == c);
    } else {
        lemma_free_in_row_complete(body, x0, y, cm, c);
        let k = choose|k: int| 0 <= k < rest.len() && rest[k] == c;
        if !body.contains(last) {
            assert(rest.push(last)[k] == c);
        }
    }
}

/// A cell of the rectangle that is off the body is listed as free.
pub proof fn lemma_free_cells_complete(
    body: Seq<Position>,
    x0: int,
    y0: int,
    w: nat,
    h: nat,
    c: Position,
)
    requires
        rect_fits(x0, y0, w, h),
        in_rect(c, x0, y0, w, h),
        !body.contains(c),
    ensures
        free_cells(body, x0, y0, w, h).contains(c),
    decreases h,
{
    let hm = (h - 1) as nat;
    let a = free_cells(body, x0, y0, w, hm);
    let b = free_in_row(body, x0, y0 + hm, w);
    if c.y == y0 + hm {
        lemma_free_in_row_complete(body, x0, y0 + hm, w, c);
        let k = choose|k: int| 0 <= k < b.len() && b[k] == c;
        assert((a + b)[a.len() + k] == c);
    } else {
        lemma_free_cells_complete(body, x0, y0, w, hm, c);
        let k = choose|k: int| 0 <= k < a.len() && a[k] == c;
        assert((a + b)[k] == c);
    }
}

/// Whether `positions` holds `p`.
pub fn occupies(positions: &VecDeque<Position>, p: Position) -> (r: bool)
    ensures
        r == positions@.contains(p),
{
    let mut i: usize = 0;
    while i < positions.len()
        invariant
            i <= positions@.len(),
            forall|j: int| 0 <= j < i ==> positions@[j] != p,
        decreases positions@.len() - i,
    {
        if positions[i] == p {
            return true;
        }
        i = i + 1;
    }
    false
}

/// The cells of the rectangle with top-left corner `(x0, y0)`, `w` columns
/// and `h` rows that `positions` leaves free, in the order of `free_cells`.
pub fn list_free_cells(positions: &VecDeque<Position>, x0: i32, y0: i32, w: i32, h: i32) -> (r: Vec<
    Position,
>)
    requires
        0 <= w,
        0 <= h,
        rect_fits(x0 as int, y0 as int, w as nat, h as nat),
    ensures
        r@ == free_cells(positions@, x0 as int, y0 as int, w as nat, h as nat),
{
    let mut r: Vec<Position> = Vec::new();
    let mut row: i32 = 0;
    while row < h
        invariant
            0 <= row <= h,
            rect_fits(x0 as int, y0 as int, w as nat, h as nat),
            0 <= w,
            r@ == free_cells(positions@, x0 as int, y0 as int, w as nat, row as nat),
        decreases h - row,
    {
        let mut col: i32 = 0;
        while col < w
            invariant
                0 <= col <= w,
                0 <= row < h,
                rect_fits(x0 as int, y0 as int, w as nat, h as nat),
                r@ == free_cells(positions@, x0 as int, y0 as int, w as nat, row as nat)
                    + free_in_row(positions@, x0 as int, y0 + row, col as nat),
            decreases w - col,
        {
            let c = Position { x: x0 + col, y: y0 + row };
            let taken = occupies(positions, c);
            if !taken {
                r.push(c);
            }
            proof {
                let before = free_cells(positions@, x0 as int, y0 as int, w as nat, row as nat);
                let old_row = free_in_row(positions@, x0 as int, y0 + row, col as nat);
                assert(free_in_row(positions@, x0 as int, y0 + row, (col + 1) as nat) == if taken {
                    old_row
                } else {
                    old_row.push(c)
                });
                if !taken {
                    assert(before + old_row.push(c) =~= (before + old_row).push(c));
                }
            }
            col = col + 1;
        }
        assert(free_cells(positions@, x0 as int, y0 as int, w as nat, (row + 1) as nat)
            == free_cells(positions@, x0 as int, y0 as int, w as nat, row as nat)
            + free_in_row(positions@, x0 as int, y0 + row, w as nat));
        row = row + 1;
    }
    r
}

/// The number of a cell of the board, row by row.
pub open spec fn cell_number(p: Position) -> int {
    p.y * W + p.x
}

/// A body whose cells are all on the board and pairwise distinct has at most
/// `W * H` cells.
pub proof fn lemma_body_fits_board(body: Seq<Position>)
    requires
        forall|i: int| 0 <= i < body.len() ==> on_board(#[trigger] body[i]),
        body.no_duplicates(),
    ensures
        body.len() <= W * H,
{
    let nums = body.map_values(|p: Position| cell_number(p));
    assert forall|i: int, j: int|
        0 <= i < nums.len() && 0 <= j < nums.len() && i != j implies nums[i] != nums[j] by {
        assert(on_board(body[i]) && on_board(body[j]));
        assert(body[i] != body[j]);
    }
    assert(nums.no_duplicates());
    nums.unique_seq_to_set();
    lemma_int_range(0, W * H);
    assert forall|n: int| nums.to_set().contains(n) implies set_int_range(0, W * H).contains(n) by {
        let i = choose|i: int| 0 <= i < nums.len() && nums[i] == n;
        assert(on_board(body[i]));
    }
    lemma_len_subset(nums.to_set(), set_int_range(0, W * H));
}

} // verus!
