//! A sprite that walks over the screen in the direction of the last arrow
//! key, cycling through the frames of a spritesheet while it moves.
use vstd::prelude::*;

use crate::grid::Direction;
use crate::screen::{trunc_rem, ScreenRect};

verus! {

/// Pixels per frame that a walking player covers.
pub const PLAYER_MOVEMENT_SPEED: i32 = 20;

/// Smallest coordinate a point may take: half of `i32::MIN`.
pub const MIN_COORD: i32 = -1073741824;

/// Largest coordinate a point may take: half of `i32::MAX`, rounded down.
pub const MAX_COORD: i32 = 1073741823;

/// A point on screen, in pixels, with coordinates in `[MIN_COORD, MAX_COORD]`.
#[derive(Debug, Clone, Copy, PartialEq, Eq, Structural)]
pub struct Point {
    pub x: i32,
    pub y: i32,
}

/// The walking player.
#[derive(Debug)]
pub struct Player {
    /// Where the player stands, relative to the middle of the window.
    pub position: Point,
    /// The first frame of the spritesheet.
    pub sprite: ScreenRect,
    /// Pixels per frame; 0 while standing.
    pub speed: i32,
    pub direction: Direction,
    /// Column of the spritesheet shown, one of three.
    pub current_frame: i32,
}

/// `v` brought into `[MIN_COORD, MAX_COORD]`.
pub open spec fn clamp_coord(v: int) -> int {
    if v < MIN_COORD {
        MIN_COORD as int
    } else if v > MAX_COORD {
        MAX_COORD as int
    } else {
        v
    }
}

/// A coordinate moved by `d`, kept within `[MIN_COORD, MAX_COORD]`.
pub fn shift_coord(v: i32, d: i32) -> (r: i32)
    requires
        MIN_COORD <= v <= MAX_COORD,
    ensures
        r == clamp_coord(v + d),
{
    let s: i64 = v as i64 + d as i64;
    if s < MIN_COORD as i64 {
        MIN_COORD
    } else if s > MAX_COORD as i64 {
        MAX_COORD
    } else {
        s as i32
    }
}

impl Point {
    pub open spec fn wf(self) -> bool {
        MIN_COORD <= self.x <= MAX_COORD && MIN_COORD <= self.y <= MAX_COORD
    }

    /// The point moved by `x` and `y`, each coordinate kept within
    /// `[MIN_COORD, MAX_COORD]`.
    pub fn offset(self, x: i32, y: i32) -> (r: Point)
        requires
            self.wf(),
        ensures
            r.wf(),
            r.x == clamp_coord(self.x + x),
            r.y == clamp_coord(self.y + y),
    {
        Point { x: shift_coord(self.x, x), y: shift_coord(self.y, y) }
    }
}

/// Where a player at `p` heading `d` stands after one frame at `speed`.
pub open spec fn walked(p: Point, d: Direction, speed: int) -> Point {
    match d {
        Direction::Left => Point { x: clamp_coord(p.x - speed) as i32, y: p.y },
        Direction::Right => Point { x: clamp_coord(p.x + speed) as i32, y: p.y },
        Direction::Up => Point { x: p.x, y: clamp_coord(p.y - speed) as i32 },
        Direction::Down => Point { x: p.x, y: clamp_coord(p.y + speed) as i32 },
    }
}

/// The row of the spritesheet that shows the player walking in `direction`.
pub open spec fn spritesheet_row(direction: Direction) -> int {
    match direction {
        Direction::Up => 3,
        Direction::Down => 0,
        Direction::Left => 1,
        Direction::Right => 2,
    }
}

/// The row of the spritesheet that shows the player walking in `direction`.
pub fn direction_spritesheet_row(direction: Direction) -> (r: i32)
    ensures
        r == spritesheet_row(direction),
{
    match direction {
        Direction::Up => 3,
        Direction::Down => 0,
        Direction::Left => 1,
        Direction::Right => 2,
    }
}

/// Moves the player by `speed` pixels in its direction and, while it moves,
/// shows the next of the three frames.
pub fn update_player(player: &mut Player)
    requires
        old(player).position.wf(),
        old(player).speed > i32::MIN,
        old(player).current_frame < i32::MAX,
    ensures
        final(player).position.wf(),
        final(player).position == walked(
            old(player).position,
            old(player).direction,
            old(player).speed as int,
        ),
        final(player).current_frame == if old(player).speed != 0 {
            trunc_rem(old(player).current_frame + 1, 3)
        } else {
            old(player).current_frame as int
        },
        final(player).sprite == old(player).sprite,
        final(player).speed == old(player).speed,
        final(player).direction == old(player).direction,
{
    match player.direction {
        Direction::Left => {
            player.position = player.position.offset(-player.speed, 0);
        },
        Direction::Right => {
            player.position = player.position.offset(player.speed, 0);
        },
        Direction::Up => {
            player.position = player.position.offset(0, -player.speed);
        },
        Direction::Down => {
            player.position = player.position.offset(0, player.speed);
        },
    }
    if player.speed != 0 {
        player.current_frame = (player.current_frame + 1) % 3;
    }
}

/// The part of the spritesheet to show: the player's current frame in the
/// row of its direction, each frame the size of `sprite`.
pub fn sprite_frame(player: &Player) -> (r: ScreenRect)
    requires
        player.sprite.width <= i32::MAX,
        player.sprite.height <= i32::MAX,
        i32::MIN <= player.sprite.x + player.sprite.width * player.current_frame <= i32::MAX,
        i32::MIN <= player.sprite.width * player.current_frame <= i32::MAX,
        i32::MIN <= player.sprite.y + player.sprite.height * spritesheet_row(player.direction)
            <= i32::MAX,
        i32::MIN <= player.sprite.height * spritesheet_row(player.direction) <= i32::MAX,
    ensures
        r.x == player.sprite.x + player.sprite.width * player.current_frame,
        r.y == player.sprite.y + player.sprite.height * spritesheet_row(player.direction),
        r.width == player.sprite.width,
        r.height == player.sprite.height,
{
    let frame_width = player.sprite.width;
    let frame_height = player.sprite.height;
    ScreenRect {
        x: player.sprite.x + frame_width as i32 * player.current_frame,
        y: player.sprite.y + frame_height as i32 * direction_spritesheet_row(player.direction),
        width: frame_width,
        height: frame_height,
    }
}

} // verus!
