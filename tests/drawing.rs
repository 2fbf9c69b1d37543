use snake::grid::{Direction, Position};
use snake::screen::{gameplay_squares, get_rect_for_lines, square_for, ScreenRect};
use snake::state::GameContext;
use snake::walker::{
    direction_spritesheet_row, sprite_frame, update_player, Player, Point, MAX_COORD, MIN_COORD,
};

fn rect(x: i32, y: i32, width: u32, height: u32) -> ScreenRect {
    ScreenRect { x, y, width, height }
}

#[test]
fn text_lines_rects() {
    assert_eq!(get_rect_for_lines(2, 4, 14, 8), rect(64, 128, 384, 128));
    assert_eq!(get_rect_for_lines(2, 8, 14, 10), rect(64, 256, 384, 64));
    assert_eq!(get_rect_for_lines(3, 3, 3, 3), rect(96, 96, 0, 0));
}

#[test]
fn cell_squares_wrap_by_board_size() {
    assert_eq!(square_for(&Position::new(3, 4)), rect(96, 128, 32, 32));
    assert_eq!(square_for(&Position::new(16, 8)), rect(0, 256, 32, 32));
    assert_eq!(square_for(&Position::new(-1, 17)), rect(-32, 32, 32, 32));
}

#[test]
fn frame_squares_list_snake_then_food() {
    let g = GameContext::with_food_choice(1);
    let squares = gameplay_squares(&g);
    assert_eq!(
        squares,
        vec![
            rect(192, 256, 32, 32),
            rect(224, 256, 32, 32),
            rect(256, 256, 32, 32),
            rect(32, 0, 32, 32),
        ]
    );
}

#[test]
fn spritesheet_rows() {
    assert_eq!(direction_spritesheet_row(Direction::Up), 3);
    assert_eq!(direction_spritesheet_row(Direction::Down), 0);
    assert_eq!(direction_spritesheet_row(Direction::Left), 1);
    assert_eq!(direction_spritesheet_row(Direction::Right), 2);
}

fn player(x: i32, y: i32, speed: i32, direction: Direction, frame: i32) -> Player {
    Player {
        position: Point { x, y },
        sprite: rect(0, 0, 26, 36),
        speed,
        direction,
        current_frame: frame,
    }
}

#[test]
fn walking_player_moves_and_animates() {
    let mut p = player(0, 0, 20, Direction::Left, 0);
    update_player(&mut p);
    assert_eq!(p.position, Point { x: -20, y: 0 });
    assert_eq!(p.current_frame, 1);
    p.direction = Direction::Down;
    update_player(&mut p);
    update_player(&mut p);
    assert_eq!(p.position, Point { x: -20, y: 40 });
    assert_eq!(p.current_frame, 0);
    p.direction = Direction::Up;
    update_player(&mut p);
    p.direction = Direction::Right;
    update_player(&mut p);
    assert_eq!(p.position, Point { x: 0, y: 20 });
    assert_eq!(p.current_frame, 2);
}

#[test]
fn standing_player_keeps_frame() {
    let mut p = player(5, 6, 0, Direction::Up, 2);
    update_player(&mut p);
    assert_eq!(p.position, Point { x: 5, y: 6 });
    assert_eq!(p.current_frame, 2);
}

#[test]
fn player_stops_at_coordinate_limits() {
    let mut p = player(MAX_COORD - 5, MIN_COORD + 3, 20, Direction::Right, 0);
    update_player(&mut p);
    assert_eq!(p.position.x, MAX_COORD);
    p.direction = Direction::Up;
    update_player(&mut p);
    assert_eq!(p.position.y, MIN_COORD);
    assert_eq!(MAX_COORD, i32::MAX / 2);
    assert_eq!(MIN_COORD, i32::MIN / 2);
}

#[test]
fn sprite_frame_picks_row_and_column() {
    let p = player(0, 0, 20, Direction::Right, 2);
    assert_eq!(sprite_frame(&p), rect(52, 72, 26, 36));
    let p = player(0, 0, 0, Direction::Down, 0);
    assert_eq!(sprite_frame(&p), rect(0, 0, 26, 36));
}
