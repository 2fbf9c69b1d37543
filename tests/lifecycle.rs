use std::collections::VecDeque;

use snake::grid::{Direction, Position, INIT_SPEED};
use snake::session::{accept, frame_delay_nanos, tick};
use snake::state::{Food, GameContext, GameState, Snake};

fn body(g: &GameContext) -> Vec<(i32, i32)> {
    g.snake.positions.iter().map(|p| (p.x, p.y)).collect()
}

#[test]
fn fresh_game_is_centred_heading_right() {
    let g = GameContext::with_food_choice(0);
    assert_eq!(body(&g), vec![(6, 8), (7, 8), (8, 8)]);
    assert_eq!(g.snake.direction, Direction::Right);
    assert_eq!(g.speed, INIT_SPEED);
    assert_eq!(g.state, GameState::Running);
    assert_eq!(g.food.position, Position::new(0, 0));
}

#[test]
fn fresh_food_choice_skips_the_snake() {
    assert_eq!(GameContext::with_food_choice(6).food.position, Position::new(6, 0));
    assert_eq!(GameContext::with_food_choice(16).food.position, Position::new(0, 1));
    assert_eq!(GameContext::with_food_choice(8 * 16 + 6).food.position, Position::new(9, 8));
    assert_eq!(GameContext::with_food_choice(253).food.position, Position::new(0, 0));
}

#[test]
fn random_fresh_food_is_free() {
    for _ in 0..50 {
        let g = GameContext::new();
        let f = g.food.position;
        assert!(f.x >= 0 && f.x < 16 && f.y >= 0 && f.y < 16);
        assert!(!body(&g).contains(&(f.x, f.y)));
        assert_eq!(body(&g), vec![(6, 8), (7, 8), (8, 8)]);
    }
}

#[test]
fn ended_game_does_not_tick() {
    let g = GameContext {
        snake: Snake {
            positions: [Position::new(3, 3), Position::new(3, 3)].into_iter().collect(),
            direction: Direction::Up,
        },
        food: Food { position: Position::new(9, 9) },
        speed: 7,
        state: GameState::GameOver,
    };
    let r = tick(g, [Direction::Left].into_iter().collect());
    assert_eq!(r.state, GameState::GameOver);
    assert_eq!(body(&r), vec![(3, 3), (3, 3)]);
    assert_eq!(r.snake.direction, Direction::Up);
    assert_eq!(r.speed, 7);
}

#[test]
fn running_game_ticks() {
    let g = GameContext::with_food_choice(0);
    let r = tick(g, VecDeque::new());
    assert_eq!(body(&r), vec![(7, 8), (8, 8), (9, 8)]);
    assert_eq!(r.speed, 6);
}

#[test]
fn accept_restarts_only_ended_games() {
    let mut g = GameContext::with_food_choice(40);
    g.snake.positions.push_back(Position::new(20, 20));
    g.state = GameState::GameOver;
    let r = accept(g);
    assert_eq!(r.state, GameState::Running);
    assert_eq!(body(&r), vec![(6, 8), (7, 8), (8, 8)]);
    let running = GameContext::with_food_choice(40);
    let food = running.food.position;
    let r = accept(running);
    assert_eq!(r.food.position, food);
    assert_eq!(r.state, GameState::Running);
}

#[test]
fn frame_delay_divides_a_second() {
    assert_eq!(frame_delay_nanos(5), 200_000_000);
    assert_eq!(frame_delay_nanos(8), 125_000_000);
    assert_eq!(frame_delay_nanos(1), 1_000_000_000);
    assert_eq!(frame_delay_nanos(7), 142_857_142);
}
