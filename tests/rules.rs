use std::collections::VecDeque;

use snake_game::clock::{MovementClock, MOVE_PERIOD_NS};
use snake_game::collision::{is_food_collision, is_self_collision, is_wall_collision};
use snake_game::food::spawn_food;
use snake_game::game::{GameSession, GameState};
use snake_game::grid::{Cell, Direction, GRID_HEIGHT, GRID_WIDTH};
use snake_game::snake::SnakeState;

const MS: u64 = 1_000_000;

fn cells(v: &[(i32, i32)]) -> VecDeque<Cell> {
    v.iter().map(|&(x, y)| Cell::new(x, y)).collect()
}

fn session_with_food(x: i32, y: i32) -> GameSession {
    GameSession::with_food(Cell::new(x, y), MovementClock::movement())
}

#[test]
fn new_snake_starts_at_five_five_heading_right() {
    let s = SnakeState::new();
    assert_eq!(s.body, cells(&[(5, 5)]));
    assert_eq!(s.direction, Direction::Right);
    assert!(!s.growing);
    assert_eq!(s.score(), 1);
    assert_eq!(s.head(), Cell::new(5, 5));
}

#[test]
fn reversal_request_is_discarded() {
    let mut s = SnakeState::new();
    s.set_direction(Direction::Left);
    assert_eq!(s.direction, Direction::Right);
}

#[test]
fn perpendicular_requests_are_taken() {
    let mut s = SnakeState::new();
    s.set_direction(Direction::Up);
    assert_eq!(s.direction, Direction::Up);
    let mut t = SnakeState::new();
    t.set_direction(Direction::Down);
    assert_eq!(t.direction, Direction::Down);
    t.set_direction(Direction::Up);
    assert_eq!(t.direction, Direction::Down);
    t.set_direction(Direction::Left);
    assert_eq!(t.direction, Direction::Left);
}

#[test]
fn advance_without_growth_keeps_length() {
    let mut s = SnakeState { body: cells(&[(5, 5), (4, 5), (3, 5)]), direction: Direction::Up, growing: false };
    s.advance();
    assert_eq!(s.body, cells(&[(5, 6), (5, 5), (4, 5)]));
    assert!(!s.growing);
}

#[test]
fn advance_with_growth_adds_one_and_clears_growth() {
    let mut s = SnakeState { body: cells(&[(5, 5), (4, 5)]), direction: Direction::Right, growing: false };
    s.mark_growing();
    s.mark_growing();
    assert!(s.growing);
    s.advance();
    assert_eq!(s.body, cells(&[(6, 5), (5, 5), (4, 5)]));
    assert!(!s.growing);
    s.advance();
    assert_eq!(s.body, cells(&[(7, 5), (6, 5), (5, 5)]));
}

#[test]
fn advance_may_leave_the_board() {
    let mut s = SnakeState { body: cells(&[(0, 0)]), direction: Direction::Down, growing: false };
    s.advance();
    assert_eq!(s.head(), Cell::new(0, -1));
}

#[test]
fn offsets_and_opposites() {
    assert_eq!(Direction::Up.delta(), (0, 1));
    assert_eq!(Direction::Down.delta(), (0, -1));
    assert_eq!(Direction::Left.delta(), (-1, 0));
    assert_eq!(Direction::Right.delta(), (1, 0));
    assert_eq!(Direction::Up.opposite(), Direction::Down);
    assert_eq!(Direction::Left.opposite(), Direction::Right);
    assert_eq!(Cell::new(3, 4).offset(Direction::Left), Cell::new(2, 4));
    assert_eq!(Cell::new(3, 4).offset(Direction::Up), Cell::new(3, 5));
}

#[test]
fn every_cell_just_past_an_edge_is_a_wall_hit() {
    for y in 0..GRID_HEIGHT {
        assert!(is_wall_collision(Cell::new(-1, y)));
        assert!(is_wall_collision(Cell::new(GRID_WIDTH, y)));
    }
    for x in 0..GRID_WIDTH {
        assert!(is_wall_collision(Cell::new(x, -1)));
        assert!(is_wall_collision(Cell::new(x, GRID_HEIGHT)));
    }
}

#[test]
fn cells_on_the_board_are_no_wall_hit() {
    for x in 0..GRID_WIDTH {
        for y in 0..GRID_HEIGHT {
            assert!(!is_wall_collision(Cell::new(x, y)));
        }
    }
}

#[test]
fn wall_exit_ends_the_game() {
    let mut g = session_with_food(10, 10);
    g.snake = SnakeState { body: cells(&[(19, 3)]), direction: Direction::Right, growing: false };
    g.update(None, true, Cell::new(0, 0));
    assert_eq!(g.head(), Cell::new(20, 3));
    assert_eq!(g.state, GameState::GameOver);
    assert!(g.is_game_over());

    let mut h = session_with_food(10, 10);
    h.snake = SnakeState { body: cells(&[(4, 0)]), direction: Direction::Down, growing: false };
    h.update(None, true, Cell::new(0, 0));
    assert_eq!(h.head(), Cell::new(4, -1));
    assert_eq!(h.state, GameState::GameOver);
}

#[test]
fn head_on_body_is_a_self_hit() {
    assert!(is_self_collision(&cells(&[(5, 5), (4, 5), (5, 5)])));
}

#[test]
fn straight_body_is_no_self_hit() {
    assert!(!is_self_collision(&cells(&[(5, 5), (4, 5), (3, 5)])));
    assert!(!is_self_collision(&cells(&[(5, 5)])));
    assert!(!is_self_collision(&VecDeque::new()));
}

#[test]
fn turning_into_own_body_ends_the_game() {
    let mut g = session_with_food(0, 0);
    g.snake = SnakeState { body: cells(&[(5, 5), (5, 6), (6, 6), (6, 5), (6, 4)]), direction: Direction::Down, growing: false };
    g.update(Some(Direction::Right), true, Cell::new(1, 1));
    assert_eq!(g.body_cells(), vec![Cell::new(6, 5), Cell::new(5, 5), Cell::new(5, 6), Cell::new(6, 6), Cell::new(6, 5)]);
    assert_eq!(g.snake.direction, Direction::Right);
    assert_eq!(g.state, GameState::GameOver);
}

#[test]
fn food_collision_is_cell_equality() {
    assert!(is_food_collision(Cell::new(6, 5), Cell::new(6, 5)));
    assert!(!is_food_collision(Cell::new(6, 5), Cell::new(5, 6)));
}

#[test]
fn spawned_food_is_always_on_the_board() {
    for _ in 0..5000 {
        let c = spawn_food();
        assert!(c.x >= 0 && c.x < GRID_WIDTH);
        assert!(c.y >= 0 && c.y < GRID_HEIGHT);
    }
}

#[test]
fn spawned_food_varies() {
    let first = spawn_food();
    let mut differs = false;
    for _ in 0..200 {
        if spawn_food() != first {
            differs = true;
        }
    }
    assert!(differs);
}

#[test]
fn eating_then_moving_grows_by_one() {
    let mut g = session_with_food(6, 5);
    g.update(None, true, Cell::new(12, 9));
    assert_eq!(g.head(), Cell::new(6, 5));
    assert!(g.snake.growing);
    assert_eq!(g.food, Cell::new(12, 9));
    assert_eq!(g.score(), 1);
    g.update(None, true, Cell::new(0, 0));
    assert_eq!(g.head(), Cell::new(7, 5));
    assert_eq!(g.score(), 2);
    assert!(!g.snake.growing);
    assert_eq!(g.food, Cell::new(12, 9));
    assert_eq!(g.state, GameState::Playing);
}

#[test]
fn length_is_one_plus_meals() {
    let mut g = session_with_food(6, 5);
    let mut meals: usize = 0;
    for step in 0..8 {
        let next = Cell::new(7 + step, 5);
        let before = g.food;
        g.update(None, true, next);
        if g.head() == before {
            meals += 1;
        }
    }
    g.update(Some(Direction::Up), true, Cell::new(0, 0));
    assert_eq!(meals, 8);
    assert_eq!(g.score(), 1 + meals);
    assert_eq!(g.state, GameState::Playing);
}

#[test]
fn no_tick_means_no_move() {
    let mut g = session_with_food(6, 5);
    g.update(Some(Direction::Up), false, Cell::new(1, 1));
    assert_eq!(g.head(), Cell::new(5, 5));
    assert_eq!(g.snake.direction, Direction::Up);
    assert_eq!(g.food, Cell::new(6, 5));
}

#[test]
fn game_over_ignores_frames() {
    let mut g = session_with_food(6, 5);
    g.state = GameState::GameOver;
    g.update(Some(Direction::Up), true, Cell::new(1, 1));
    assert_eq!(g.head(), Cell::new(5, 5));
    assert_eq!(g.snake.direction, Direction::Right);
    g.frame(Some(Direction::Up), 10 * MOVE_PERIOD_NS);
    assert_eq!(g.head(), Cell::new(5, 5));
    assert_eq!(g.clock.elapsed_ns, 0);
}

#[test]
fn restart_resets_a_finished_game() {
    let mut g = session_with_food(6, 5);
    g.snake = SnakeState { body: cells(&[(19, 3), (18, 3)]), direction: Direction::Right, growing: true };
    g.update(None, true, Cell::new(0, 0));
    assert_eq!(g.state, GameState::GameOver);
    g.restart_with(Cell::new(2, 3));
    assert_eq!(g.body_cells(), vec![Cell::new(5, 5)]);
    assert_eq!(g.snake.direction, Direction::Right);
    assert!(!g.snake.growing);
    assert_eq!(g.state, GameState::Playing);
    assert_eq!(g.food, Cell::new(2, 3));
}

#[test]
fn restart_draws_one_food_on_the_board() {
    let mut g = session_with_food(6, 5);
    g.state = GameState::GameOver;
    g.snake.direction = Direction::Up;
    g.restart();
    assert_eq!(g.body_cells(), vec![Cell::new(5, 5)]);
    assert_eq!(g.snake.direction, Direction::Right);
    assert!(!g.snake.growing);
    assert_eq!(g.state, GameState::Playing);
    assert!(g.food.x >= 0 && g.food.x < GRID_WIDTH && g.food.y >= 0 && g.food.y < GRID_HEIGHT);
}

#[test]
fn restart_while_playing_changes_nothing() {
    let mut g = session_with_food(6, 5);
    g.snake.set_direction(Direction::Up);
    g.restart();
    g.restart_with(Cell::new(1, 1));
    assert_eq!(g.snake.direction, Direction::Up);
    assert_eq!(g.food, Cell::new(6, 5));
}

#[test]
fn clock_fires_when_a_period_passes() {
    let mut c = MovementClock::movement();
    assert_eq!(c.period_ns, 150 * MS);
    assert!(!c.tick(100 * MS));
    assert_eq!(c.elapsed_ns, 100 * MS);
    assert!(c.tick(100 * MS));
    assert_eq!(c.elapsed_ns, 50 * MS);
    assert!(c.tick(100 * MS));
    assert_eq!(c.elapsed_ns, 0);
}

#[test]
fn clock_fires_once_for_many_periods() {
    let mut c = MovementClock::new(150 * MS);
    assert!(c.tick(1000 * MS));
    assert_eq!(c.elapsed_ns, 100 * MS);
    assert!(!c.tick(10 * MS));
    assert_eq!(c.elapsed_ns, 110 * MS);
}

#[test]
fn clock_at_zero_delta_does_not_fire() {
    let mut c = MovementClock::new(7);
    assert!(!c.tick(0));
    assert_eq!(c.elapsed_ns, 0);
}

#[test]
fn frame_moves_only_when_the_clock_fires() {
    let mut g = session_with_food(0, 0);
    g.frame(Some(Direction::Up), 100 * MS);
    assert_eq!(g.head(), Cell::new(5, 5));
    assert_eq!(g.snake.direction, Direction::Up);
    g.frame(None, 60 * MS);
    assert_eq!(g.head(), Cell::new(5, 6));
    assert_eq!(g.clock.elapsed_ns, 10 * MS);
    assert_eq!(g.score(), 1);
}

#[test]
fn frame_eats_and_respawns_on_the_board() {
    let mut g = session_with_food(6, 5);
    g.frame(None, MOVE_PERIOD_NS);
    assert_eq!(g.head(), Cell::new(6, 5));
    assert!(g.snake.growing);
    assert!(g.food.x >= 0 && g.food.x < GRID_WIDTH && g.food.y >= 0 && g.food.y < GRID_HEIGHT);
    g.frame(None, MOVE_PERIOD_NS);
    assert_eq!(g.score(), 2);
}

#[test]
fn new_session_is_ready_to_play() {
    let g = GameSession::new();
    assert_eq!(g.body_cells(), vec![Cell::new(5, 5)]);
    assert_eq!(g.state, GameState::Playing);
    assert_eq!(g.clock.elapsed_ns, 0);
    assert_eq!(g.clock.period_ns, MOVE_PERIOD_NS);
    assert!(g.food.x >= 0 && g.food.x < GRID_WIDTH && g.food.y >= 0 && g.food.y < GRID_HEIGHT);
}
