use snake::direction::{Direction, KeyCode};
use snake::food::Food;
use snake::game::GameState;
use snake::grid::{GridPosition, GRID_HEIGHT, GRID_WIDTH};
use snake::snake::{Ate, Snake};

fn body_positions_of(g: &GameState) -> Vec<GridPosition> {
    g.snake.body.iter().map(|seg| seg.pos).collect()
}

#[test]
fn new_with_seed_starts_in_initial_state() {
    let g = GameState::new_with_seed(42);
    assert_eq!(g.snake.head.pos, GridPosition::new(GRID_WIDTH / 4, GRID_HEIGHT / 2));
    assert_eq!(g.snake.dir, Direction::Right);
    assert!(0 <= g.food.pos.x && g.food.pos.x < GRID_WIDTH);
    assert!(0 <= g.food.pos.y && g.food.pos.y < GRID_HEIGHT);
    assert!(!g.gameover);
}

#[test]
fn new_seeds_from_entropy() {
    let g = GameState::new().expect("entropy should be available");
    assert!(!g.gameover);
    assert!(0 <= g.food.pos.x && g.food.pos.x < GRID_WIDTH);
    assert!(0 <= g.food.pos.y && g.food.pos.y < GRID_HEIGHT);
}

#[test]
fn advance_moves_snake_one_cell() {
    let mut g = GameState::new_with_seed(7);
    g.food = Food::new(GridPosition::new(0, 0));
    let head = g.snake.head.pos;
    g.advance();
    assert_eq!(g.snake.head.pos, GridPosition::new(head.x + 1, head.y));
    assert_eq!(g.food.pos, GridPosition::new(0, 0));
    assert!(!g.gameover);
}

#[test]
fn advance_after_food_respawns_it_and_grows_snake() {
    let mut g = GameState::new_with_seed(7);
    let head = g.snake.head.pos;
    g.food = Food::new(GridPosition::new(head.x + 1, head.y));
    g.advance();
    assert_eq!(g.snake.ate, Some(Ate::Food));
    assert_eq!(body_positions_of(&g).len(), 2);
    assert!(!g.gameover);
    // The food was given a fresh position somewhere on the grid.
    assert!(0 <= g.food.pos.x && g.food.pos.x < GRID_WIDTH);
    assert!(0 <= g.food.pos.y && g.food.pos.y < GRID_HEIGHT);
}

/// Drives the game's snake into itself; returns the game in the tick just
/// before the collision.
fn game_about_to_collide() -> GameState {
    let mut g = GameState::new_with_seed(3);
    let mut s = Snake::new(GridPosition::new(5, 5));
    for food in [(6, 5), (7, 5), (8, 5)] {
        s.update(&Food::new(GridPosition::new(food.0, food.1)));
        assert_eq!(s.ate, Some(Ate::Food));
    }
    let far = Food::new(GridPosition::new(30, 20));
    s.steer(Direction::Up);
    s.update(&far);
    s.steer(Direction::Left);
    s.update(&far);
    s.steer(Direction::Down);
    g.snake = s;
    g.food = far;
    g
}

#[test]
fn self_collision_ends_the_game() {
    let mut g = game_about_to_collide();
    g.advance();
    assert_eq!(g.snake.ate, Some(Ate::Itself));
    assert!(g.gameover);
}

#[test]
fn advance_after_gameover_changes_nothing() {
    let mut g = game_about_to_collide();
    g.advance();
    assert!(g.gameover);
    let head = g.snake.head.pos;
    let body = body_positions_of(&g);
    let food = g.food.pos;
    g.advance();
    g.advance();
    assert!(g.gameover);
    assert_eq!(g.snake.head.pos, head);
    assert_eq!(body_positions_of(&g), body);
    assert_eq!(g.food.pos, food);
}

#[test]
fn direction_input_steers_snake() {
    let mut g = GameState::new_with_seed(11);
    g.on_direction_input(KeyCode::Up);
    assert_eq!(g.snake.dir, Direction::Up);
    g.on_direction_input(KeyCode::Left);
    assert_eq!(g.snake.dir, Direction::Up);
    assert_eq!(g.snake.next_dir, Some(Direction::Left));
}

#[test]
fn unrecognized_key_is_ignored() {
    let mut g = GameState::new_with_seed(11);
    g.on_direction_input(KeyCode::Other);
    assert_eq!(g.snake.dir, Direction::Right);
    assert_eq!(g.snake.next_dir, None);
}

#[test]
fn reversal_key_is_ignored() {
    let mut g = GameState::new_with_seed(11);
    g.on_direction_input(KeyCode::Left);
    assert_eq!(g.snake.dir, Direction::Right);
    assert_eq!(g.snake.next_dir, None);
}
