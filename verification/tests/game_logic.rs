use snake_game::game::Game;
use snake_game::snake::Snake;
use snake_game::cell_origin;
use snake_game::stepped;
use snake_game::Cell;
use snake_game::Direction;

fn cell(x: i32, y: i32) -> Cell {
    Cell { x, y }
}

fn game_with(body: Vec<Cell>, dir: Direction, food: Cell) -> Game {
    Game { snake: Snake { body, dir }, food, running: true }
}

#[test]
fn new_game_initial_state() {
    let g = Game::new(cell(5, 5));
    assert_eq!(g.snake.body, vec![cell(0, 0), cell(0, 1)]);
    assert_eq!(g.snake.dir, Direction::Right);
    assert_eq!(g.food, cell(5, 5));
    assert!(g.running);
}

#[test]
fn stepped_moves_one_cell() {
    assert_eq!(stepped(cell(3, 4), Direction::Right), cell(4, 4));
    assert_eq!(stepped(cell(3, 4), Direction::Left), cell(2, 4));
    assert_eq!(stepped(cell(3, 4), Direction::Up), cell(3, 3));
    assert_eq!(stepped(cell(3, 4), Direction::Down), cell(3, 5));
}

#[test]
fn set_direction_rejects_reversal() {
    let mut s = Snake::new();
    assert_eq!(s.dir, Direction::Right);
    s.set_direction(Direction::Left);
    assert_eq!(s.dir, Direction::Right);
    s.set_direction(Direction::Up);
    assert_eq!(s.dir, Direction::Up);
    let mut s = Snake::new();
    s.set_direction(Direction::Down);
    assert_eq!(s.dir, Direction::Down);
    let mut s = Snake::new();
    s.set_direction(Direction::Right);
    assert_eq!(s.dir, Direction::Right);
}

#[test]
fn snake_update_moves_without_growth() {
    let mut s = Snake::new();
    s.update();
    assert_eq!(s.body, vec![cell(1, 0), cell(0, 0)]);
}

#[test]
fn add_head_grows_by_one() {
    let mut s = Snake::new();
    s.add_head();
    assert_eq!(s.body, vec![cell(1, 0), cell(0, 0), cell(0, 1)]);
}

#[test]
fn self_collision_transitions_to_over() {
    // The head sits on a non-head body cell; the next tick must stop play.
    let body = vec![cell(2, 2), cell(2, 3), cell(3, 3), cell(3, 2), cell(2, 2)];
    let mut g = game_with(body.clone(), Direction::Up, cell(9, 9));
    g.update();
    assert!(!g.running);
    assert_eq!(g.snake.body, body);
}

#[test]
fn left_wall_transitions_to_over() {
    // Loss is checked before movement, so the head leaves the grid on the
    // first tick and the second tick detects it.
    let mut g = game_with(vec![cell(0, 5), cell(1, 5)], Direction::Left, cell(9, 9));
    g.update();
    assert!(g.running);
    assert_eq!(g.snake.body, vec![cell(-1, 5), cell(0, 5)]);
    g.update();
    assert!(!g.running);
}

#[test]
fn right_wall_detected_one_tick_late() {
    let mut g = game_with(vec![cell(19, 0), cell(18, 0)], Direction::Right, cell(9, 9));
    g.update();
    assert!(g.running);
    assert_eq!(g.snake.body, vec![cell(20, 0), cell(19, 0)]);
    g.update();
    assert!(!g.running);
}

#[test]
fn eating_grows_by_one_and_moves_food() {
    let mut g = game_with(vec![cell(2, 2), cell(1, 2)], Direction::Right, cell(2, 2));
    g.update();
    assert!(g.running);
    assert_eq!(g.snake.body, vec![cell(4, 2), cell(3, 2), cell(2, 2)]);
    // The fresh food lies on the grid and off the grown body.
    assert!(g.food.x >= 0 && g.food.x < 20 && g.food.y >= 0 && g.food.y < 20);
    for c in [cell(3, 2), cell(2, 2), cell(1, 2)] {
        assert_ne!(g.food, c);
    }
}

#[test]
fn over_is_terminal() {
    let mut g = game_with(vec![cell(2, 2), cell(2, 2)], Direction::Right, cell(9, 9));
    g.update();
    assert!(!g.running);
    let body = g.snake.body.clone();
    g.update();
    assert!(!g.running);
    assert_eq!(g.snake.body, body);
    assert_eq!(g.food, cell(9, 9));
}

#[test]
fn check_for_lose_out_of_bounds() {
    let mut g = game_with(vec![cell(0, 0), cell(0, 1)], Direction::Right, cell(9, 9));
    g.check_for_lose(cell(-1, 0));
    assert!(!g.running);
    let mut g = game_with(vec![cell(0, 0), cell(0, 1)], Direction::Right, cell(9, 9));
    g.check_for_lose(cell(0, 20));
    assert!(!g.running);
    let mut g = game_with(vec![cell(0, 0), cell(0, 1)], Direction::Right, cell(9, 9));
    g.check_for_lose(cell(0, 0));
    assert!(g.running);
}

#[test]
fn food_sampling_avoids_half_grid_body() {
    // A snake covering the lower half of the grid: food must always land
    // outside it.
    let mut body = Vec::new();
    for x in 0..20 {
        for y in 0..10 {
            body.push(cell(x, y));
        }
    }
    let g = game_with(body.clone(), Direction::Right, cell(0, 15));
    for _ in 0..1000 {
        let f = g.calculate_food_pos();
        assert!(f.x >= 0 && f.x < 20 && f.y >= 0 && f.y < 20);
        assert!(!body.contains(&f));
    }
}

#[test]
fn five_ticks_from_start() {
    let mut g = Game::new(cell(5, 5));
    for _ in 0..5 {
        g.update();
    }
    assert_eq!(g.snake.body[0], cell(5, 0));
    assert_eq!(g.snake.body.len(), 2);
    assert!(g.running);
    assert_eq!(g.food, cell(5, 5));
}

#[test]
fn cell_origin_scales_by_cell_size() {
    assert_eq!(cell_origin(cell(3, 4)), (60, 80));
    assert_eq!(cell_origin(cell(0, 0)), (0, 0));
    assert_eq!(cell_origin(cell(-1, 19)), (-20, 380));
}
