use snake_core::game::GameState;
use snake_core::grid::{Direction, Food};
use snake_core::snake::Snake;

fn two_cell_game(head: (i32, i32), food: Food) -> GameState {
    let cells = vec![head, (head.0 - 1, head.1)];
    GameState::new(40, 30, &cells, Direction::Right, food)
}

#[test]
fn travel_grows_by_one_in_each_direction() {
    let dirs = [
        Direction::Up,
        Direction::Down,
        Direction::Left,
        Direction::Right,
    ];
    let offsets = [(0, -1), (0, 1), (-1, 0), (1, 0)];
    for (d, (ox, oy)) in dirs.iter().zip(offsets.iter()) {
        let cells = vec![(5, 5), (4, 5)];
        let mut snake = Snake::new(&cells);
        snake.travel(*d);
        assert_eq!(snake.len(), 3);
        assert_eq!(snake.head(), (5 + ox, 5 + oy));
        assert_eq!(snake.cell(1), (5, 5));
        assert_eq!(snake.cell(2), (4, 5));
    }
}

#[test]
fn eat_on_food_keeps_tail_and_reports_eaten() {
    let cells = vec![(3, 3), (2, 3)];
    let mut snake = Snake::new(&cells);
    snake.travel(Direction::Right);
    let food_remains = snake.eat(Food { x: 4, y: 3 });
    assert!(!food_remains);
    assert_eq!(snake.len(), 3);
    assert_eq!(snake.cells(), vec![(4, 3), (3, 3), (2, 3)]);
}

#[test]
fn eat_off_food_pops_tail_and_reports_remains() {
    let cells = vec![(3, 3), (2, 3)];
    let mut snake = Snake::new(&cells);
    snake.travel(Direction::Right);
    let food_remains = snake.eat(Food { x: 9, y: 9 });
    assert!(food_remains);
    assert_eq!(snake.len(), 2);
    assert_eq!(snake.cells(), vec![(4, 3), (3, 3)]);
}

#[test]
fn opposite_direction_is_rejected_repeatedly() {
    let mut game = two_cell_game((5, 5), Food { x: 9, y: 9 });
    assert_eq!(game.dir, Direction::Right);
    for _ in 0..10 {
        game.set_direction(Direction::Left);
        assert_eq!(game.dir, Direction::Right);
    }
}

#[test]
fn perpendicular_turn_succeeds_then_reverse_is_rejected() {
    let mut game = two_cell_game((5, 5), Food { x: 9, y: 9 });
    game.set_direction(Direction::Up);
    assert_eq!(game.dir, Direction::Up);
    game.set_direction(Direction::Down);
    assert_eq!(game.dir, Direction::Up);
}

#[test]
fn update_onto_food_grows_and_respawns_food() {
    let cells = vec![(1, 15), (0, 15)];
    let mut game = GameState::new(40, 30, &cells, Direction::Right, Food { x: 2, y: 15 });
    game.update();
    assert_eq!(game.snake.cells(), vec![(2, 15), (1, 15), (0, 15)]);
    assert!(1 <= game.food.x && game.food.x <= 38);
    assert!(1 <= game.food.y && game.food.y <= 28);
}

#[test]
fn update_off_food_keeps_length_and_food() {
    let cells = vec![(5, 5), (4, 5)];
    let mut game = GameState::new(40, 30, &cells, Direction::Right, Food { x: 9, y: 9 });
    game.update();
    assert_eq!(game.snake.cells(), vec![(6, 5), (5, 5)]);
    assert_eq!(game.food, Food { x: 9, y: 9 });
}

#[test]
fn smallest_playfield_forces_the_single_interior_cell() {
    // On a 3x3 playfield the interior is the single cell (1, 1), so every
    // random draw must land exactly there.
    for _ in 0..50 {
        let game = GameState::start(3, 3);
        assert_eq!(game.food, Food { x: 1, y: 1 });
    }
}

#[test]
fn random_food_stays_interior_and_varies() {
    let mut seen = Vec::new();
    for _ in 0..300 {
        let game = GameState::start(10, 10);
        assert!(1 <= game.food.x && game.food.x <= 8);
        assert!(1 <= game.food.y && game.food.y <= 8);
        if !seen.contains(&(game.food.x, game.food.y)) {
            seen.push((game.food.x, game.food.y));
        }
    }
    assert!(seen.len() > 1);
}

#[test]
fn start_places_snake_at_left_edge_mid_height() {
    let game = GameState::start(40, 30);
    assert_eq!(game.snake.cells(), vec![(1, 15), (0, 15)]);
    assert_eq!(game.dir, Direction::Right);
    assert_eq!(game.width, 40);
    assert_eq!(game.height, 30);
}

#[test]
fn growth_is_monotonic_over_many_ticks() {
    let mut game = GameState::start(40, 30);
    let mut len = game.snake.len();
    for tick in 0..200 {
        // Steer in a clockwise box so the head stays within bounds.
        match tick % 40 {
            10 => game.set_direction(Direction::Down),
            20 => game.set_direction(Direction::Left),
            30 => game.set_direction(Direction::Up),
            0 => game.set_direction(Direction::Right),
            _ => {}
        }
        game.update();
        assert!(game.snake.len() >= len);
        len = game.snake.len();
    }
}
