use std::collections::VecDeque;

use snake_game::food::Food;
use snake_game::game::{key_to_direction, Game, GameState};
use snake_game::grid::{Direction, HEIGHT, WIDTH};
use snake_game::render::render;
use snake_game::snake::Snake;

fn game_with(cells: Vec<(usize, usize)>, direction: Direction, food: (usize, usize)) -> Game {
    Game {
        snake: Snake { body: VecDeque::from(cells), direction, next_direction: None },
        food: Food { position: food },
        state: GameState::Running,
    }
}

#[test]
fn initial_game() {
    let g = Game::new();
    assert_eq!(g.state, GameState::Running);
    assert_eq!(g.snake.body, VecDeque::from(vec![(2, 2), (2, 3)]));
    assert_eq!(g.food.position, (5, 5));
}

#[test]
fn tick_moves_without_incident() {
    let mut g = Game::new();
    let over = g.tick();
    assert!(!over);
    assert_eq!(g.state, GameState::Running);
    assert_eq!(g.snake.body, VecDeque::from(vec![(3, 2), (2, 2)]));
    assert_eq!(g.food.position, (5, 5));
}

#[test]
fn tick_eats_food_and_respawns_it() {
    let mut g = game_with(vec![(4, 5), (3, 5)], Direction::Right, (5, 5));
    let over = g.tick();
    assert!(!over);
    assert_eq!(g.state, GameState::Running);
    assert_eq!(g.snake.body, VecDeque::from(vec![(5, 5), (4, 5), (5, 5)]));
    assert!(g.food.position.0 < WIDTH);
    assert!(g.food.position.1 < HEIGHT);
}

#[test]
fn tick_collision_ends_game() {
    let mut g = game_with(vec![(1, 1), (1, 2), (2, 2), (2, 1)], Direction::Down, (9, 9));
    let over = g.tick();
    assert!(over);
    assert_eq!(g.state, GameState::GameOver);
    assert_eq!(g.snake.body, VecDeque::from(vec![(1, 2), (1, 1), (1, 2), (2, 2)]));
    assert_eq!(g.food.position, (9, 9));
}

#[test]
fn length_never_shrinks_over_many_ticks() {
    let mut g = Game::new();
    let mut len = g.snake.body.len();
    for i in 0..500 {
        if g.state == GameState::GameOver {
            break;
        }
        g.tick();
        assert!(g.snake.body.len() >= len);
        len = g.snake.body.len();
        if i % 7 == 3 {
            g.snake.change_direction(Direction::Down);
        } else if i % 7 == 5 {
            g.snake.change_direction(Direction::Right);
        }
    }
}

#[test]
fn place_from_reduces_draws_modulo_bounds() {
    let mut f = Food::new();
    f.place_from(43, 47);
    assert_eq!(f.position, (3, 7));
    f.place_from(0, 0);
    assert_eq!(f.position, (0, 0));
    f.place_from(19, 9);
    assert_eq!(f.position, (19, 9));
    f.place_from(u64::MAX, u64::MAX);
    assert_eq!(f.position, (15, 5));
}

#[test]
fn food_respawns_in_bounds() {
    let mut f = Food::new();
    assert_eq!(f.position, (5, 5));
    for _ in 0..200 {
        f.spawn();
        assert!(f.position.0 < WIDTH);
        assert!(f.position.1 < HEIGHT);
    }
}

#[test]
fn keys_map_to_directions() {
    assert_eq!(key_to_direction('w'), Some(Direction::Up));
    assert_eq!(key_to_direction('s'), Some(Direction::Down));
    assert_eq!(key_to_direction('a'), Some(Direction::Left));
    assert_eq!(key_to_direction('d'), Some(Direction::Right));
    assert_eq!(key_to_direction('x'), None);
    assert_eq!(key_to_direction('\n'), None);
}

#[test]
fn render_draws_snake_food_and_blanks() {
    let g = game_with(vec![(2, 2), (2, 3)], Direction::Right, (5, 5));
    let drawn = render(&g.snake, &g.food);
    let mut expected = String::new();
    for y in 0..HEIGHT {
        for x in 0..WIDTH {
            if (x, y) == (2, 2) || (x, y) == (2, 3) {
                expected.push('■');
            } else if (x, y) == (5, 5) {
                expected.push('●');
            } else {
                expected.push(' ');
            }
        }
        expected.push('\n');
    }
    assert_eq!(drawn, expected);
}

#[test]
fn render_snake_covers_food() {
    let g = game_with(vec![(5, 5), (4, 5)], Direction::Right, (5, 5));
    let drawn = render(&g.snake, &g.food);
    let row: String = drawn.lines().nth(5).unwrap().to_string();
    let chars: Vec<char> = row.chars().collect();
    assert_eq!(chars[5], '■');
    assert_eq!(chars[4], '■');
    assert_eq!(chars.len(), WIDTH);
    assert_eq!(drawn.lines().count(), HEIGHT);
}
