use vstd::prelude::*;

use crate::food::Food;
use crate::grid::Direction;
use crate::snake::{has_self_collision, Snake};

verus! {

/// The two phases of a game: running, or over after a self-collision.
#[derive(Clone, Copy, Debug, PartialEq, Eq, Structural)]
pub enum GameState {
    Running,
    GameOver,
}

/// The whole game: the snake, the food and the current phase.
pub struct Game {
    pub snake: Snake,
    pub food: Food,
    pub state: GameState,
}

/// The direction a key requests: 'w' up, 's' down, 'a' left, 'd' right; any
/// other key requests nothing.
pub open spec fn key_direction(key: char) -> Option<Direction> {
    if key == 'w' {
        Some(Direction::Up)
    } else if key == 's' {
        Some(Direction::Down)
    } else if key == 'a' {
        Some(Direction::Left)
    } else if key == 'd' {
        Some(Direction::Right)
    } else {
        None
    }
}

/// Maps a pressed key to the direction it requests, if any.
pub fn key_to_direction(key: char) -> (r: Option<Direction>)
    ensures
        r == key_direction(key),
{
    match key {
        'w' => Some(Direction::Up),
        's' => Some(Direction::Down),
        'a' => Some(Direction::Left),
        'd' => Some(Direction::Right),
        _ => None,
    }
}

impl Game {
    /// Well-formedness: snake and food both lie on the grid and the body is
    /// not empty.
    pub open spec fn wf(self) -> bool {
        self.snake.wf() && self.food.wf()
    }

    /// A fresh game: the initial snake, food at its seed cell, running.
    pub fn new() -> (g: Game)
        ensures
            g.wf(),
            g.state is Running,
            g.snake.body@ == seq![(2usize, 2usize), (2usize, 3usize)],
            g.snake.direction == Direction::Right,
            g.snake.next_direction is None,
            g.food.position == (5usize, 5usize),
    {
        Game { snake: Snake::new(), food: Food::new(), state: GameState::Running }
    }

    /// One simulation tick: the snake moves one cell; if it then collides
    /// with itself the game is over; otherwise, if the head reached the
    /// food, the snake grows by that cell at the tail and the food respawns.
    /// The collision check comes strictly before the eat check, and the body
    /// never gets shorter.
    pub fn tick(&mut self) -> (game_over: bool)
        requires
            old(self).wf(),
            old(self).state is Running,
        ensures
            final(self).wf(),
            game_over == has_self_collision(old(self).snake.moved_body()),
            game_over == (final(self).state is GameOver),
            final(self).snake.direction == old(self).snake.applied_dir(),
            final(self).snake.next_direction is None,
            (if game_over {
                final(self).snake.body@ == old(self).snake.moved_body() && final(self).food == old(
                    self,
                ).food
            } else if old(self).snake.moved_body()[0] == old(self).food.position {
                final(self).snake.body@ == old(self).snake.moved_body().push(
                    old(self).food.position,
                )
            } else {
                final(self).snake.body@ == old(self).snake.moved_body() && final(self).food == old(
                    self,
                ).food
            }),
            final(self).snake.body@.len() >= old(self).snake.body@.len(),
    {
        self.snake.move_forward();
        if self.snake.check_collision() {
            self.state = GameState::GameOver;
            return true;
        }
        let head: (usize, usize) = self.snake.body[0];
        if head.0 == self.food.position.0 && head.1 == self.food.position.1 {
            proof {
                assert(head =~= self.food.position);
            }
            let food_pos = self.food.position;
            self.snake.eat(food_pos);
            self.food.spawn();
        }
        false
    }
}

} // verus!
