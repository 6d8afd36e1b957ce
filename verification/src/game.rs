//! The game state and its per-tick transition: one snake, one food, a
//! game-over flag and the pseudo-random source for food placement.

use vstd::prelude::*;
use oorandom::Rand32;
use crate::direction::{Direction, KeyCode};
use crate::food::Food;
use crate::grid::{GridPosition, GRID_HEIGHT, GRID_WIDTH};
use crate::rng::{entropy_seed, rand32_new};
use crate::snake::{Ate, Snake, SnakeModel};

verus! {

/// The one startup failure: the operating system would not supply entropy
/// to seed the random source. It is fatal by design — a fixed fallback seed
/// would silently break the randomness of food placement.
#[derive(Clone, Copy, Debug, PartialEq, Eq, Structural)]
pub struct SeedError;

/// The mathematical state of a game: the snake's model, the food's position
/// and the game-over flag. The random source is deliberately absent — its
/// draws are opaque, and the contracts promise only bounds on them.
#[verifier::ext_equal]
pub ghost struct GameModel {
    pub snake: SnakeModel,
    pub food: GridPosition,
    pub gameover: bool,
}

impl GameModel {
    /// The snake is well formed and the food lies on the grid.
    pub open spec fn wf(self) -> bool {
        &&& self.snake.wf()
        &&& self.food.in_bounds()
    }

    /// A freshly constructed game: the snake starts a quarter of the way
    /// across and halfway down the grid, moving right; the food lies
    /// somewhere on the grid; the game is not over.
    pub open spec fn initial(self) -> bool {
        &&& self.snake == Snake::initial_model(GridPosition {
            x: (GRID_WIDTH as int / 4) as i16,
            y: (GRID_HEIGHT as int / 2) as i16,
        })
        &&& self.food.in_bounds()
        &&& !self.gameover
    }
}

/// All state of one game session. `snake`, `food` and `gameover` are the
/// read-only render surface; the random source stays private.
pub struct GameState {
    pub snake: Snake,
    pub food: Food,
    pub gameover: bool,
    rng: Rand32,
}

impl View for GameState {
    type V = GameModel;

    closed spec fn view(&self) -> GameModel {
        GameModel { snake: self.snake@, food: self.food.pos, gameover: self.gameover }
    }
}

impl GameState {
    /// Builds the initial game state from the given seed: the snake at its
    /// start position and the food at a position drawn from a generator
    /// seeded with `seed`.
    pub fn new_with_seed(seed: u64) -> (r: Self)
        ensures
            r@.wf(),
            r@.initial(),
    {
        let snake_pos = GridPosition::new(GRID_WIDTH / 4, GRID_HEIGHT / 2);
        let mut rng = rand32_new(seed);
        let food_pos = GridPosition::random(&mut rng, GRID_WIDTH, GRID_HEIGHT);
        GameState {
            snake: Snake::new(snake_pos),
            food: Food::new(food_pos),
            gameover: false,
            rng,
        }
    }

    /// Builds the initial game state, seeding the random source once from
    /// operating-system entropy. Fails exactly when the entropy source does,
    /// and that failure is fatal: no game state exists then.
    pub fn new() -> (r: Result<Self, SeedError>)
        ensures
            (match r {
                Ok(g) => g@.wf() && g@.initial(),
                Err(_) => true,
            }),
    {
        match entropy_seed() {
            Ok(seed) => Ok(Self::new_with_seed(seed)),
            Err(e) => Err(e),
        }
    }

    /// One simulation step of the fixed-tick loop. When the game is already
    /// over nothing changes. Otherwise the snake runs one tick against the
    /// current food; a food consumption moves the food to a fresh spot on
    /// the grid, a self-collision ends the game, and any other outcome
    /// leaves food and flag alone.
    pub fn advance(&mut self)
        requires
            old(self)@.wf(),
        ensures
            final(self)@.wf(),
            old(self)@.gameover ==> final(self)@ == old(self)@,
            !old(self)@.gameover ==> ({
                let stepped = old(self)@.snake.step(old(self)@.food);
                &&& final(self)@.snake == stepped
                &&& (stepped.ate == Some(Ate::Itself) ==> final(self)@.gameover
                    && final(self)@.food == old(self)@.food)
                &&& (stepped.ate == Some(Ate::Food) ==> !final(self)@.gameover
                    && final(self)@.food.in_bounds())
                &&& (stepped.ate.is_none() ==> !final(self)@.gameover
                    && final(self)@.food == old(self)@.food)
            }),
    {
        if self.gameover {
            return;
        }
        self.snake.update(&self.food);
        match self.snake.ate {
            Some(Ate::Food) => {
                let new_food_pos = GridPosition::random(&mut self.rng, GRID_WIDTH, GRID_HEIGHT);
                self.food.pos = new_food_pos;
            },
            Some(Ate::Itself) => {
                self.gameover = true;
            },
            None => {},
        }
    }

    /// Delivers one discrete key press to the core: an arrow key steers the
    /// snake per the input-buffering policy, every other key is ignored.
    /// Food and game-over flag are untouched.
    pub fn on_direction_input(&mut self, key: KeyCode)
        ensures
            old(self)@.wf() ==> final(self)@.wf(),
            final(self)@.food == old(self)@.food,
            final(self)@.gameover == old(self)@.gameover,
            final(self)@.snake == (match Direction::from_keycode_spec(key) {
                Some(d) => old(self)@.snake.steer(d),
                None => old(self)@.snake,
            }),
    {
        if let Some(d) = Direction::from_keycode(key) {
            self.snake.steer(d);
        }
    }
}

} // verus!
