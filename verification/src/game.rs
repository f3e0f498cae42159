//! The game: a world and a snake stepped at a fixed rate, and the screens
//! around them.

use vstd::prelude::*;
use crate::grid::{Keys, Vec2i};
use crate::snake::{Snake, SnakeView};
use crate::world::World;

verus! {

/// The unit of time that a game counts in.
pub const MICROS_PER_SECOND: u64 = 1_000_000;

/// The side of a grid cell, in pixels, that a new game gives its snake.
pub const CELL_SIZE: u16 = 32;

/// The lives that a game starts with.
pub const START_LIVES: u16 = 3;

/// A running game.
#[derive(Debug)]
pub struct Game {
    pub world: World,
    pub snake: Snake,
    /// Microseconds that have passed and have not yet been spent on a step.
    pub elapsed: u64,
}

/// What a [`Game`] is, with the snake as a [`SnakeView`].
#[verifier::ext_equal]
pub struct GameView {
    pub world: World,
    pub snake: SnakeView,
    pub elapsed: u64,
}

impl View for Game {
    type V = GameView;

    open spec fn view(&self) -> GameView {
        GameView { world: self.world, snake: self.snake@, elapsed: self.elapsed }
    }
}

/// The screen that is shown.
#[derive(Clone, Copy, Debug, PartialEq, Eq, Structural)]
pub enum GameState {
    Menu,
    Game,
    Dead,
}

/// The length of one simulation step in microseconds at `speed` steps a
/// second.
pub open spec fn timestep(speed: u16) -> int
    recommends
        speed > 0,
{
    MICROS_PER_SECOND as int / speed as int
}

impl GameView {
    /// A game is well formed when its world and its snake are.
    pub open spec fn wf(self) -> bool {
        self.world.wf() && self.snake.wf()
    }

    /// Whether a step is due once `frame_time` more microseconds have
    /// passed: the time that has gathered is a whole [`timestep`] or more. A
    /// snake of speed zero never steps.
    pub open spec fn tick_due(self, frame_time: u64) -> bool {
        &&& self.snake.speed > 0
        &&& self.elapsed + frame_time >= timestep(self.snake.speed)
    }

    /// The snake after it has turned and moved in a step.
    pub open spec fn moved(self, keys: Keys) -> SnakeView {
        self.snake.steered(keys).advanced()
    }

    /// Whether the snake reaches the item in a step.
    pub open spec fn eats(self, keys: Keys) -> bool {
        self.moved(keys).head() == self.world.item
    }

    /// The snake after it has moved and, where it reached the item, grown
    /// and scored.
    pub open spec fn fed(self, keys: Keys) -> SnakeView {
        if self.eats(keys) {
            self.moved(keys).grown().scored()
        } else {
            self.moved(keys)
        }
    }

    /// Whether the snake bites itself in a step.
    pub open spec fn bitten(self, keys: Keys) -> bool {
        self.fed(keys).collides()
    }

    /// The snake at the end of a step: moved, fed, and where it bit itself,
    /// cut and one life poorer.
    pub open spec fn stepped_snake(self, keys: Keys) -> SnakeView {
        if self.bitten(keys) {
            self.fed(keys).after_collision().wounded()
        } else {
            self.fed(keys)
        }
    }

    /// Whether [`Game::update`] can be carried out with numbers of the
    /// machine on a well-formed game: the clock does not run over, and where
    /// a step is due the head and the new tail stay within `i32`, the score
    /// within `u16`, and a bite finds a life to take.
    pub open spec fn can_update(self, frame_time: u64, keys: Keys) -> bool {
        &&& self.wf()
        &&& self.elapsed + frame_time <= u64::MAX
        &&& self.tick_due(frame_time) ==> {
            &&& self.snake.steered(keys).can_advance()
            &&& self.eats(keys) ==> self.moved(keys).can_grow() && self.moved(keys).score
                < u16::MAX
            &&& self.bitten(keys) ==> self.snake.lives > 0
        }
    }

    /// Whether `next` is a game that [`Game::update`] may leave behind.
    ///
    /// The frame's time is added to the clock. Where no step is due nothing
    /// else changes. Where one is due, exactly one step is made, however much
    /// time has gathered: the snake becomes [`GameView::stepped_snake`], one
    /// [`timestep`] is taken off the clock, and the item is drawn anew if it
    /// was eaten or the space key is held and stays where it is otherwise.
    pub open spec fn updated(self, frame_time: u64, keys: Keys, next: GameView) -> bool {
        if self.tick_due(frame_time) {
            &&& next.snake == self.stepped_snake(keys)
            &&& next.elapsed == self.elapsed + frame_time - timestep(self.snake.speed)
            &&& next.world == self.world.with_item(next.world.item)
            &&& self.eats(keys) || keys.space ==> next.world.spawnable(next.world.item)
            &&& !(self.eats(keys) || keys.space) ==> next.world.item == self.world.item
        } else {
            &&& next.snake == self.snake
            &&& next.elapsed == self.elapsed + frame_time
            &&& next.world == self.world
        }
    }

    /// The same game with its lives and its score as at the start. The body
    /// of the snake, its heading and the item stay as they are.
    pub open spec fn reset(self) -> GameView {
        GameView { snake: SnakeView { lives: START_LIVES, score: 0, ..self.snake }, ..self }
    }
}

impl Game {
    /// A game for a window of the given size in pixels: a fresh snake, an
    /// item placed at random, and a clock at zero.
    pub fn new(window_size: Vec2i) -> (g: Game)
        requires
            window_size.x >= 0,
            window_size.y >= 0,
        ensures
            g@.wf(),
            g@.snake == SnakeView::initial(CELL_SIZE),
            g@.elapsed == 0,
            g@.world.window_size == window_size,
            g@.world.block_size == crate::world::BLOCK_SIZE,
            g@.world.spawnable(g@.world.item),
    {
        Game { world: World::new(window_size), snake: Snake::new(CELL_SIZE), elapsed: 0 }
    }

    /// Computes [`GameView::wf`].
    pub fn is_well_formed(&self) -> (ok: bool)
        ensures
            ok == self@.wf(),
    {
        self.world.is_well_formed() && self.snake.size >= 1
    }

    /// Computes [`GameView::tick_due`].
    pub fn tick_due(&self, frame_time: u64) -> (due: bool)
        requires
            self.elapsed + frame_time <= u64::MAX,
        ensures
            due == self@.tick_due(frame_time),
    {
        if self.snake.speed == 0 {
            false
        } else {
            let step: u64 = MICROS_PER_SECOND / (self.snake.speed as u64);
            self.elapsed + frame_time >= step
        }
    }

    /// Computes [`GameView::can_update`].
    pub fn can_update(&self, frame_time: u64, keys: Keys) -> (ok: bool)
        ensures
            ok == self@.can_update(frame_time, keys),
    {
        if !self.is_well_formed() || frame_time > u64::MAX - self.elapsed {
            return false;
        }
        if !self.tick_due(frame_time) {
            return true;
        }
        let mut snake: Snake = self.snake.clone();
        snake.direction = snake.direction.steer(keys);
        if !snake.can_advance() {
            return false;
        }
        snake.advance();
        if snake.get_position() == self.world.item {
            if !snake.can_grow() || snake.score == u16::MAX {
                return false;
            }
            snake.grow();
            snake.score = snake.score + 1;
        }
        let lives: u16 = snake.lives;
        let bitten: bool = snake.check_collisions();
        !bitten || lives > 0
    }

    /// Lets `frame_time` microseconds pass and makes a step of the
    /// simulation if one is due.
    ///
    /// A step turns and moves the snake, lets it eat, and takes a life if it
    /// then has bitten itself. At most one step is made in a call; time
    /// beyond one [`timestep`] stays on the clock.
    pub fn update(&mut self, frame_time: u64, keys: Keys)
        requires
            old(self)@.can_update(frame_time, keys),
        ensures
            final(self)@.wf(),
            old(self)@.updated(frame_time, keys, final(self)@),
            !old(self)@.tick_due(frame_time) ==> final(self)@ == (GameView {
                elapsed: (old(self).elapsed + frame_time) as u64,
                ..old(self)@
            }),
            final(self)@.snake.lives == if old(self)@.tick_due(frame_time) && old(self)@.bitten(
                keys,
            ) {
                old(self)@.snake.lives - 1
            } else {
                old(self)@.snake.lives as int
            },
    {
        self.elapsed = self.elapsed + frame_time;
        if self.snake.speed == 0 {
            return ;
        }
        let step: u64 = MICROS_PER_SECOND / (self.snake.speed as u64);
        if self.elapsed >= step {
            self.snake.update(keys);
            self.world.update(&mut self.snake, keys.space);
            self.elapsed = self.elapsed - step;
            if self.snake.check_collisions() {
                self.snake.lives = self.snake.lives - 1;
            }
        }
    }

    /// Gives the player the lives and the score of a new game. Nothing else
    /// is touched: the snake keeps its body and heading, the item its cell.
    pub fn reset(&mut self)
        ensures
            final(self)@ == old(self)@.reset(),
            old(self)@.wf() ==> final(self)@.wf(),
    {
        self.snake.lives = START_LIVES;
        self.snake.score = 0;
    }
}

impl GameState {
    /// The screen after a frame in which `space` may be held and the player
    /// is left with `lives` lives.
    ///
    /// The menu and the end screen give way to the game when the space key
    /// is held. The game gives way to the end screen when no life is left.
    pub open spec fn followed_by(self, space: bool, lives: u16) -> GameState {
        match self {
            GameState::Menu => if space {
                GameState::Game
            } else {
                GameState::Menu
            },
            GameState::Dead => if space {
                GameState::Game
            } else {
                GameState::Dead
            },
            GameState::Game => if lives == 0 {
                GameState::Dead
            } else {
                GameState::Game
            },
        }
    }

    /// Processes one frame and says which screen comes next.
    ///
    /// On the menu nothing happens to the game. On the end screen the space
    /// key resets the game before play goes on. While the game is on, it is
    /// updated, and the lives that are left afterwards decide whether it is
    /// over.
    pub fn step(self, game: &mut Game, frame_time: u64, keys: Keys) -> (next: GameState)
        requires
            self == GameState::Game ==> old(game)@.can_update(frame_time, keys),
        ensures
            old(game)@.wf() ==> final(game)@.wf(),
            next == self.followed_by(keys.space, final(game)@.snake.lives),
            self == GameState::Menu ==> final(game)@ == old(game)@,
            self == GameState::Dead ==> final(game)@ == if keys.space {
                old(game)@.reset()
            } else {
                old(game)@
            },
            self == GameState::Game ==> old(game)@.updated(frame_time, keys, final(game)@),
    {
        match self {
            GameState::Menu => {
                if keys.space {
                    GameState::Game
                } else {
                    GameState::Menu
                }
            },
            GameState::Dead => {
                if keys.space {
                    game.reset();
                    GameState::Game
                } else {
                    GameState::Dead
                }
            },
            GameState::Game => {
                game.update(frame_time, keys);
                if game.snake.lives == 0 {
                    GameState::Dead
                } else {
                    GameState::Game
                }
            },
        }
    }
}

} // verus!
