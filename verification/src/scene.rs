//! What there is to paint: the shapes of the snake and the item in pixels,
//! and the texts of each screen.

use vstd::prelude::*;
use vstd::string::StringExecFns;
use crate::game::{Game, GameState};
use crate::snake::{Snake, SnakeView};
use crate::world::World;

verus! {

/// A filled square, given by its top left corner and its side in pixels.
#[derive(Clone, Copy, Debug, PartialEq, Eq, Structural)]
pub struct Square {
    pub x: i64,
    pub y: i64,
    pub side: u16,
    /// Whether this is the head of the snake, which has a colour of its own.
    pub head: bool,
}

/// A filled circle, given by its centre and its diameter in pixels.
#[derive(Clone, Copy, Debug, PartialEq, Eq, Structural)]
pub struct Disc {
    pub x: i64,
    pub y: i64,
    pub diameter: i32,
}

/// A line of text with the place of its baseline's start and its font size.
#[derive(Debug)]
pub struct Label {
    pub text: String,
    pub x: u16,
    pub y: u16,
    pub font_size: u16,
}

/// All that is painted while the game is on.
#[derive(Debug)]
pub struct Scene {
    pub item: Disc,
    pub snake: Vec<Square>,
    pub lives: Label,
    pub score: Label,
}

/// Left edge of the two counters.
pub const HUD_X: u16 = 30;

/// Baseline of the counter of lives.
pub const LIVES_Y: u16 = 30;

/// Baseline of the counter of the score.
pub const SCORE_Y: u16 = 60;

/// Font size of every text.
pub const FONT_SIZE: u16 = 30;

/// The character of a decimal digit.
pub open spec fn digit(d: int) -> char
    recommends
        0 <= d < 10,
{
    if d == 0 {
        '0'
    } else if d == 1 {
        '1'
    } else if d == 2 {
        '2'
    } else if d == 3 {
        '3'
    } else if d == 4 {
        '4'
    } else if d == 5 {
        '5'
    } else if d == 6 {
        '6'
    } else if d == 7 {
        '7'
    } else if d == 8 {
        '8'
    } else {
        '9'
    }
}

/// A number written in decimal, without leading zeros.
pub open spec fn decimal(n: nat) -> Seq<char>
    decreases n,
{
    if n < 10 {
        seq![digit(n as int)]
    } else {
        decimal(n / 10).push(digit((n % 10) as int))
    }
}

/// The text of the counter of lives.
pub open spec fn lives_text(lives: u16) -> Seq<char> {
    "Lives: "@ + decimal(lives as nat)
}

/// The text of the counter of the score.
pub open spec fn score_text(score: u16) -> Seq<char> {
    "Score: "@ + decimal(score as nat)
}

/// The text of the menu.
pub open spec fn menu_text() -> Seq<char> {
    "Welcome to the Snake game! Press Space to start"@
}

/// The text of the end screen.
pub open spec fn dead_text(score: u16) -> Seq<char> {
    "You lost the game! Score: "@ + decimal(score as nat)
}

/// The one-character text of a digit.
fn digit_str(d: u16) -> (s: &'static str)
    requires
        d < 10,
    ensures
        s@ == seq![digit(d as int)],
{
    proof {
        reveal_strlit("0");
        reveal_strlit("1");
        reveal_strlit("2");
        reveal_strlit("3");
        reveal_strlit("4");
        reveal_strlit("5");
        reveal_strlit("6");
        reveal_strlit("7");
        reveal_strlit("8");
        reveal_strlit("9");
    }
    if d == 0 {
        "0"
    } else if d == 1 {
        "1"
    } else if d == 2 {
        "2"
    } else if d == 3 {
        "3"
    } else if d == 4 {
        "4"
    } else if d == 5 {
        "5"
    } else if d == 6 {
        "6"
    } else if d == 7 {
        "7"
    } else if d == 8 {
        "8"
    } else {
        "9"
    }
}

/// Writes `n` in decimal behind what `text` holds.
pub fn push_decimal(text: &mut String, n: u16)
    ensures
        final(text)@ == old(text)@ + decimal(n as nat),
    decreases n,
{
    if n >= 10 {
        push_decimal(text, n / 10);
    }
    text.append(digit_str(n % 10));
}

/// `prefix` followed by `n` in decimal.
pub fn counter(prefix: &str, n: u16) -> (text: String)
    ensures
        text@ == prefix@ + decimal(n as nat),
{
    let mut text: String = String::from_str(prefix);
    push_decimal(&mut text, n);
    text
}

impl SnakeView {
    /// The square that is painted for segment `i` of the body: the cell's
    /// coordinates in pixels, with one pixel left free at the right and at
    /// the bottom.
    pub open spec fn square(self, i: int) -> Square {
        Square {
            x: (self.body[i].x * self.size) as i64,
            y: (self.body[i].y * self.size) as i64,
            side: (self.size - 1) as u16,
            head: i == 0,
        }
    }

    /// The squares of all segments, head first.
    pub open spec fn squares(self) -> Seq<Square> {
        Seq::new(self.body.len(), |i: int| self.square(i))
    }
}

impl World {
    /// The circle that is painted for the item: it fills the item's cell.
    pub open spec fn disc(self) -> Disc {
        Disc {
            x: (self.item.x * self.block_size + self.block_size / 2) as i64,
            y: (self.item.y * self.block_size + self.block_size / 2) as i64,
            diameter: self.block_size,
        }
    }

    /// Computes [`World::disc`].
    pub fn draw(&self) -> (d: Disc)
        requires
            self.wf(),
        ensures
            d == self.disc(),
            d.x == self.item.x * self.block_size + self.block_size / 2,
            d.y == self.item.y * self.block_size + self.block_size / 2,
    {
        let block: i64 = self.block_size as i64;
        let half: i64 = block / 2;
        let x: i64 = self.item.x as i64;
        let y: i64 = self.item.y as i64;
        assert(-0x4000_0000_0000_0000 <= x * block <= 0x4000_0000_0000_0000
            && -0x4000_0000_0000_0000 <= y * block <= 0x4000_0000_0000_0000) by (nonlinear_arith)
            requires
                -0x8000_0000 <= x <= 0x7fff_ffff,
                -0x8000_0000 <= y <= 0x7fff_ffff,
                0 < block <= 0x7fff_ffff,
        ;
        Disc { x: x * block + half, y: y * block + half, diameter: self.block_size }
    }
}

impl Snake {
    /// Computes [`SnakeView::squares`]: one square for each segment, head
    /// first, and none for a snake without a body.
    pub fn draw(&self) -> (out: Vec<Square>)
        requires
            self@.wf(),
        ensures
            out@ == self@.squares(),
            out@.len() == self@.body.len(),
            forall|i: int|
                0 <= i < out@.len() ==> {
                    &&& #[trigger] out@[i].x == self@.body[i].x * self.size
                    &&& out@[i].y == self@.body[i].y * self.size
                    &&& out@[i].side == self.size - 1
                    &&& out@[i].head == (i == 0)
                },
    {
        let size: i64 = self.size as i64;
        let side: u16 = self.size - 1;
        let mut out: Vec<Square> = Vec::new();
        let mut i: usize = 0;
        while i < self.body.len()
            invariant
                i <= self.body@.len(),
                size == self.size,
                side == self.size - 1,
                out@.len() == i,
                forall|j: int| 0 <= j < i ==> out@[j] == self@.square(j),
                forall|j: int|
                    0 <= j < i ==> {
                        &&& #[trigger] out@[j].x == self@.body[j].x * self.size
                        &&& out@[j].y == self@.body[j].y * self.size
                    },
            decreases self.body@.len() - i,
        {
            let x: i64 = self.body[i].position.x as i64;
            let y: i64 = self.body[i].position.y as i64;
            assert(-0x4000_0000_0000_0000 <= x * size <= 0x4000_0000_0000_0000
                && -0x4000_0000_0000_0000 <= y * size <= 0x4000_0000_0000_0000)
                by (nonlinear_arith)
                requires
                    -0x8000_0000 <= x <= 0x7fff_ffff,
                    -0x8000_0000 <= y <= 0x7fff_ffff,
                    0 < size <= 0xffff,
            ;
            out.push(Square { x: x * size, y: y * size, side, head: i == 0 });
            i += 1;
        }
        out
    }
}

impl Game {
    /// All that is painted while the game is on: the item, the snake, and
    /// the counters of lives and score.
    pub fn draw(&self) -> (scene: Scene)
        requires
            self@.wf(),
        ensures
            scene.item == self@.world.disc(),
            scene.snake@ == self@.snake.squares(),
            scene.lives.text@ == lives_text(self@.snake.lives),
            scene.lives.x == HUD_X && scene.lives.y == LIVES_Y && scene.lives.font_size
                == FONT_SIZE,
            scene.score.text@ == score_text(self@.snake.score),
            scene.score.x == HUD_X && scene.score.y == SCORE_Y && scene.score.font_size
                == FONT_SIZE,
    {
        Scene {
            item: self.world.draw(),
            snake: self.snake.draw(),
            lives: Label {
                text: counter("Lives: ", self.snake.lives),
                x: HUD_X,
                y: LIVES_Y,
                font_size: FONT_SIZE,
            },
            score: Label {
                text: counter("Score: ", self.snake.score),
                x: HUD_X,
                y: SCORE_Y,
                font_size: FONT_SIZE,
            },
        }
    }
}

impl GameState {
    /// The text that is shown in the middle of the screen: an invitation on
    /// the menu, the result on the end screen, nothing while the game is on.
    pub fn banner(self, score: u16) -> (text: Option<String>)
        ensures
            self == GameState::Menu ==> text is Some && text->0@ == menu_text(),
            self == GameState::Dead ==> text is Some && text->0@ == dead_text(score),
            self == GameState::Game ==> text is None,
    {
        match self {
            GameState::Menu => Some(
                String::from_str("Welcome to the Snake game! Press Space to start"),
            ),
            GameState::Dead => Some(counter("You lost the game! Score: ", score)),
            GameState::Game => None,
        }
    }
}

} // verus!
