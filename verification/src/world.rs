//! The world: the one item on the field, where it may appear, and what
//! happens when the snake reaches it.

use vstd::prelude::*;
use crate::grid::Vec2i;
use crate::snake::Snake;

verus! {

/// The field with its single item.
#[derive(Clone, Copy, Debug, PartialEq, Eq, Structural)]
pub struct World {
    /// The cell of the item.
    pub item: Vec2i,
    /// Side of one grid cell in pixels.
    pub block_size: i32,
    /// Width and height of the window in pixels.
    pub window_size: Vec2i,
}

/// The side of a grid cell that a new world is made with.
pub const BLOCK_SIZE: i32 = 32;

/// The greatest coordinate on an axis of `pixels` pixels cut into cells of
/// `block` pixels: the number of whole cells, less two.
pub open spec fn axis_max(pixels: int, block: int) -> int {
    pixels / block - 2
}

/// Whether an item may be put at coordinate `c` of an axis whose greatest
/// coordinate is `max`: from `0` to `max + 1`, both included. On an axis too
/// short for that, only `0` is left.
pub open spec fn on_axis(c: int, max: int) -> bool {
    0 <= c && (c <= max + 1 || c == 0)
}

/// A number that `macroquad::rand::gen_range(0, high)` draws.
///
/// Trusted, not proved: the result is at least `0` and less than `high`.
/// `gen_range`, which `macroquad` hands on from `quad_rand`, takes a number
/// `k` of 32 bits from the generator that the whole process shares, forms
/// `0 + (high - 0) * (k / 2^32)` in `f64` and converts that to `i32`, which
/// drops the fraction. As `k / 2^32` is less than one, the product is less
/// than `high`. Which of the numbers below `high` comes out depends on the
/// state of the generator: nothing is claimed about it, and two calls may
/// differ.
#[verifier::external_body]
fn random_below(high: i32) -> (r: i32)
    requires
        0 < high,
    ensures
        0 <= r < high,
{
    macroquad::rand::gen_range(0, high)
}

/// Draws one of `count` coordinates starting at `0`; without any to choose
/// from the result is `0`.
pub fn draw_coordinate(count: i32) -> (c: i32)
    ensures
        0 <= c,
        count > 0 ==> c < count,
        count <= 0 ==> c == 0,
{
    if count > 0 {
        random_below(count)
    } else {
        0
    }
}

impl World {
    /// A world has cells of at least one pixel and a window without negative
    /// extent.
    pub open spec fn wf(self) -> bool {
        &&& self.block_size > 0
        &&& self.window_size.x >= 0
        &&& self.window_size.y >= 0
    }

    /// The greatest column, [`axis_max`] of the window's width.
    pub open spec fn max_x(self) -> int {
        axis_max(self.window_size.x as int, self.block_size as int)
    }

    /// The greatest row, [`axis_max`] of the window's height.
    pub open spec fn max_y(self) -> int {
        axis_max(self.window_size.y as int, self.block_size as int)
    }

    /// Whether the item may appear at `cell`.
    pub open spec fn spawnable(self, cell: Vec2i) -> bool {
        &&& on_axis(cell.x as int, self.max_x())
        &&& on_axis(cell.y as int, self.max_y())
    }

    /// The same world with its item at `cell`.
    pub open spec fn with_item(self, cell: Vec2i) -> World {
        World { item: cell, ..self }
    }

    /// A world for a window of the given size in pixels, with cells of
    /// [`BLOCK_SIZE`] pixels and an item already placed.
    pub fn new(window_size: Vec2i) -> (w: World)
        requires
            window_size.x >= 0,
            window_size.y >= 0,
        ensures
            w.wf(),
            w.block_size == BLOCK_SIZE,
            w.window_size == window_size,
            w.spawnable(w.item),
    {
        let mut w = World { window_size, block_size: BLOCK_SIZE, item: Vec2i { x: 0, y: 0 } };
        w.spawn_apple();
        w
    }

    /// Computes [`World::wf`].
    pub fn is_well_formed(&self) -> (ok: bool)
        ensures
            ok == self.wf(),
    {
        self.block_size > 0 && self.window_size.x >= 0 && self.window_size.y >= 0
    }

    /// Computes [`World::max_x`].
    pub fn max_column(&self) -> (m: i32)
        requires
            self.wf(),
        ensures
            m == self.max_x(),
    {
        self.window_size.x / self.block_size - 2
    }

    /// Computes [`World::max_y`].
    pub fn max_row(&self) -> (m: i32)
        requires
            self.wf(),
        ensures
            m == self.max_y(),
    {
        self.window_size.y / self.block_size - 2
    }

    /// Computes [`World::spawnable`].
    pub fn can_hold(&self, cell: Vec2i) -> (ok: bool)
        requires
            self.wf(),
        ensures
            ok == self.spawnable(cell),
    {
        let mx: i32 = self.max_column();
        let my: i32 = self.max_row();
        0 <= cell.x && (cell.x <= mx + 1 || cell.x == 0) && 0 <= cell.y && (cell.y <= my + 1
            || cell.y == 0)
    }

    /// Puts the item at `cell`.
    pub fn place_apple(&mut self, cell: Vec2i)
        ensures
            *final(self) == old(self).with_item(cell),
            final(self).wf() == old(self).wf(),
    {
        self.item = cell;
    }

    /// Puts the item at a cell drawn at random.
    ///
    /// On each axis the coordinate lies between `0` and one more than the
    /// greatest coordinate of that axis, both included. The cell is drawn
    /// without regard to where the snake is.
    pub fn spawn_apple(&mut self)
        requires
            old(self).wf(),
        ensures
            *final(self) == old(self).with_item(final(self).item),
            final(self).wf(),
            final(self).spawnable(final(self).item),
            0 <= final(self).item.x,
            0 <= final(self).item.y,
            old(self).max_x() + 1 >= 0 ==> final(self).item.x <= old(self).max_x() + 1,
            old(self).max_y() + 1 >= 0 ==> final(self).item.y <= old(self).max_y() + 1,
    {
        let columns: i32 = self.max_column() + 2;
        let rows: i32 = self.max_row() + 2;
        let x: i32 = draw_coordinate(columns);
        let y: i32 = draw_coordinate(rows);
        self.place_apple(Vec2i { x, y });
    }

    /// Lets the snake eat, and moves the item where that is due.
    ///
    /// When the head of the snake is on the item's cell the snake grows, its
    /// score goes up by one and the item is put at a new cell drawn at
    /// random. With `respawn` set the item is drawn anew whether or not it
    /// was eaten. Otherwise the item stays where it is.
    pub fn update(&mut self, snake: &mut Snake, respawn: bool)
        requires
            old(self).wf(),
            old(snake)@.head() == old(self).item ==> old(snake)@.can_grow() && old(snake)@.score
                < u16::MAX,
        ensures
            final(snake)@ == if old(snake)@.head() == old(self).item {
                old(snake)@.grown().scored()
            } else {
                old(snake)@
            },
            *final(self) == old(self).with_item(final(self).item),
            final(self).wf(),
            final(snake)@.wf() == old(snake)@.wf(),
            old(snake)@.head() == old(self).item || respawn ==> final(self).spawnable(
                final(self).item,
            ),
            !(old(snake)@.head() == old(self).item || respawn) ==> final(self).item == old(
                self,
            ).item,
            old(snake)@.head() == old(self).item ==> final(snake)@.score == old(snake)@.score + 1,
            old(snake)@.head() == old(self).item && old(snake)@.growth_heading() is Some
                ==> final(snake)@.body.len() == old(snake)@.body.len() + 1,
    {
        if snake.get_position() == self.item {
            snake.grow();
            snake.score = snake.score + 1;
            self.spawn_apple();
        }
        if respawn {
            self.spawn_apple();
        }
    }
}

} // verus!
