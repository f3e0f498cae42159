//! The snake: an ordered body of grid cells with a heading, and the rules by
//! which it moves, grows and bites itself.

use vstd::prelude::*;
use crate::grid::{Direction, Keys, Vec2i};

verus! {

/// One cell of a snake's body.
#[derive(Clone, Copy, Debug, PartialEq, Eq, Structural)]
pub struct Segment {
    pub position: Vec2i,
}

/// An axis-aligned rectangle in pixels.
#[derive(Clone, Copy, Debug, PartialEq, Eq, Structural)]
pub struct Rect {
    pub x: i32,
    pub y: i32,
    pub w: i32,
    pub h: i32,
}

/// The player's snake. `body[0]` is the head and the last element is the tail.
#[derive(Debug)]
pub struct Snake {
    pub body: Vec<Segment>,
    /// Side of one grid cell in pixels.
    pub size: u16,
    pub direction: Direction,
    /// Simulation steps per second.
    pub speed: u16,
    pub lives: u16,
    pub score: u16,
    /// The rectangle of one body cell placed at the origin.
    pub body_rect: Rect,
}

/// What a [`Snake`] is, with its body as a sequence of cells from head to
/// tail.
#[verifier::ext_equal]
pub struct SnakeView {
    pub body: Seq<Vec2i>,
    pub size: u16,
    pub direction: Direction,
    pub speed: u16,
    pub lives: u16,
    pub score: u16,
    pub body_rect: Rect,
}

/// The cells that a sequence of segments occupies.
pub open spec fn positions(segments: Seq<Segment>) -> Seq<Vec2i> {
    Seq::new(segments.len(), |i: int| segments[i].position)
}

impl View for Snake {
    type V = SnakeView;

    open spec fn view(&self) -> SnakeView {
        SnakeView {
            body: positions(self.body@),
            size: self.size,
            direction: self.direction,
            speed: self.speed,
            lives: self.lives,
            score: self.score,
            body_rect: self.body_rect,
        }
    }
}

impl SnakeView {
    /// A snake as it is at the start of a game: three cells in a column with
    /// the head lowest, heading down, ten steps a second, three lives, no
    /// score.
    pub open spec fn initial(size: u16) -> SnakeView {
        SnakeView {
            body: seq![Vec2i { x: 5, y: 7 }, Vec2i { x: 5, y: 6 }, Vec2i { x: 5, y: 5 }],
            size,
            direction: Direction::Down,
            speed: 10,
            lives: 3,
            score: 0,
            body_rect: Rect { x: 0, y: 0, w: (size - 1) as i32, h: (size - 1) as i32 },
        }
    }

    /// A snake is well formed when its cells are at least one pixel wide.
    pub open spec fn wf(self) -> bool {
        self.size >= 1
    }

    /// The cell of the head; `(1, 1)` stands in for the head of a snake
    /// without a body.
    pub open spec fn head(self) -> Vec2i {
        if self.body.len() > 0 {
            self.body[0]
        } else {
            Vec2i { x: 1, y: 1 }
        }
    }

    /// The same snake with the heading that the held keys ask for.
    pub open spec fn steered(self, keys: Keys) -> SnakeView {
        SnakeView { direction: self.direction.steered(keys), ..self }
    }

    /// Whether the cell in front of the head can be named with `i32`
    /// coordinates. A snake without a body has nothing to move.
    pub open spec fn can_advance(self) -> bool {
        self.body.len() > 0 ==> self.body[0].can_step(self.direction)
    }

    /// The snake one step later: the head has moved one cell along the
    /// heading and every other segment sits where the one before it sat.
    pub open spec fn advanced(self) -> SnakeView {
        SnakeView {
            body: Seq::new(
                self.body.len(),
                |i: int|
                    if i == 0 {
                        self.body[0].moved(self.direction)
                    } else {
                        self.body[i - 1]
                    },
            ),
            ..self
        }
    }

    /// The snake without its last `n` segments; nothing is left when `n` is
    /// the length of the body or more.
    pub open spec fn shortened(self, n: nat) -> SnakeView {
        SnakeView {
            body: if n >= self.body.len() {
                Seq::empty()
            } else {
                self.body.take(self.body.len() - n)
            },
            ..self
        }
    }

    /// The heading in which the body is extended when it grows, if there is
    /// one.
    ///
    /// With two segments or more it points from the segment before the tail
    /// to the tail. Along the shared axis it is `Down` or `Right` when the
    /// tail has the greater coordinate and `Up` or `Left` otherwise; when the
    /// last two segments share neither a column nor a row there is none. With
    /// a single segment it is the opposite of the snake's heading.
    pub open spec fn growth_heading(self) -> Option<Direction> {
        let n = self.body.len() as int;
        if n > 1 {
            let tail = self.body[n - 1];
            let bone = self.body[n - 2];
            if tail.x == bone.x {
                if tail.y > bone.y {
                    Some(Direction::Down)
                } else {
                    Some(Direction::Up)
                }
            } else if tail.y == bone.y {
                if tail.x > bone.x {
                    Some(Direction::Right)
                } else {
                    Some(Direction::Left)
                }
            } else {
                None
            }
        } else {
            Some(self.direction.opposite())
        }
    }

    /// Whether the snake has a tail to grow from and the cell that growing
    /// would add can be named with `i32` coordinates.
    pub open spec fn can_grow(self) -> bool {
        &&& self.body.len() > 0
        &&& match self.growth_heading() {
            Some(g) => self.body.last().can_step(g),
            None => true,
        }
    }

    /// The snake after growing: one more segment behind the tail, one cell
    /// along [`SnakeView::growth_heading`]. Without such a heading the snake
    /// stays as it is.
    pub open spec fn grown(self) -> SnakeView {
        match self.growth_heading() {
            Some(g) => SnakeView { body: self.body.push(self.body.last().moved(g)), ..self },
            None => self,
        }
    }

    /// The same snake with one more point on the score.
    pub open spec fn scored(self) -> SnakeView {
        SnakeView { score: (self.score + 1) as u16, ..self }
    }

    /// The same snake with one life less.
    pub open spec fn wounded(self) -> SnakeView {
        SnakeView { lives: (self.lives - 1) as u16, ..self }
    }

    /// Whether the segment `idx` places behind the one after the head lies on
    /// the head's cell. `idx` counts from zero at `body[1]`.
    pub open spec fn hits_at(self, idx: int) -> bool {
        &&& 0 <= idx
        &&& idx + 1 < self.body.len()
        &&& self.body[idx + 1] == self.body[0]
    }

    /// Whether `idx` is the first index, counted as in
    /// [`SnakeView::hits_at`], at which the body lies on the head's cell.
    pub open spec fn is_first_hit(self, idx: int) -> bool {
        &&& self.hits_at(idx)
        &&& forall|j: int| 0 <= j < idx ==> !self.hits_at(j)
    }

    /// The first index at which the body lies on the head's cell, where there
    /// is one.
    pub open spec fn first_hit(self) -> int {
        choose|idx: int| self.is_first_hit(idx)
    }

    /// There is at most one first hit, and [`SnakeView::first_hit`] names
    /// it.
    pub proof fn first_hit_is(self, idx: int)
        requires
            self.is_first_hit(idx),
        ensures
            self.first_hit() == idx,
    {
    }

    /// Whether the snake has bitten itself. A body of fewer than five
    /// segments never counts as bitten.
    pub open spec fn collides(self) -> bool {
        &&& self.body.len() >= 5
        &&& exists|idx: int| self.hits_at(idx)
    }

    /// The snake after a check for a bite. A bitten snake keeps its first
    /// [`SnakeView::first_hit`] segments: the first segment that lies on the
    /// head's cell is cut off with the one in front of it and all that
    /// follow. A snake that has not bitten itself stays as it is.
    pub open spec fn after_collision(self) -> SnakeView {
        if self.collides() {
            SnakeView { body: self.body.take(self.first_hit()), ..self }
        } else {
            self
        }
    }
}

impl Snake {
    /// A fresh snake for cells of `size` pixels.
    pub fn new(size: u16) -> (s: Snake)
        requires
            size >= 1,
        ensures
            s@ == SnakeView::initial(size),
            s@.wf(),
    {
        let mut body: Vec<Segment> = Vec::new();
        body.push(Segment { position: Vec2i { x: 5, y: 7 } });
        body.push(Segment { position: Vec2i { x: 5, y: 6 } });
        body.push(Segment { position: Vec2i { x: 5, y: 5 } });
        let side: u16 = size - 1;
        Snake {
            size,
            body,
            body_rect: Rect { x: 0, y: 0, w: side as i32, h: side as i32 },
            direction: Direction::Down,
            speed: 10,
            lives: 3,
            score: 0,
        }
    }

    /// The cell of the head, or `(1, 1)` when there is no body.
    pub fn get_position(&self) -> (p: Vec2i)
        ensures
            p == self@.head(),
    {
        if self.body.len() > 0 {
            self.body[0].position
        } else {
            Vec2i { x: 1, y: 1 }
        }
    }

    /// Removes the last `n` segments. Asking for more than there are empties
    /// the body.
    pub fn cut(&mut self, n: usize)
        ensures
            final(self)@ == old(self)@.shortened(n as nat),
            final(self)@.wf() == old(self)@.wf(),
            final(self)@.body.len() == if n >= old(self)@.body.len() {
                0
            } else {
                old(self)@.body.len() - n
            },
    {
        let len: usize = self.body.len();
        let keep: usize = if n >= len { 0 } else { len - n };
        while self.body.len() > keep
            invariant
                keep <= self.body@.len() <= len,
                len == old(self).body@.len(),
                self.body@ == old(self).body@.take(self.body@.len() as int),
                self.size == old(self).size,
                self.direction == old(self).direction,
                self.speed == old(self).speed,
                self.lives == old(self).lives,
                self.score == old(self).score,
                self.body_rect == old(self).body_rect,
            decreases self.body@.len(),
        {
            self.body.pop();
        }
    }

    /// Computes [`SnakeView::can_advance`].
    pub fn can_advance(&self) -> (ok: bool)
        ensures
            ok == self@.can_advance(),
    {
        if self.body.len() > 0 {
            self.body[0].position.has_room(self.direction)
        } else {
            true
        }
    }

    /// Moves the snake by one cell along its heading.
    ///
    /// Every segment but the head takes the place of the segment in front of
    /// it, and the head moves to the neighbouring cell.
    pub fn advance(&mut self)
        requires
            old(self)@.can_advance(),
        ensures
            final(self)@ == old(self)@.advanced(),
            final(self)@.wf() == old(self)@.wf(),
            final(self)@.body.len() == old(self)@.body.len(),
            forall|i: int|
                1 <= i < old(self)@.body.len() ==> final(self)@.body[i] == old(self)@.body[i - 1],
            old(self)@.body.len() > 0 ==> {
                &&& final(self)@.body[0].x == old(self)@.body[0].x + old(self)@.direction.dx()
                &&& final(self)@.body[0].y == old(self)@.body[0].y + old(self)@.direction.dy()
            },
    {
        let len: usize = self.body.len();
        if len == 0 {
            return;
        }
        let mut i: usize = len - 1;
        while i > 0
            invariant
                i < len,
                self.body@.len() == len,
                len == old(self).body@.len(),
                forall|j: int| 0 <= j <= i ==> self.body@[j] == old(self).body@[j],
                forall|j: int| i < j < len ==> self.body@[j] == old(self).body@[j - 1],
                self.size == old(self).size,
                self.direction == old(self).direction,
                self.speed == old(self).speed,
                self.lives == old(self).lives,
                self.score == old(self).score,
                self.body_rect == old(self).body_rect,
            decreases i,
        {
            let ahead: Segment = self.body[i - 1];
            self.body.set(i, ahead);
            i -= 1;
        }
        let head: Vec2i = self.body[0].position.step(self.direction);
        self.body.set(0, Segment { position: head });
    }

    /// Turns as the held keys ask, then moves one cell.
    ///
    /// The keys never turn the snake round on the spot: the new heading is
    /// not the opposite of the old one.
    pub fn update(&mut self, keys: Keys)
        requires
            old(self)@.steered(keys).can_advance(),
        ensures
            final(self)@ == old(self)@.steered(keys).advanced(),
            final(self)@.wf() == old(self)@.wf(),
            final(self)@.direction == old(self)@.direction.steered(keys),
            final(self)@.direction != old(self)@.direction.opposite(),
    {
        self.direction = self.direction.steer(keys);
        self.advance();
    }

    /// Computes [`SnakeView::growth_heading`].
    pub fn growth_direction(&self) -> (g: Option<Direction>)
        ensures
            g == self@.growth_heading(),
    {
        let n: usize = self.body.len();
        if n > 1 {
            let tail: Vec2i = self.body[n - 1].position;
            let bone: Vec2i = self.body[n - 2].position;
            if tail.x == bone.x {
                if tail.y > bone.y {
                    Some(Direction::Down)
                } else {
                    Some(Direction::Up)
                }
            } else if tail.y == bone.y {
                if tail.x > bone.x {
                    Some(Direction::Right)
                } else {
                    Some(Direction::Left)
                }
            } else {
                None
            }
        } else {
            Some(self.direction.reverse())
        }
    }

    /// Computes [`SnakeView::can_grow`].
    pub fn can_grow(&self) -> (ok: bool)
        ensures
            ok == self@.can_grow(),
    {
        let n: usize = self.body.len();
        if n == 0 {
            return false;
        }
        match self.growth_direction() {
            Some(g) => self.body[n - 1].position.has_room(g),
            None => true,
        }
    }

    /// Adds a segment behind the tail, one cell further along the line from
    /// the segment before the tail to the tail; a snake of one segment grows
    /// against its heading.
    ///
    /// Nothing is added when the last two segments share neither a column
    /// nor a row.
    pub fn grow(&mut self)
        requires
            old(self)@.can_grow(),
        ensures
            final(self)@ == old(self)@.grown(),
            final(self)@.wf() == old(self)@.wf(),
            old(self)@.growth_heading() is Some ==> {
                &&& final(self)@.body.len() == old(self)@.body.len() + 1
                &&& final(self)@.body.take(old(self)@.body.len() as int) == old(self)@.body
            },
            old(self)@.growth_heading() is None ==> final(self)@.body == old(self)@.body,
    {
        if let Some(g) = self.growth_direction() {
            let tail: Vec2i = self.body[self.body.len() - 1].position;
            self.body.push(Segment { position: tail.step(g) });
        }
    }

    /// Looks for a bite and cuts the snake where it bit.
    ///
    /// A body of fewer than five segments is never bitten. Otherwise the
    /// segments behind the head are searched from the front for one that lies
    /// on the head's cell. At the first such segment, `idx` places behind
    /// `body[1]`, the last `len - idx` segments are cut off, where `len` is
    /// the length of the body, so that `idx` segments stay.
    pub fn check_collisions(&mut self) -> (hit: bool)
        ensures
            hit == old(self)@.collides(),
            final(self)@ == old(self)@.after_collision(),
            final(self)@.wf() == old(self)@.wf(),
            old(self)@.body.len() < 5 ==> !hit,
            !hit ==> final(self)@ == old(self)@,
            hit ==> {
                &&& old(self)@.is_first_hit(old(self)@.first_hit())
                &&& final(self)@ == old(self)@.shortened(
                    (old(self)@.body.len() - old(self)@.first_hit()) as nat,
                )
                &&& final(self)@.body.len() == old(self)@.body.len() - (old(self)@.body.len()
                    - old(self)@.first_hit())
            },
    {
        let len: usize = self.body.len();
        if len < 5 {
            return false;
        }
        let head: Vec2i = self.body[0].position;
        let mut i: usize = 1;
        while i < len
            invariant
                1 <= i <= len,
                len == self.body@.len(),
                len >= 5,
                *self == *old(self),
                head == self@.body[0],
                forall|j: int| 0 <= j < i - 1 ==> !self@.hits_at(j),
            decreases len - i,
        {
            if self.body[i].position == head {
                proof {
                    self@.first_hit_is(i - 1);
                }
                self.cut(len - (i - 1));
                return true;
            }
            i += 1;
        }
        false
    }
}

impl Clone for Snake {
    /// A copy with the same body, heading and counters.
    fn clone(&self) -> (s: Snake)
        ensures
            s@ == self@,
    {
        let mut body: Vec<Segment> = Vec::new();
        let mut i: usize = 0;
        while i < self.body.len()
            invariant
                i <= self.body@.len(),
                body@ == self.body@.take(i as int),
            decreases self.body@.len() - i,
        {
            body.push(self.body[i]);
            i += 1;
        }
        Snake {
            body,
            size: self.size,
            direction: self.direction,
            speed: self.speed,
            lives: self.lives,
            score: self.score,
            body_rect: self.body_rect,
        }
    }
}

} // verus!
