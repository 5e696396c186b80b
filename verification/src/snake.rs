//! The snake: an ordered, head-first sequence of grid cells and a travel
//! direction.

use vstd::prelude::*;

use crate::Cell;
use crate::Direction;
use crate::step_cell;
use crate::stepped;

verus! {

/// The body after a new head has been prepended in direction `d`, without
/// removing the tail: one cell longer than `body`.
pub open spec fn grown(body: Seq<Cell>, d: Direction) -> Seq<Cell> {
    seq![step_cell(body[0], d)] + body
}

/// The body after one ordinary move in direction `d`: a new head is
/// prepended and the tail cell dropped, so the length is unchanged.
pub open spec fn advanced(body: Seq<Cell>, d: Direction) -> Seq<Cell> {
    grown(body, d).take(body.len() as int)
}

/// The snake's body, head first, and its current direction. The body is
/// never empty.
pub struct Snake {
    pub body: Vec<Cell>,
    pub dir: Direction,
}

impl Snake {
    /// The body holds at least the head, and every cell's coordinates leave
    /// room for one more step in either axis.
    pub open spec fn wf(self) -> bool {
        &&& self.body@.len() >= 1
        &&& forall|i: int|
            0 <= i < self.body@.len() ==> i32::MIN < (#[trigger] self.body@[i]).x < i32::MAX
                && i32::MIN < self.body@[i].y < i32::MAX
    }

    /// The head cell: the first cell of the body.
    pub open spec fn head_spec(self) -> Cell {
        self.body@[0]
    }

    /// A fresh snake: two cells at the top-left corner, heading right.
    pub fn new() -> (s: Snake)
        ensures
            s.body@ == seq![Cell { x: 0, y: 0 }, Cell { x: 0, y: 1 }],
            s.dir == Direction::Right,
            s.wf(),
    {
        let mut body: Vec<Cell> = Vec::new();
        body.push(Cell { x: 0, y: 0 });
        body.push(Cell { x: 0, y: 1 });
        proof {
            assert(body@ =~= seq![Cell { x: 0, y: 0 }, Cell { x: 0, y: 1 }]);
        }
        Snake { body, dir: Direction::Right }
    }

    /// The current head cell.
    pub fn head(&self) -> (r: Cell)
        requires
            self.body@.len() >= 1,
        ensures
            r == self.head_spec(),
    {
        self.body[0]
    }

    /// Prepends a new head one step ahead of the current one, growing the
    /// body by one cell; the tail stays.
    pub fn add_head(&mut self)
        requires
            old(self).wf(),
        ensures
            final(self).body@ == grown(old(self).body@, old(self).dir),
            final(self).dir == old(self).dir,
    {
        let head = self.head();
        let new_head = stepped(head, self.dir);
        self.body.insert(0, new_head);
        proof {
            assert(self.body@ =~= grown(old(self).body@, old(self).dir));
        }
    }

    /// Moves the snake one cell: prepends a new head and drops the tail
    /// cell, keeping the length unchanged.
    pub fn update(&mut self)
        requires
            old(self).wf(),
        ensures
            final(self).body@ == advanced(old(self).body@, old(self).dir),
            final(self).dir == old(self).dir,
    {
        self.add_head();
        let _ = self.body.pop();
        proof {
            assert(self.body@ =~= advanced(old(self).body@, old(self).dir));
        }
    }

    /// Changes the travel direction, unless the request is the exact
    /// reverse of the current direction, which is silently ignored.
    pub fn set_direction(&mut self, d: Direction)
        ensures
            final(self).body@ == old(self).body@,
            d == old(self).dir.opposite() ==> final(self).dir == old(self).dir,
            d != old(self).dir.opposite() ==> final(self).dir == d,
    {
        let reverses = match (d, self.dir) {
            (Direction::Up, Direction::Down) => true,
            (Direction::Down, Direction::Up) => true,
            (Direction::Left, Direction::Right) => true,
            (Direction::Right, Direction::Left) => true,
            _ => false,
        };
        if !reverses {
            self.dir = d;
        }
    }
}

} // verus!
