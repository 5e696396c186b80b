//! Game orchestration: owns the snake, the food and the running flag, and
//! advances the state one tick at a time.
//!
//! The loss condition is evaluated against the head as it stands when a tick
//! begins, before any movement, so a move off the grid or into the body is
//! detected by the following tick.

use vstd::prelude::*;

use crate::Cell;
use crate::Direction;
use crate::GRID_SIZE;
use crate::in_grid;
use crate::snake::Snake;
use crate::snake::advanced;
use crate::snake::grown;

verus! {

/// How many random candidates the food placement draws before it falls back
/// to a deterministic scan of the grid.
pub const FOOD_RETRIES: u32 = 1000;

/// True when some non-head body cell equals `head`.
pub open spec fn hits_tail(body: Seq<Cell>, head: Cell) -> bool {
    exists|i: int| 1 <= i < body.len() && body[i] == head
}

/// The loss condition: `head` collides with the rest of the body, or lies
/// off the grid.
pub open spec fn lose_cond(body: Seq<Cell>, head: Cell) -> bool {
    hits_tail(body, head) || !in_grid(head)
}

/// The loss condition evaluated at the body's own head.
pub open spec fn lose_at(body: Seq<Cell>) -> bool {
    lose_cond(body, body[0])
}

/// True when some grid cell is not covered by `body`, so food can be placed.
pub open spec fn has_free_cell(body: Seq<Cell>) -> bool {
    exists|c: Cell| in_grid(c) && !body.contains(c)
}

/// A mathematical image of a game state.
#[verifier::ext_equal]
pub ghost struct GameModel {
    pub body: Seq<Cell>,
    pub dir: Direction,
    pub food: Cell,
    pub running: bool,
}

/// The state one update tick later, with `f` standing for the cell that the
/// food sampler returned, should this tick consume the food. A tick in a
/// finished game changes nothing; a tick whose pre-move head meets the loss
/// condition only clears the running flag; a tick whose pre-move head sits
/// on the food grows the body by one and moves, taking `f` as the new food;
/// any other tick moves the body unchanged in length.
pub open spec fn tick_of(s: GameModel, f: Cell) -> GameModel {
    if !s.running {
        s
    } else if lose_at(s.body) {
        GameModel { running: false, ..s }
    } else if s.body[0] == s.food {
        GameModel { body: advanced(grown(s.body, s.dir), s.dir), food: f, ..s }
    } else {
        GameModel { body: advanced(s.body, s.dir), ..s }
    }
}

/// The game state: the snake, the current food cell and whether play still
/// goes on.
pub struct Game {
    pub snake: Snake,
    pub food: Cell,
    pub running: bool,
}

impl Game {
    /// The mathematical image of this state.
    pub open spec fn m(self) -> GameModel {
        GameModel {
            body: self.snake.body@,
            dir: self.snake.dir,
            food: self.food,
            running: self.running,
        }
    }

    /// The snake is well formed and the food lies on the grid.
    pub open spec fn wf(self) -> bool {
        self.snake.wf() && in_grid(self.food)
    }

    /// A fresh game: the starting snake, the given food cell, running.
    pub fn new(food: Cell) -> (g: Game)
        requires
            in_grid(food),
        ensures
            g.snake.body@ == seq![Cell { x: 0, y: 0 }, Cell { x: 0, y: 1 }],
            g.snake.dir == Direction::Right,
            g.food == food,
            g.running,
            g.wf(),
    {
        Game { snake: Snake::new(), food, running: true }
    }

    /// Clears the running flag when `head` meets the loss condition:
    /// collision with a non-head body cell, or out of bounds. Nothing else
    /// changes; a finished game stays finished.
    pub fn check_for_lose(&mut self, head: Cell)
        ensures
            final(self).snake == old(self).snake,
            final(self).food == old(self).food,
            final(self).running == (old(self).running && !lose_cond(
                old(self).snake.body@,
                head,
            )),
    {
        let hit = hits_tail_exec(&self.snake.body, head);
        let out = head.x < 0 || head.x >= GRID_SIZE || head.y < 0 || head.y >= GRID_SIZE;
        if hit || out {
            self.running = false;
        }
    }

    /// Picks a food cell: draws random grid cells, keeping the first one
    /// outside the snake's body; after `FOOD_RETRIES` misses it falls back
    /// to scanning the grid for a free cell. Only a body covering the whole
    /// grid leaves it nothing to return but a covered cell.
    pub fn calculate_food_pos(&self) -> (r: Cell)
        ensures
            in_grid(r),
            has_free_cell(self.snake.body@) ==> !self.snake.body@.contains(r),
    {
        let mut tries: u32 = 0;
        while tries < FOOD_RETRIES
            decreases FOOD_RETRIES - tries,
        {
            let pos = random_cell();
            if !contains_cell(&self.snake.body, pos) {
                return pos;
            }
            tries = tries + 1;
        }
        first_free_cell(&self.snake.body)
    }

    /// One update tick. A finished game is left untouched. Otherwise the
    /// pre-move head is checked against the loss condition first: on a loss
    /// the game only stops. Then a head on the food grows the snake and
    /// replaces the food with a freshly sampled cell outside the grown body,
    /// and in every surviving case the snake moves one cell.
    pub fn update(&mut self)
        requires
            old(self).wf(),
        ensures
            final(self).wf(),
            final(self).m() == tick_of(old(self).m(), final(self).food),
            old(self).running && !lose_at(old(self).snake.body@) && old(self).snake.body@[0]
                == old(self).food ==> {
                &&& in_grid(final(self).food)
                &&& has_free_cell(grown(old(self).snake.body@, old(self).snake.dir))
                    ==> !grown(old(self).snake.body@, old(self).snake.dir).contains(
                    final(self).food,
                )
            },
            !(old(self).running && !lose_at(old(self).snake.body@) && old(self).snake.body@[0]
                == old(self).food) ==> final(self).food == old(self).food,
    {
        if !self.running {
            proof {
                assert(self.m() =~= tick_of(old(self).m(), self.food));
            }
            return ;
        }
        let head = self.snake.head();
        self.check_for_lose(head);
        if !self.running {
            proof {
                assert(self.m() =~= tick_of(old(self).m(), self.food));
            }
            return ;
        }
        if head.x == self.food.x && head.y == self.food.y {
            self.snake.add_head();
            proof {
                assert(self.snake.wf()) by {
                    assert(self.snake.body@ == grown(old(self).snake.body@, old(self).snake.dir));
                    assert(self.snake.body@[0] == crate::step_cell(
                        old(self).snake.body@[0],
                        old(self).snake.dir,
                    ));
                    assert(forall|i: int|
                        1 <= i < self.snake.body@.len() ==> self.snake.body@[i] == old(
                            self,
                        ).snake.body@[i - 1]);
                }
            }
            let new_food = self.calculate_food_pos();
            self.food = new_food;
            self.snake.update();
            proof {
                assert(self.m() =~= tick_of(old(self).m(), self.food));
            }
        } else {
            self.snake.update();
            proof {
                assert(self.m() =~= tick_of(old(self).m(), self.food));
            }
        }
    }
}

/// True when some non-head cell of `body` equals `head`.
fn hits_tail_exec(body: &Vec<Cell>, head: Cell) -> (r: bool)
    ensures
        r == hits_tail(body@, head),
{
    let mut i: usize = 1;
    while i < body.len()
        invariant
            1 <= i,
            forall|j: int| 1 <= j < i ==> body@[j] != head,
        decreases body@.len() - i,
    {
        if body[i].x == head.x && body[i].y == head.y {
            assert(body@[i as int] == head);
            return true;
        }
        i = i + 1;
    }
    false
}

/// True when `body` covers cell `c`.
fn contains_cell(body: &Vec<Cell>, c: Cell) -> (r: bool)
    ensures
        r == body@.contains(c),
{
    let mut i: usize = 0;
    while i < body.len()
        invariant
            forall|j: int| 0 <= j < i ==> body@[j] != c,
        decreases body@.len() - i,
    {
        if body[i].x == c.x && body[i].y == c.y {
            assert(body@[i as int] == c);
            return true;
        }
        i = i + 1;
    }
    false
}

/// The first grid cell, scanning column by column, that `body` does not
/// cover; the top-left corner when the body covers the whole grid.
fn first_free_cell(body: &Vec<Cell>) -> (r: Cell)
    ensures
        in_grid(r),
        has_free_cell(body@) ==> !body@.contains(r),
{
    let mut x: i32 = 0;
    while x < GRID_SIZE
        invariant
            0 <= x <= GRID_SIZE,
            forall|c: Cell| in_grid(c) && c.x < x ==> body@.contains(c),
        decreases GRID_SIZE - x,
    {
        let mut y: i32 = 0;
        while y < GRID_SIZE
            invariant
                0 <= x < GRID_SIZE,
                0 <= y <= GRID_SIZE,
                forall|c: Cell| in_grid(c) && c.x < x ==> body@.contains(c),
                forall|c: Cell| in_grid(c) && c.x == x && c.y < y ==> body@.contains(c),
            decreases GRID_SIZE - y,
        {
            let candidate = Cell { x, y };
            if !contains_cell(body, candidate) {
                return candidate;
            }
            y = y + 1;
        }
        x = x + 1;
    }
    assert(!has_free_cell(body@)) by {
        if has_free_cell(body@) {
            let c = choose|c: Cell| in_grid(c) && !body@.contains(c);
            assert(body@.contains(c));
        }
    }
    Cell { x: 0, y: 0 }
}

/// Relies on rand::random_range: a value uniformly sampled from the given
/// range, here one grid coordinate.
#[verifier::external_body]
fn random_coord() -> (r: i32)
    ensures
        0 <= r < GRID_SIZE,
{
    rand::random_range(0..GRID_SIZE)
}

/// A uniformly sampled grid cell.
fn random_cell() -> (r: Cell)
    ensures
        in_grid(r),
{
    Cell { x: random_coord(), y: random_coord() }
}

/// While the game runs, a tick never shrinks the snake, and it grows the
/// body by exactly one cell precisely on a tick whose pre-move head sits on
/// the food and does not meet the loss condition; every other tick keeps the
/// length unchanged.
pub proof fn lemma_tick_length(s: GameModel, f: Cell)
    requires
        s.body.len() >= 1,
    ensures
        tick_of(s, f).body.len() >= s.body.len(),
        (tick_of(s, f).body.len() == s.body.len() + 1) <==> (s.running && !lose_at(s.body)
            && s.body[0] == s.food),
        !(s.running && !lose_at(s.body) && s.body[0] == s.food) ==> tick_of(s, f).body.len()
            == s.body.len(),
{
    assert(grown(s.body, s.dir).len() == s.body.len() + 1);
    assert(advanced(s.body, s.dir).len() == s.body.len());
    assert(advanced(grown(s.body, s.dir), s.dir).len() == s.body.len() + 1);
}

/// A running snake of length at least two whose pre-move head coincides with
/// any non-head body cell is no longer running after the next tick, whatever
/// cell the food sampler would have returned.
pub proof fn lemma_self_collision_over(s: GameModel, f: Cell, i: int)
    requires
        s.running,
        s.body.len() >= 2,
        1 <= i < s.body.len(),
        s.body[i] == s.body[0],
    ensures
        !tick_of(s, f).running,
{
    assert(hits_tail(s.body, s.body[0]));
}

/// A running snake whose head stands on the left edge and travels left is no
/// longer running after two ticks: the first tick carries the head off the
/// grid (or already meets the loss condition), and the following tick's loss
/// check detects it. This holds whatever cells the food sampler returns.
pub proof fn lemma_left_wall_over(s: GameModel, f1: Cell, f2: Cell)
    requires
        s.running,
        s.body.len() >= 1,
        s.body[0].x == 0,
        s.dir == Direction::Left,
    ensures
        !tick_of(tick_of(s, f1), f2).running,
{
    let t1 = tick_of(s, f1);
    if lose_at(s.body) {
        assert(!t1.running);
    } else if s.body[0] == s.food {
        let g = grown(s.body, s.dir);
        assert(t1.body == advanced(g, s.dir));
        assert(t1.body[0] == grown(g, s.dir)[0]);
        assert(t1.body[0].x == -2);
        assert(!in_grid(t1.body[0]));
    } else {
        assert(t1.body == advanced(s.body, s.dir));
        assert(t1.body[0] == grown(s.body, s.dir)[0]);
        assert(t1.body[0].x == -1);
        assert(!in_grid(t1.body[0]));
    }
}

} // verus!

