use crate::direction::Direction;
use crate::grid::{wrap, wrapped, GRID_WIDTH};
use crate::position::{moved, on_board, Food, GridPosition, Segment};
use std::collections::VecDeque;
use vstd::prelude::*;

verus! {

/// What the snake ran into on its last tick, when it ran into anything.
#[derive(Clone, Copy, Debug, PartialEq, Eq, Structural)]
pub enum Ate {
    Itself,
    Food,
}

/// The snake: a head, the body cells behind it (nearest to the head first),
/// the direction it travels, and a buffered turn.
pub struct Snake {
    /// The cell the snake's head occupies; never stored in `body`.
    pub head: Segment,
    /// The direction the next tick moves in.
    pub dir: Direction,
    /// The body, front first: the front is the cell the head left last.
    pub body: VecDeque<Segment>,
    /// What the last tick ran into.
    pub ate: Option<Ate>,
    /// The direction that the last tick actually moved in.
    pub last_update_dir: Direction,
    /// A second turn, pressed before the first one took effect.
    pub next_dir: Option<Direction>,
    /// Pieces of food eaten.
    pub points: i16,
}

/// What a tick runs into when the head moves onto `head` and `body` holds
/// the cells behind it: the body takes precedence over the food.
pub open spec fn collision(body: Seq<Segment>, head: GridPosition, food: GridPosition) -> Option<Ate> {
    if body.contains(Segment { pos: head }) {
        Some(Ate::Itself)
    } else if head == food {
        Some(Ate::Food)
    } else {
        None
    }
}

impl Snake {
    /// A snake has at least one body cell, and all its cells are on the board.
    pub open spec fn wf(&self) -> bool {
        &&& self.body@.len() >= 1
        &&& on_board(self.head.pos)
        &&& forall|i: int| 0 <= i < self.body@.len() ==> on_board(#[trigger] self.body@[i].pos)
    }

    /// Whether the next tick takes up the buffered turn: only once the
    /// current direction has been applied.
    pub open spec fn promotes(&self) -> bool {
        self.last_update_dir == self.dir && self.next_dir.is_some()
    }

    /// The direction the next tick moves in.
    pub open spec fn tick_dir(&self) -> Direction {
        if self.promotes() {
            self.next_dir.unwrap()
        } else {
            self.dir
        }
    }

    /// The buffered turn after the next tick.
    pub open spec fn tick_next_dir(&self) -> Option<Direction> {
        if self.promotes() {
            None
        } else {
            self.next_dir
        }
    }

    /// Where the head goes on the next tick.
    pub open spec fn tick_head(&self) -> GridPosition {
        moved(self.head.pos, self.tick_dir())
    }

    /// The body once the old head has been pushed onto its front.
    pub open spec fn pushed_body(&self) -> Seq<Segment> {
        seq![self.head] + self.body@
    }

    /// What the next tick runs into, with the food at `food`.
    pub open spec fn tick_outcome(&self, food: GridPosition) -> Option<Ate> {
        collision(self.pushed_body(), self.tick_head(), food)
    }

    /// The body after the next tick: the tail is dropped unless something
    /// was eaten.
    pub open spec fn tick_body(&self, food: GridPosition) -> Seq<Segment> {
        if self.tick_outcome(food) is None {
            self.pushed_body().drop_last()
        } else {
            self.pushed_body()
        }
    }

    /// `after` is this snake after one tick with the food at `food`; the
    /// points are left to the caller.
    pub open spec fn ticked(&self, after: Snake, food: GridPosition) -> bool {
        &&& after.dir == self.tick_dir()
        &&& after.last_update_dir == self.tick_dir()
        &&& after.next_dir == self.tick_next_dir()
        &&& after.head.pos == self.tick_head()
        &&& after.ate == self.tick_outcome(food)
        &&& after.body@ == self.tick_body(food)
    }

    /// Whether a requested turn to `d` is buffered: a turn is already in
    /// flight and `d` does not reverse it.
    pub open spec fn queues(&self, d: Direction) -> bool {
        self.dir != self.last_update_dir && d.opposite() != self.dir
    }

    /// Whether a requested turn to `d` takes effect at once: it is not
    /// buffered and does not reverse the last applied direction.
    pub open spec fn turns(&self, d: Direction) -> bool {
        !self.queues(d) && d.opposite() != self.last_update_dir
    }

    /// `after` is this snake once a turn to `d` has been requested: buffered,
    /// applied, or dropped as a reversal.
    pub open spec fn turned(&self, after: Snake, d: Direction) -> bool {
        &&& after.dir == (if self.turns(d) { d } else { self.dir })
        &&& after.next_dir == (if self.queues(d) { Some(d) } else { self.next_dir })
        &&& after.head == self.head
        &&& after.body@ == self.body@
        &&& after.ate == self.ate
        &&& after.last_update_dir == self.last_update_dir
        &&& after.points == self.points
    }

    /// A fresh snake: head at `pos`, one body cell to its left (wrapping),
    /// moving right, nothing buffered, no points.
    pub open spec fn fresh(&self, pos: GridPosition) -> bool {
        &&& self.head.pos == pos
        &&& self.body@ == seq![
            Segment { pos: GridPosition { x: wrapped(pos.x - 1, GRID_WIDTH as int) as i16, y: pos.y } },
        ]
        &&& self.dir == Direction::Right
        &&& self.last_update_dir == Direction::Right
        &&& self.next_dir is None
        &&& self.ate is None
        &&& self.points == 0
    }

    /// A snake with its head at `pos` and one body cell to its left, moving
    /// right.
    pub fn new(pos: GridPosition) -> (r: Snake)
        requires
            on_board(pos),
        ensures
            r.fresh(pos),
            r.wf(),
    {
        let mut body: VecDeque<Segment> = VecDeque::new();
        let tail = GridPosition::new(wrap(pos.x as i32 - 1, GRID_WIDTH), pos.y);
        body.push_back(Segment::new(tail));
        Snake {
            head: Segment::new(pos),
            dir: Direction::Right,
            last_update_dir: Direction::Right,
            body,
            ate: None,
            next_dir: None,
            points: 0,
        }
    }

    /// Whether the head is on the food.
    pub fn eats(&self, food: &Food) -> (r: bool)
        ensures
            r == (self.head.pos == food.pos),
    {
        self.head.pos == food.pos
    }

    /// Whether the head lies on a body cell.
    pub fn eats_self(&self) -> (r: bool)
        ensures
            r == self.body@.contains(Segment { pos: self.head.pos }),
    {
        let n: usize = self.body.len();
        let mut i: usize = 0;
        while i < n
            invariant
                n == self.body@.len(),
                0 <= i <= n,
                forall|j: int| 0 <= j < i ==> self.body@[j].pos != self.head.pos,
            decreases n - i,
        {
            if self.head.pos == self.body[i].pos {
                assert(self.body@[i as int] == Segment { pos: self.head.pos });
                return true;
            }
            i = i + 1;
        }
        false
    }

    /// The cells the snake occupies, head first, then the body from front
    /// to tail.
    pub fn cells(&self) -> (r: Vec<GridPosition>)
        ensures
            r@.len() == self.body@.len() + 1,
            r@[0] == self.head.pos,
            forall|i: int| 0 <= i < self.body@.len() ==> r@[i + 1] == #[trigger] self.body@[i].pos,
    {
        let mut r: Vec<GridPosition> = Vec::new();
        r.push(self.head.pos);
        let n: usize = self.body.len();
        let mut i: usize = 0;
        while i < n
            invariant
                n == self.body@.len(),
                0 <= i <= n,
                r@.len() == i + 1,
                r@[0] == self.head.pos,
                forall|j: int| 0 <= j < i ==> r@[j + 1] == #[trigger] self.body@[j].pos,
            decreases n - i,
        {
            r.push(self.body[i].pos);
            i = i + 1;
        }
        r
    }

    /// Asks the snake to turn to `new_dir`. While an earlier turn has not yet
    /// been applied, the new one is buffered unless it reverses that turn;
    /// otherwise it is applied unless it reverses the last applied direction;
    /// a reversal is dropped.
    pub fn request_turn(&mut self, new_dir: Direction)
        ensures
            old(self).turned(*final(self), new_dir),
            new_dir.opposite() == old(self).last_update_dir ==> final(self).dir == old(self).dir,
    {
        if self.dir != self.last_update_dir && new_dir.inverse() != self.dir {
            self.next_dir = Some(new_dir);
        } else if new_dir.inverse() != self.last_update_dir {
            self.dir = new_dir;
        }
    }

    /// One tick: take up the buffered turn if the current direction has
    /// been applied, move the head one cell (wrapping), push the old head
    /// onto the body, detect a collision with the body first and then with
    /// the food, and drop the tail unless something was eaten.
    pub fn update(&mut self, food: &Food)
        requires
            old(self).wf(),
        ensures
            final(self).wf(),
            old(self).ticked(*final(self), food.pos),
            final(self).points == old(self).points,
            final(self).ate is None ==> final(self).body@.len() == old(self).body@.len(),
            final(self).ate is Some ==> final(self).body@.len() == old(self).body@.len() + 1,
    {
        if self.last_update_dir == self.dir && self.next_dir.is_some() {
            self.dir = self.next_dir.unwrap();
            self.next_dir = None;
        }
        let new_head_pos = GridPosition::new_from_move(self.head.pos, self.dir);
        let new_head = Segment::new(new_head_pos);
        self.body.push_front(self.head);
        self.head = new_head;
        if self.eats_self() {
            self.ate = Some(Ate::Itself);
        } else if self.eats(food) {
            self.ate = Some(Ate::Food);
        } else {
            self.ate = None;
        }
        if self.ate.is_none() {
            self.body.pop_back();
        }
        self.last_update_dir = self.dir;
    }
}

/// A turn buffered while another is still in flight waits one tick: the
/// tick that applies the first turn keeps it buffered, and the tick after
/// that moves in the buffered direction and clears the buffer.
pub proof fn lemma_queued_turn_waits(
    s: Snake,
    d: Direction,
    once: Snake,
    food1: GridPosition,
    twice: Snake,
    food2: GridPosition,
)
    requires
        s.next_dir == Some(d),
        s.dir != s.last_update_dir,
        s.ticked(once, food1),
        once.ticked(twice, food2),
    ensures
        once.dir == s.dir,
        once.last_update_dir == s.dir,
        once.next_dir == Some(d),
        twice.dir == d,
        twice.last_update_dir == d,
        twice.next_dir is None,
        twice.head.pos == moved(once.head.pos, d),
{
}

} // verus!
