use crate::direction::Direction;
use crate::grid::{wrap, wrapped, CELL_SIZE, GRID_HEIGHT, GRID_WIDTH};
use rand::Rng;
use vstd::arithmetic::div_mod::lemma_fundamental_div_mod_converse;
use vstd::prelude::*;

verus! {

/// A cell of the board.
#[derive(Clone, Copy, Debug, PartialEq, Eq, Structural)]
pub struct GridPosition {
    pub x: i16,
    pub y: i16,
}

/// One cell of the snake's body.
#[derive(Clone, Copy, Debug, PartialEq, Eq, Structural)]
pub struct Segment {
    pub pos: GridPosition,
}

/// The piece of food on the board.
#[derive(Clone, Copy, Debug, PartialEq, Eq, Structural)]
pub struct Food {
    pub pos: GridPosition,
}

/// The pixel rectangle that one cell fills, relative to the board's corner.
#[derive(Clone, Copy, Debug, PartialEq, Eq, Structural)]
pub struct PixelRect {
    pub x: i32,
    pub y: i32,
    pub w: i32,
    pub h: i32,
}

/// Whether `p` lies on the board.
pub open spec fn on_board(p: GridPosition) -> bool {
    0 <= p.x < GRID_WIDTH && 0 <= p.y < GRID_HEIGHT
}

/// The cell one step from `p` in direction `d`, wrapping around the edges.
pub open spec fn moved(p: GridPosition, d: Direction) -> GridPosition {
    match d {
        Direction::Up => GridPosition { x: p.x, y: wrapped(p.y - 1, GRID_HEIGHT as int) as i16 },
        Direction::Down => GridPosition { x: p.x, y: wrapped(p.y + 1, GRID_HEIGHT as int) as i16 },
        Direction::Left => GridPosition { x: wrapped(p.x - 1, GRID_WIDTH as int) as i16, y: p.y },
        Direction::Right => GridPosition { x: wrapped(p.x + 1, GRID_WIDTH as int) as i16, y: p.y },
    }
}

/// Relies on rand's `thread_rng` (the thread-local generator) and
/// `Rng::gen_range(0, bound)`, which gives a value in `[0, bound)` and panics
/// unless `0 < bound`.
#[verifier::external_body]
fn random_below(bound: i16) -> (r: i16)
    requires
        bound > 0,
    ensures
        0 <= r < bound,
{
    rand::thread_rng().gen_range::<i16, i16, i16>(0, bound)
}

impl GridPosition {
    /// The cell at column `x`, row `y`.
    pub fn new(x: i16, y: i16) -> (r: GridPosition)
        ensures
            r == (GridPosition { x, y }),
    {
        GridPosition { x, y }
    }

    /// A pseudo-random cell in `[0, max_x) x [0, max_y)`.
    pub fn random(max_x: i16, max_y: i16) -> (r: GridPosition)
        requires
            max_x > 0,
            max_y > 0,
        ensures
            0 <= r.x < max_x,
            0 <= r.y < max_y,
    {
        let x: i16 = random_below(max_x);
        let y: i16 = random_below(max_y);
        GridPosition::new(x, y)
    }

    /// The cell reached from `pos` by one step in `dir`; leaving the board on
    /// one side re-enters it on the other.
    pub fn new_from_move(pos: GridPosition, dir: Direction) -> (r: GridPosition)
        ensures
            r == moved(pos, dir),
    {
        match dir {
            Direction::Up => GridPosition::new(pos.x, wrap(pos.y as i32 - 1, GRID_HEIGHT)),
            Direction::Down => GridPosition::new(pos.x, wrap(pos.y as i32 + 1, GRID_HEIGHT)),
            Direction::Left => GridPosition::new(wrap(pos.x as i32 - 1, GRID_WIDTH), pos.y),
            Direction::Right => GridPosition::new(wrap(pos.x as i32 + 1, GRID_WIDTH), pos.y),
        }
    }
}

impl From<(i16, i16)> for GridPosition {
    fn from(pos: (i16, i16)) -> (r: GridPosition) {
        GridPosition { x: pos.0, y: pos.1 }
    }
}

impl vstd::std_specs::convert::FromSpecImpl<(i16, i16)> for GridPosition {
    open spec fn obeys_from_spec() -> bool {
        true
    }

    open spec fn from_spec(pos: (i16, i16)) -> GridPosition {
        GridPosition { x: pos.0, y: pos.1 }
    }
}

impl Segment {
    /// A body cell at `pos`.
    pub fn new(pos: GridPosition) -> (r: Segment)
        ensures
            r.pos == pos,
    {
        Segment { pos }
    }
}

impl Food {
    /// Food lying at `pos`.
    pub fn new(pos: GridPosition) -> (r: Food)
        ensures
            r.pos == pos,
    {
        Food { pos }
    }
}

/// The pixel rectangle of the cell `pos`: `CELL_SIZE` pixels a side, its
/// corner at `CELL_SIZE` times the cell's coordinates.
pub fn cell_to_pixel(pos: GridPosition) -> (r: PixelRect)
    ensures
        r.x == pos.x * CELL_SIZE,
        r.y == pos.y * CELL_SIZE,
        r.w == CELL_SIZE,
        r.h == CELL_SIZE,
{
    let size: i32 = CELL_SIZE as i32;
    PixelRect { x: pos.x as i32 * size, y: pos.y as i32 * size, w: size, h: size }
}

/// The `i`-th cell of the board in column-major order.
pub open spec fn background_cell(i: int) -> GridPosition {
    GridPosition { x: (i / GRID_HEIGHT as int) as i16, y: (i % GRID_HEIGHT as int) as i16 }
}

/// The `i`-th cell of the wall ring around the board: first the left and
/// right walls row by row from `-1` to `GRID_HEIGHT`, then the top and bottom
/// walls column by column.
pub open spec fn wall_cell(i: int) -> GridPosition {
    let side = 2 * (GRID_HEIGHT + 2);
    if i < side {
        GridPosition {
            x: if i % 2 == 0 { -1i16 } else { GRID_WIDTH },
            y: (i / 2 - 1) as i16,
        }
    } else {
        GridPosition {
            x: ((i - side) / 2) as i16,
            y: if (i - side) % 2 == 0 { -1i16 } else { GRID_HEIGHT },
        }
    }
}

/// Every cell of the board, column by column.
pub fn background_cells() -> (r: Vec<GridPosition>)
    ensures
        r@.len() == GRID_WIDTH * GRID_HEIGHT,
        forall|i: int| 0 <= i < r@.len() ==> #[trigger] r@[i] == background_cell(i),
{
    let mut r: Vec<GridPosition> = Vec::new();
    let mut x: i16 = 0;
    while x < GRID_WIDTH
        invariant
            0 <= x <= GRID_WIDTH,
            r@.len() == x * GRID_HEIGHT,
            forall|i: int| 0 <= i < r@.len() ==> #[trigger] r@[i] == background_cell(i),
        decreases GRID_WIDTH - x,
    {
        let mut y: i16 = 0;
        while y < GRID_HEIGHT
            invariant
                0 <= x < GRID_WIDTH,
                0 <= y <= GRID_HEIGHT,
                r@.len() == x * GRID_HEIGHT + y,
                forall|i: int| 0 <= i < r@.len() ==> #[trigger] r@[i] == background_cell(i),
            decreases GRID_HEIGHT - y,
        {
            proof {
                lemma_fundamental_div_mod_converse(
                    x * GRID_HEIGHT + y,
                    GRID_HEIGHT as int,
                    x as int,
                    y as int,
                );
            }
            r.push(GridPosition::new(x, y));
            y = y + 1;
        }
        x = x + 1;
    }
    r
}

/// The wall ring around the board, in the order of `wall_cell`.
pub fn wall_cells() -> (r: Vec<GridPosition>)
    ensures
        r@.len() == 2 * (GRID_HEIGHT + 2) + 2 * GRID_WIDTH,
        forall|i: int| 0 <= i < r@.len() ==> #[trigger] r@[i] == wall_cell(i),
{
    let mut r: Vec<GridPosition> = Vec::new();
    let mut y: i16 = -1;
    while y < GRID_HEIGHT + 1
        invariant
            -1 <= y <= GRID_HEIGHT + 1,
            r@.len() == 2 * (y + 1),
            forall|i: int| 0 <= i < r@.len() ==> #[trigger] r@[i] == wall_cell(i),
        decreases GRID_HEIGHT + 1 - y,
    {
        r.push(GridPosition::new(-1, y));
        r.push(GridPosition::new(GRID_WIDTH, y));
        y = y + 1;
    }
    let mut x: i16 = 0;
    while x < GRID_WIDTH
        invariant
            0 <= x <= GRID_WIDTH,
            r@.len() == 2 * (GRID_HEIGHT + 2) + 2 * x,
            forall|i: int| 0 <= i < r@.len() ==> #[trigger] r@[i] == wall_cell(i),
        decreases GRID_WIDTH - x,
    {
        r.push(GridPosition::new(x, -1));
        r.push(GridPosition::new(x, GRID_HEIGHT));
        x = x + 1;
    }
    r
}

} // verus!
