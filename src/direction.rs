use vstd::prelude::*;

verus! {

/// One of the four ways the snake can travel.
#[derive(Clone, Copy, Debug, PartialEq, Eq, Structural)]
pub enum Direction {
    Up,
    Down,
    Left,
    Right,
}

/// The keys that the game reacts to; every other key is `Other`.
#[derive(Clone, Copy, Debug, PartialEq, Eq, Structural)]
pub enum KeyCode {
    Up,
    Down,
    Left,
    Right,
    P,
    M,
    Y,
    N,
    Q,
    Escape,
    Other,
}

impl Direction {
    /// The opposite direction.
    pub open spec fn opposite(self) -> Direction {
        match self {
            Direction::Up => Direction::Down,
            Direction::Down => Direction::Up,
            Direction::Left => Direction::Right,
            Direction::Right => Direction::Left,
        }
    }

    /// The direction that an arrow key stands for, if it is one.
    pub open spec fn of_key(key: KeyCode) -> Option<Direction> {
        match key {
            KeyCode::Up => Some(Direction::Up),
            KeyCode::Down => Some(Direction::Down),
            KeyCode::Left => Some(Direction::Left),
            KeyCode::Right => Some(Direction::Right),
            _ => None,
        }
    }

    /// Up and Down swap, Left and Right swap.
    pub fn inverse(&self) -> (r: Direction)
        ensures
            r == self.opposite(),
    {
        match *self {
            Direction::Up => Direction::Down,
            Direction::Down => Direction::Up,
            Direction::Left => Direction::Right,
            Direction::Right => Direction::Left,
        }
    }

    /// Maps the four arrow keys to their directions; any other key is not a
    /// movement key and gives `None`.
    pub fn from_keycode(key: KeyCode) -> (r: Option<Direction>)
        ensures
            r == Self::of_key(key),
    {
        match key {
            KeyCode::Up => Some(Direction::Up),
            KeyCode::Down => Some(Direction::Down),
            KeyCode::Left => Some(Direction::Left),
            KeyCode::Right => Some(Direction::Right),
            _ => None,
        }
    }
}

/// Taking the opposite twice gives back the direction itself.
pub proof fn lemma_inverse_involutive(d: Direction)
    ensures
        d.opposite().opposite() == d,
{
}

} // verus!
