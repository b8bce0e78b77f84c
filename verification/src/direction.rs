use vstd::prelude::*;

verus! {

/// A four-way compass value. Steering input, the snake's facing, and the
/// relative steps that make up a snake body are all directions.
#[derive(Clone, Copy, Debug, PartialEq, Eq, Structural)]
pub enum Direction {
    Up,
    Down,
    Left,
    Right,
}

/// The direction pointing the opposite way: Up <-> Down, Left <-> Right.
pub open spec fn spec_opposite(dir: Direction) -> Direction {
    match dir {
        Direction::Up => Direction::Down,
        Direction::Down => Direction::Up,
        Direction::Left => Direction::Right,
        Direction::Right => Direction::Left,
    }
}

/// Law: `opposite` is an involution — applying it twice gives the original
/// direction back, for every direction.
pub proof fn lemma_opposite_involutive(dir: Direction)
    ensures
        spec_opposite(spec_opposite(dir)) == dir,
{
}

pub fn opposite(dir: &Direction) -> (r: Direction)
    ensures
        r == spec_opposite(*dir),
{
    match *dir {
        Direction::Up => Direction::Down,
        Direction::Down => Direction::Up,
        Direction::Left => Direction::Right,
        Direction::Right => Direction::Left,
    }
}

} // verus!
