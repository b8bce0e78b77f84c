use vstd::prelude::*;

use crate::direction::Direction;
use crate::modulo::modulo;
use crate::modulo::wrap_dec;
use crate::modulo::wrap_inc;

verus! {

/// A position on the square grid. The grid is a torus: stepping over an edge
/// wraps around to the opposite edge, so both coordinates always stay inside
/// `[0, bounds)` on their axis.
#[derive(Clone, Copy, Debug, PartialEq, Eq, Hash, Structural)]
pub struct Point<T> {
    pub x: T,
    pub y: T,
}

impl<T> Point<T> {
    pub fn new(x: T, y: T) -> (p: Point<T>)
        ensures
            p.x == x,
            p.y == y,
    {
        Point { x, y }
    }
}

/// Both coordinates of `p` lie inside the grid given by `bounds`.
pub open spec fn in_range(p: Point<isize>, bounds: Point<isize>) -> bool {
    &&& 0 <= p.x < bounds.x
    &&& 0 <= p.y < bounds.y
}

/// The point one step away from `p` in direction `dir`, wrapping around the
/// grid edges. Up and Down move along the y axis, Left and Right along x.
pub open spec fn spec_move(dir: Direction, p: Point<isize>, bounds: Point<isize>) -> Point<isize> {
    match dir {
        Direction::Left => Point { x: ((p.x - 1) % (bounds.x as int)) as isize, y: p.y },
        Direction::Right => Point { x: ((p.x + 1) % (bounds.x as int)) as isize, y: p.y },
        Direction::Up => Point { x: p.x, y: ((p.y - 1) % (bounds.y as int)) as isize },
        Direction::Down => Point { x: p.x, y: ((p.y + 1) % (bounds.y as int)) as isize },
    }
}

/// Advance `p` one step in `direction`, wrapping modulo the bounds, so the
/// result is again inside the grid.
pub fn move_point(direction: &Direction, p: &mut Point<isize>, bounds: &Point<isize>)
    requires
        1 <= bounds.x,
        1 <= bounds.y,
        in_range(*old(p), *bounds),
    ensures
        *final(p) == spec_move(*direction, *old(p), *bounds),
        in_range(*final(p), *bounds),
{
    match *direction {
        Direction::Left => wrap_dec(&mut p.x, bounds.x),
        Direction::Right => wrap_inc(&mut p.x, bounds.x),
        Direction::Up => wrap_dec(&mut p.y, bounds.y),
        Direction::Down => wrap_inc(&mut p.y, bounds.y),
    }
}

/// Where a walk ends up after taking `dirs` one wrapping step at a time from
/// `p`: each direction is applied in order.
pub open spec fn spec_end_position(
    p: Point<isize>,
    dirs: Seq<Direction>,
    bounds: Point<isize>,
) -> Point<isize>
    decreases dirs.len(),
{
    if dirs.len() == 0 {
        p
    } else {
        spec_move(dirs.last(), spec_end_position(p, dirs.drop_last(), bounds), bounds)
    }
}

/// Law: starting from a point on the grid, every point that a sequence of
/// wrapping moves produces — each intermediate stop and the end — stays
/// inside `[0, bounds)` on both axes, whatever the moves are.
pub proof fn lemma_moves_stay_in_range(p: Point<isize>, dirs: Seq<Direction>, bounds: Point<isize>)
    requires
        1 <= bounds.x,
        1 <= bounds.y,
        in_range(p, bounds),
    ensures
        forall|k: int|
            0 <= k <= dirs.len() ==> in_range(
                spec_end_position(p, dirs.take(k), bounds),
                bounds,
            ),
    decreases dirs.len(),
{
    if dirs.len() == 0 {
        assert(dirs.take(0) =~= dirs);
    } else {
        lemma_moves_stay_in_range(p, dirs.drop_last(), bounds);
        assert forall|k: int|
            0 <= k <= dirs.len() implies in_range(
            spec_end_position(p, dirs.take(k), bounds),
            bounds,
        ) by {
            if k < dirs.len() {
                assert(dirs.take(k) =~= dirs.drop_last().take(k));
            } else {
                assert(dirs.take(k) =~= dirs);
                assert(dirs.drop_last().take(dirs.len() - 1) =~= dirs.drop_last());
            }
        }
    }
}

/// Relies on rand::random: one sample of the thread-local generator. Any
/// value can come back, so nothing is promised of the result.
#[verifier::external_body]
fn random_isize() -> isize {
    rand::random::<i64>() as isize
}

/// A random point inside the grid. Only the bound on the result is promised:
/// which cell comes back depends on the generator.
pub fn random_point(bounds: &Point<isize>) -> (p: Point<isize>)
    requires
        1 <= bounds.x,
        1 <= bounds.y,
    ensures
        in_range(p, *bounds),
{
    Point::new(modulo(random_isize(), bounds.x), modulo(random_isize(), bounds.y))
}

} // verus!
