use vstd::prelude::*;

use std::collections::VecDeque;

use crate::direction::opposite;
use crate::direction::spec_opposite;
use crate::direction::Direction;

verus! {

/// The snake's body, stored as relative steps rather than absolute cells:
/// element `i` is the step that leads from segment `i` to segment `i + 1`,
/// starting just behind the head. The head's absolute position is tracked by
/// the owner; the body only ever says how the segments hang together.
#[derive(Clone)]
pub struct Snake {
    pub body: VecDeque<Direction>,
}

impl Snake {
    /// A snake is well formed when it has at least the initial three
    /// segments. `new` establishes this and `crawl`/`grow` preserve it.
    pub open spec fn wf(self) -> bool {
        self.body@.len() >= 3
    }

    /// The direction the snake is facing: the opposite of the first stored
    /// step, since that step points backwards from the head.
    pub open spec fn spec_facing(self) -> Direction {
        spec_opposite(self.body@[0])
    }

    /// A new snake: three segments, all hanging to the left of the head, so
    /// the snake faces right.
    pub fn new() -> (s: Snake)
        ensures
            s.body@ == seq![Direction::Left, Direction::Left, Direction::Left],
            s.wf(),
    {
        let mut body = VecDeque::new();
        body.push_front(Direction::Left);
        body.push_front(Direction::Left);
        body.push_front(Direction::Left);
        let s = Snake { body };
        proof {
            assert(s.body@ =~= seq![Direction::Left, Direction::Left, Direction::Left]);
        }
        s
    }

    /// Move one step in `direction` without growing: a new step is pushed in
    /// front and the oldest tail step is dropped, so the length is unchanged.
    pub fn crawl(&mut self, direction: &Direction)
        requires
            old(self).body@.len() >= 1,
        ensures
            final(self).body@ == seq![spec_opposite(*direction)] + old(self).body@.drop_last(),
            final(self).body@.len() == old(self).body@.len(),
            final(self).spec_facing() == *direction,
    {
        self.grow(direction);
        self.body.pop_back();
        proof {
            assert(final(self).body@ =~= seq![spec_opposite(*direction)]
                + old(self).body@.drop_last());
        }
    }

    /// Move one step in `direction` while growing: the step from the new head
    /// back to the old one is prepended and every old step is kept, so the
    /// length goes up by exactly one.
    pub fn grow(&mut self, direction: &Direction)
        ensures
            final(self).body@ == seq![spec_opposite(*direction)] + old(self).body@,
            final(self).body@.len() == old(self).body@.len() + 1,
            final(self).spec_facing() == *direction,
    {
        self.body.push_front(opposite(direction));
    }

    /// The direction the snake is currently facing.
    pub fn direction(&self) -> (r: Direction)
        requires
            self.body@.len() >= 1,
        ensures
            r == self.spec_facing(),
    {
        opposite(&self.body[0])
    }
}

} // verus!
