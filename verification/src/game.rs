use vstd::prelude::*;

use crate::direction::opposite;
use crate::direction::spec_opposite;
use crate::direction::Direction;
use crate::fruit::get_random_fruit;
use crate::fruit::spec_catalog;
use crate::fruit::spec_fruit_score_value;
use crate::fruit::Fruit;
use crate::modulo::modulo;
use crate::point::in_range;
use crate::point::move_point;
use crate::point::random_point;
use crate::point::spec_end_position;
use crate::point::spec_move;
use crate::point::Point;
use crate::snake::Snake;

verus! {

/// The outcome of one tick: the snake either found nothing, ate the fruit,
/// or ran into its own body.
#[derive(Clone, Copy, Debug, PartialEq, Eq, Structural)]
pub enum Status {
    Hungry,
    Fed,
    Dead,
}

/// One renderable cell of the board: a glyph with a foreground and a
/// background color index.
#[derive(Clone, Copy, Debug, PartialEq, Eq, Structural)]
pub struct Cell {
    pub glyph: char,
    pub foreground: u8,
    pub background: u8,
}

/// Color index of every cell's background.
pub const BG_COLOR: u8 = 233;

/// Foreground color index of the snake's head.
pub const HEAD_COLOR: u8 = 21;

/// Foreground color index of the snake's body segments.
pub const BODY_COLOR: u8 = 32;

/// Glyph drawn for the snake's head.
pub const HEAD_GLYPH: char = '▣';

/// Glyph drawn for each body segment.
pub const BODY_GLYPH: char = '◼';

/// The absolute cell of every body segment behind the head, in order from
/// the segment just behind the head to the tail: segment `i + 1` is one step
/// from segment `i`, along the stored step `steps[i]`. The head itself is
/// not in this sequence.
pub open spec fn spec_body_positions(
    head: Point<isize>,
    steps: Seq<Direction>,
    size: Point<isize>,
) -> Seq<Point<isize>>
    decreases steps.len(),
{
    if steps.len() == 0 {
        Seq::empty()
    } else {
        spec_body_positions(head, steps.drop_last(), size).push(
            spec_move(steps.last(), spec_end_position(head, steps.drop_last(), size), size),
        )
    }
}

/// The direction the snake actually moves in when `requested` is asked for:
/// a request straight backwards is overridden by the current facing, any
/// other request is honored.
pub open spec fn spec_effective_direction(requested: Direction, facing: Direction) -> Direction {
    if requested == spec_opposite(facing) {
        facing
    } else {
        requested
    }
}

/// The score after eating a fruit worth `value` points: the value is added,
/// capped at the top of the score range.
pub open spec fn spec_add_score(score: i32, value: i32) -> i32 {
    if score + value <= i32::MAX {
        (score + value) as i32
    } else {
        i32::MAX
    }
}

/// The whole game state: grid size, snake head position with its body,
/// fruit position with the fruit itself, and the score so far.
pub struct Game {
    pub size: Point<isize>,
    pub snake: (Point<isize>, Snake),
    pub fruit: (Point<isize>, Fruit),
    pub score: i32,
}

impl Game {
    /// The game invariant: a square grid of side at least 1 whose area fits
    /// the coordinate type, head and fruit on the grid, a snake of at least
    /// the initial three segments, a fruit consistent with the catalog
    /// tables, and a score that never went negative.
    pub open spec fn wf(self) -> bool {
        &&& 1 <= self.size.x
        &&& self.size.y == self.size.x
        &&& self.size.x * self.size.x <= isize::MAX
        &&& in_range(self.snake.0, self.size)
        &&& self.snake.1.wf()
        &&& in_range(self.fruit.0, self.size)
        &&& self.fruit.1.wf()
        &&& 0 <= self.score
    }

    /// A fresh game on an `n_cols` by `n_cols` grid: the snake starts at the
    /// center with its three initial segments, the score at zero, and a
    /// random fruit lies somewhere on the grid.
    pub fn new(n_cols: isize) -> (g: Game)
        requires
            1 <= n_cols,
            n_cols * n_cols <= isize::MAX,
        ensures
            g.wf(),
            g.size.x == n_cols,
            g.size.y == n_cols,
            g.snake.0.x == n_cols as int / 2,
            g.snake.0.y == n_cols as int / 2,
            g.snake.1.body@ == seq![Direction::Left, Direction::Left, Direction::Left],
            g.score == 0,
            spec_catalog().contains(g.fruit.1.symbol),
    {
        let size = Point::new(n_cols, n_cols);
        Game {
            size,
            snake: (Point::new(n_cols / 2, n_cols / 2), Snake::new()),
            fruit: (random_point(&size), get_random_fruit()),
            score: 0,
        }
    }

    /// A game in a chosen state: the given head, snake, fruit and fruit
    /// position are taken as they are, with the score at zero. This pins the
    /// whole starting state down, where `new` places the fruit at random.
    pub fn with_state(
        n_cols: isize,
        head: Point<isize>,
        snake: Snake,
        fruit_pos: Point<isize>,
        fruit: Fruit,
    ) -> (g: Game)
        requires
            1 <= n_cols,
            n_cols * n_cols <= isize::MAX,
            0 <= head.x < n_cols,
            0 <= head.y < n_cols,
            snake.wf(),
            0 <= fruit_pos.x < n_cols,
            0 <= fruit_pos.y < n_cols,
            fruit.wf(),
        ensures
            g.wf(),
            g.size.x == n_cols,
            g.size.y == n_cols,
            g.snake.0 == head,
            g.snake.1 == snake,
            g.fruit.0 == fruit_pos,
            g.fruit.1 == fruit,
            g.score == 0,
    {
        Game { size: Point::new(n_cols, n_cols), snake: (head, snake), fruit: (fruit_pos, fruit), score: 0 }
    }

    /// The side length of the square grid.
    pub fn n_cols(&self) -> (n: isize)
        ensures
            n == self.size.x,
    {
        self.size.x
    }

    /// The score so far.
    pub fn score(&self) -> (s: i32)
        ensures
            s == self.score,
    {
        self.score
    }

    /// Whether the game invariant holds of this value, decided at run time;
    /// useful to a caller that built or received a state outside the
    /// library's own constructors.
    pub fn is_well_formed(&self) -> (r: bool)
        ensures
            r == self.wf(),
    {
        let area_ok = match self.size.x.checked_mul(self.size.x) {
            Some(_) => true,
            None => false,
        };
        1 <= self.size.x && self.size.y == self.size.x && area_ok
            && 0 <= self.snake.0.x && self.snake.0.x < self.size.x
            && 0 <= self.snake.0.y && self.snake.0.y < self.size.y
            && self.snake.1.body.len() >= 3
            && 0 <= self.fruit.0.x && self.fruit.0.x < self.size.x
            && 0 <= self.fruit.0.y && self.fruit.0.y < self.size.y
            && self.fruit.1.color == crate::fruit::fruit_color(&self.fruit.1.symbol)
            && self.fruit.1.expiration_ms == crate::fruit::fruit_expiration_date(&self.fruit.1.symbol)
            && 0 <= self.score
    }

    /// Replace the fruit: a random kind out of the catalog at a random cell
    /// of the grid. Nothing else changes. The new cell is drawn over the
    /// whole grid, so it may land on a cell the snake occupies until the
    /// snake moves off it; that is inherited behavior, kept on purpose.
    fn spawn_fruit(&mut self)
        requires
            old(self).wf(),
        ensures
            final(self).wf(),
            final(self).size == old(self).size,
            final(self).snake == old(self).snake,
            final(self).score == old(self).score,
            in_range(final(self).fruit.0, final(self).size),
            final(self).fruit.1.wf(),
            spec_catalog().contains(final(self).fruit.1.symbol),
    {
        self.fruit = (random_point(&self.size), get_random_fruit());
    }

    /// If the fruit has rotted, replace it as `spawn_fruit` does; otherwise
    /// change nothing. The clock decides which of the two happens; either
    /// way the snake, the score and the grid stay as they were.
    pub fn refresh(&mut self)
        requires
            old(self).wf(),
        ensures
            final(self).wf(),
            final(self).size == old(self).size,
            final(self).snake == old(self).snake,
            final(self).score == old(self).score,
            final(self).fruit == old(self).fruit || (in_range(final(self).fruit.0, final(self).size)
                && final(self).fruit.1.wf()
                && spec_catalog().contains(final(self).fruit.1.symbol)),
    {
        if self.fruit.1.rotten() {
            self.spawn_fruit();
        }
    }

    /// The absolute cells of the snake's body segments, in order from just
    /// behind the head to the tail, recomputed from the stored steps.
    pub fn snake_body(&self) -> (v: Vec<Point<isize>>)
        requires
            1 <= self.size.x,
            1 <= self.size.y,
            in_range(self.snake.0, self.size),
        ensures
            v@ == spec_body_positions(self.snake.0, self.snake.1.body@, self.size),
            v@.len() == self.snake.1.body@.len(),
    {
        let ghost steps = self.snake.1.body@;
        let mut v: Vec<Point<isize>> = Vec::new();
        let mut pos = self.snake.0;
        let n = self.snake.1.body.len();
        let mut i: usize = 0;
        while i < n
            invariant
                i <= n,
                n == steps.len(),
                steps == self.snake.1.body@,
                1 <= self.size.x,
                1 <= self.size.y,
                in_range(pos, self.size),
                v@ == spec_body_positions(self.snake.0, steps.take(i as int), self.size),
                v@.len() == i,
                pos == spec_end_position(self.snake.0, steps.take(i as int), self.size),
            decreases n - i,
        {
            let dir = *(&self.snake.1.body[i]);
            move_point(&dir, &mut pos, &self.size);
            v.push(pos);
            proof {
                assert(steps.take(i + 1).drop_last() =~= steps.take(i as int));
                assert(steps.take(i + 1).last() == steps[i as int]);
            }
            i += 1;
        }
        proof {
            assert(steps.take(n as int) =~= steps);
        }
        v
    }

    /// One simulation tick, driven by the requested direction. The request
    /// is first resolved against the facing (a straight reversal is
    /// overridden, and the direction handed in is updated to what was
    /// actually used); the head then moves one wrapping step. If it lands on
    /// the fruit, the fruit's value is added to the score, the snake grows
    /// by one segment and a new random fruit appears, else the snake crawls
    /// and nothing else changes. If the moved head ends up on one of the
    /// body's cells the tick is fatal, overriding a meal on the same tick.
    pub fn process_input(&mut self, direction: &mut Direction) -> (status: Status)
        requires
            old(self).wf(),
        ensures
            final(self).wf(),
            final(self).size == old(self).size,
            final(self).score >= old(self).score,
            ({
                let facing = old(self).snake.1.spec_facing();
                let eff = spec_effective_direction(*old(direction), facing);
                let head2 = spec_move(eff, old(self).snake.0, old(self).size);
                let ate = head2 == old(self).fruit.0;
                let body2 = seq![spec_opposite(eff)] + (if ate {
                    old(self).snake.1.body@
                } else {
                    old(self).snake.1.body@.drop_last()
                });
                let dead = spec_body_positions(head2, body2, old(self).size).contains(head2);
                &&& *final(direction) == eff
                &&& final(self).snake.0 == head2
                &&& final(self).snake.1.body@ == body2
                &&& (ate ==> final(self).snake.1.body@.len() == old(self).snake.1.body@.len() + 1)
                &&& (!ate ==> final(self).snake.1.body@.len() == old(self).snake.1.body@.len())
                &&& (ate ==> {
                    &&& final(self).score == spec_add_score(
                        old(self).score,
                        spec_fruit_score_value(old(self).fruit.1.symbol),
                    )
                    &&& in_range(final(self).fruit.0, old(self).size)
                    &&& final(self).fruit.1.wf()
                    &&& spec_catalog().contains(final(self).fruit.1.symbol)
                })
                &&& (!ate ==> {
                    &&& final(self).score == old(self).score
                    &&& final(self).fruit == old(self).fruit
                })
                &&& (status == Status::Dead <==> dead)
                &&& (status == Status::Fed <==> ate && !dead)
                &&& (status == Status::Hungry <==> !ate && !dead)
            }),
    {
        if *direction == opposite(&self.snake.1.direction()) {
            *direction = self.snake.1.direction();
        }
        move_point(direction, &mut self.snake.0, &self.size);
        let mut status = Status::Hungry;
        if self.fruit.0 == self.snake.0 {
            let value = self.fruit.1.score_value();
            self.score = if self.score <= i32::MAX - value {
                self.score + value
            } else {
                i32::MAX
            };
            self.spawn_fruit();
            self.snake.1.grow(direction);
            status = Status::Fed;
        } else {
            self.snake.1.crawl(direction);
        }
        let body = self.snake_body();
        if contains_point(&body, &self.snake.0) {
            status = Status::Dead;
        }
        status
    }

    /// The cell classified at flat index `i` of the board, row by row: the
    /// head, then body segments, then the fruit, then empty background.
    pub open spec fn spec_cell(self, i: int) -> Cell {
        let pos = Point::<isize> {
            x: (i % (self.size.x as int)) as isize,
            y: (i / (self.size.y as int)) as isize,
        };
        if pos == self.snake.0 {
            Cell { glyph: HEAD_GLYPH, foreground: HEAD_COLOR, background: BG_COLOR }
        } else if spec_body_positions(self.snake.0, self.snake.1.body@, self.size).contains(pos) {
            Cell { glyph: BODY_GLYPH, foreground: BODY_COLOR, background: BG_COLOR }
        } else if pos == self.fruit.0 {
            Cell { glyph: self.fruit.1.symbol, foreground: self.fruit.1.color, background: BG_COLOR }
        } else {
            Cell { glyph: ' ', foreground: BG_COLOR, background: BG_COLOR }
        }
    }

    /// A render-ready snapshot: one cell per grid position, in row-major
    /// order (index `y * n + x`), each classified by `spec_cell`. Read-only.
    pub fn board(&self) -> (cells: Vec<Cell>)
        requires
            self.wf(),
        ensures
            cells@.len() == self.size.x * self.size.y,
            forall|i: int| 0 <= i < cells@.len() ==> cells@[i] == self.spec_cell(i),
    {
        let body = self.snake_body();
        let mut cells: Vec<Cell> = Vec::new();
        let n = self.size.x;
        let total = n * n;
        let mut i: isize = 0;
        while i < total
            invariant
                self.wf(),
                n == self.size.x,
                total == n * n,
                0 <= i <= total,
                body@ == spec_body_positions(self.snake.0, self.snake.1.body@, self.size),
                cells@.len() == i,
                forall|j: int| 0 <= j < i ==> cells@[j] == self.spec_cell(j),
            decreases total - i,
        {
            let x = modulo(i, n);
            let y = i / n;
            let pos = Point::new(x, y);
            let cell = if pos == self.snake.0 {
                Cell { glyph: HEAD_GLYPH, foreground: HEAD_COLOR, background: BG_COLOR }
            } else if contains_point(&body, &pos) {
                Cell { glyph: BODY_GLYPH, foreground: BODY_COLOR, background: BG_COLOR }
            } else if pos == self.fruit.0 {
                Cell { glyph: self.fruit.1.symbol, foreground: self.fruit.1.color, background: BG_COLOR }
            } else {
                Cell { glyph: ' ', foreground: BG_COLOR, background: BG_COLOR }
            };
            cells.push(cell);
            i += 1;
        }
        cells
    }
}

/// Whether `p` occurs among the points of `v`.
fn contains_point(v: &Vec<Point<isize>>, p: &Point<isize>) -> (r: bool)
    ensures
        r == v@.contains(*p),
{
    let mut i: usize = 0;
    while i < v.len()
        invariant
            i <= v@.len(),
            forall|j: int| 0 <= j < i ==> v@[j] != *p,
        decreases v@.len() - i,
    {
        if v[i] == *p {
            return true;
        }
        i += 1;
    }
    false
}

} // verus!
