use vstd::prelude::*;
use crate::grid::{advance, at, cell_block, Block, Color, Direction, Point};
use crate::state::{in_field, wall_of, Collision, Outcome, State};

verus! {

/// The snake: its body as grid cells, head first, and the last direction in
/// which it actually moved.
pub struct Snake {
    pub size: i32,
    pub color: Color,
    pub body: Vec<Point>,
    pub moving_direction: Direction,
}

/// The point for an integer pair that fits in 32 bits.
pub open spec fn point_of(c: (int, int)) -> Point {
    Point { x: c.0 as i32, y: c.1 as i32 }
}

/// The body after the head moves to `head`: every other segment takes the place
/// that its predecessor held, and when `head` is where the food lies, the
/// place that the tail left becomes a new tail segment.
pub open spec fn next_body(b: Seq<Point>, head: Point, food: Option<Point>) -> Seq<Point> {
    let shifted = seq![head] + b.drop_last();
    if food == Some(head) {
        shifted.push(b.last())
    } else {
        shifted
    }
}

/// Whether the head of `b` lies on another of its segments.
pub open spec fn bites_itself(b: Seq<Point>) -> bool {
    exists|i: int| 1 <= i < b.len() && #[trigger] b[i] == b[0]
}

/// Whether the head of `body` lies on another of its segments.
pub fn head_collides(body: &Vec<Point>) -> (r: bool)
    requires
        body@.len() >= 1,
    ensures
        r == bites_itself(body@),
{
    let head = body[0];
    let mut i: usize = 1;
    while i < body.len()
        invariant
            1 <= i <= body@.len(),
            head == body@[0],
            forall|j: int| 1 <= j < i ==> body@[j] != head,
        decreases body@.len() - i,
    {
        if body[i] == head {
            return true;
        }
        i += 1;
    }
    false
}

impl Snake {
    /// A snake of five segments on the top row, head at `(4, 0)`, moving right.
    pub fn new(size: i32, color: Color) -> (r: Snake)
        requires
            size > 0,
        ensures
            r.wf(),
            r.size == size,
            r.color == color,
            r.body@ == seq![
                Point { x: 4, y: 0 },
                Point { x: 3, y: 0 },
                Point { x: 2, y: 0 },
                Point { x: 1, y: 0 },
                Point { x: 0, y: 0 },
            ],
            r.moving_direction == Direction::Right,
    {
        let body = vec![
            Point::new(4, 0),
            Point::new(3, 0),
            Point::new(2, 0),
            Point::new(1, 0),
            Point::new(0, 0),
        ];
        Snake { size, color, body, moving_direction: Direction::Right }
    }

    /// Cells have a positive size, and there is a head and a neck.
    pub open spec fn wf(&self) -> bool {
        self.size > 0 && self.body@.len() >= 2
    }

    /// The cell that the head would reach by moving in direction `d`.
    pub open spec fn target(&self, d: Direction) -> (int, int) {
        advance(self.body@[0], d)
    }

    /// The wall, if any, that one step in `state.direction` crosses.
    pub open spec fn wall_ahead(&self, state: State) -> Option<Collision> {
        let c = self.target(state.direction);
        wall_of(c.0, c.1, state.cols(self.size), state.rows(self.size))
    }

    /// Whether one step in `state.direction` lands on the neck.
    pub open spec fn reverses(&self, state: State) -> bool {
        at(self.body@[1], self.target(state.direction))
    }

    /// The body after one tick in `state`.
    pub open spec fn body_after(&self, state: State) -> Seq<Point> {
        if self.wall_ahead(state).is_some() || self.reverses(state) {
            self.body@
        } else {
            next_body(self.body@, point_of(self.target(state.direction)), state.cherry_pos)
        }
    }

    /// What one tick in `state` reports.
    pub open spec fn outcome_of(&self, state: State) -> Outcome {
        if self.wall_ahead(state).is_some() {
            Outcome::GameOver(self.wall_ahead(state).unwrap())
        } else if self.reverses(state) {
            Outcome::NotApplied
        } else if bites_itself(self.body_after(state)) {
            Outcome::GameOver(Collision::SelfCollision)
        } else {
            Outcome::Applied
        }
    }

    /// A valid move that eats nothing keeps the length: the head goes to the
    /// new cell and every other segment to where its predecessor was.
    pub proof fn lemma_move_shifts_body(self, state: State)
        requires
            self.wf(),
            state.wf(),
            self.wall_ahead(state).is_none(),
            !self.reverses(state),
            state.cherry_pos != Some(point_of(self.target(state.direction))),
        ensures
            self.body_after(state).len() == self.body@.len(),
            at(self.body_after(state)[0], self.target(state.direction)),
            forall|i: int|
                1 <= i < self.body@.len() ==> self.body_after(state)[i] == self.body@[i - 1],
    {
        self.lemma_target_fits(state);
    }

    /// Eating adds exactly one segment, and the new tail is the cell that the
    /// old tail left in that same move.
    pub proof fn lemma_eating_grows_by_one(self, state: State)
        requires
            self.wf(),
            state.wf(),
            self.wall_ahead(state).is_none(),
            !self.reverses(state),
            state.cherry_pos == Some(point_of(self.target(state.direction))),
        ensures
            self.body_after(state).len() == self.body@.len() + 1,
            at(self.body_after(state)[0], self.target(state.direction)),
            self.body_after(state).last() == self.body@.last(),
            forall|i: int|
                1 <= i < self.body@.len() ==> self.body_after(state)[i] == self.body@[i - 1],
    {
        self.lemma_target_fits(state);
    }

    /// A target cell inside the field is a point of 32-bit coordinates.
    proof fn lemma_target_fits(self, state: State)
        requires
            self.wf(),
            state.wf(),
            self.wall_ahead(state).is_none(),
        ensures
            at(point_of(self.target(state.direction)), self.target(state.direction)),
    {
        let c = self.target(state.direction);
        assert(c.0 <= state.window_width && c.1 <= state.window_height) by (nonlinear_arith)
            requires
                0 <= c.0 < state.window_width as int / self.size as int,
                0 <= c.1 < state.window_height as int / self.size as int,
                self.size >= 1,
        ;
    }

    /// One tick of motion in `state.direction`.
    ///
    /// - If the new head cell is off the field, the game is over at that wall and
    ///   nothing changes.
    /// - If it is the neck (the direction is the reverse of the travel), the move
    ///   is not applied: the body stays, and `state.direction` returns to the
    ///   last direction that moved the snake.
    /// - Otherwise the body shifts behind the new head, food on that cell is
    ///   eaten (the snake grows at its tail and the food is cleared), and the
    ///   game is over if the head now lies on another segment. On success the
    ///   occupied cells are published into the state.
    pub fn update(&mut self, state: &mut State) -> (r: Outcome)
        requires
            old(self).wf(),
            old(state).wf(),
        ensures
            final(self).wf(),
            final(self).size == old(self).size,
            final(self).color == old(self).color,
            final(state).window_width == old(state).window_width,
            final(state).window_height == old(state).window_height,
            final(state).quit == old(state).quit,
            r == old(self).outcome_of(*old(state)),
            final(self).body@ == old(self).body_after(*old(state)),
            ({
                let b = old(self).body@;
                let c = old(self).target(old(state).direction);
                let cols = old(state).cols(old(self).size);
                let rows = old(state).rows(old(self).size);
                let wall = wall_of(c.0, c.1, cols, rows);
                let head = point_of(c);
                let nb = next_body(b, head, old(state).cherry_pos);
                &&& wall.is_some() ==> {
                    &&& r == Outcome::GameOver(wall.unwrap())
                    &&& final(self).body@ == b
                    &&& final(self).moving_direction == old(self).moving_direction
                    &&& final(state).direction == old(state).direction
                    &&& final(state).cherry_pos == old(state).cherry_pos
                    &&& final(state).occupied@ == old(state).occupied@
                }
                &&& wall.is_none() && at(b[1], c) ==> {
                    &&& r == Outcome::NotApplied
                    &&& final(self).body@ == b
                    &&& final(self).moving_direction == old(self).moving_direction
                    &&& final(state).direction == old(self).moving_direction
                    &&& final(state).cherry_pos == old(state).cherry_pos
                    &&& final(state).occupied@ == old(state).occupied@
                }
                &&& wall.is_none() && !at(b[1], c) ==> {
                    &&& final(self).body@ == nb
                    &&& final(self).moving_direction == old(state).direction
                    &&& final(state).direction == old(state).direction
                    &&& final(state).cherry_pos == if old(state).cherry_pos == Some(head) {
                        None
                    } else {
                        old(state).cherry_pos
                    }
                    &&& r == if bites_itself(nb) {
                        Outcome::GameOver(Collision::SelfCollision)
                    } else {
                        Outcome::Applied
                    }
                    &&& final(state).occupied@ == if r == Outcome::Applied {
                        nb
                    } else {
                        old(state).occupied@
                    }
                }
                // a reversal onto a neck inside the field is refused and moves nothing
                &&& at(b[1], c) && in_field(b[1].x as int, b[1].y as int, cols, rows) ==> {
                    &&& r == Outcome::NotApplied
                    &&& final(self).body@ == b
                    &&& final(state).direction == old(self).moving_direction
                }
            }),
    {
        let ghost b = self.body@;
        let head = self.body[0];
        let neck = self.body[1];
        let (nx, ny) = head.stepped(state.direction);
        match state.wall_hit(self.size, nx, ny) {
            Some(w) => {
                return Outcome::GameOver(w);
            },
            None => {},
        }
        proof {
            old(self).lemma_target_fits(*old(state));
        }
        let new_head = Point::new(nx as i32, ny as i32);
        if new_head == neck {
            state.direction = self.moving_direction;
            return Outcome::NotApplied;
        }
        self.moving_direction = state.direction;

        // one pass, carrying each segment's previous place to its successor
        let ghost moved = seq![new_head] + b;
        let mut prev = new_head;
        let mut i: usize = 0;
        while i < self.body.len()
            invariant
                self.body@.len() == b.len(),
                self.size == old(self).size,
                self.color == old(self).color,
                self.moving_direction == old(state).direction,
                b.len() >= 2,
                0 <= i <= b.len(),
                moved == seq![new_head] + b,
                prev == moved[i as int],
                forall|j: int| 0 <= j < i ==> self.body@[j] == moved[j],
                forall|j: int| i <= j < b.len() ==> self.body@[j] == b[j],
            decreases b.len() - i,
        {
            let cur = self.body[i];
            self.body.set(i, prev);
            prev = cur;
            i += 1;
        }
        assert forall|j: int| 0 <= j < b.len() implies self.body@[j] == (seq![new_head]
            + b.drop_last())[j] by {
            assert(self.body@[j] == moved[j]);
            if j > 0 {
                assert(moved[j] == b[j - 1]);
                assert(b.drop_last()[j - 1] == b[j - 1]);
            }
        }
        assert(self.body@ =~= seq![new_head] + b.drop_last());

        match state.cherry_pos {
            Some(food) => {
                if food == new_head {
                    state.cherry_pos = None;
                    self.body.push(prev);
                }
            },
            None => {},
        }
        assert(self.body@ =~= next_body(b, new_head, old(state).cherry_pos));

        if head_collides(&self.body) {
            return Outcome::GameOver(Collision::SelfCollision);
        }
        state.occupied = self.body.clone();
        assert(state.occupied@ =~= self.body@);
        Outcome::Applied
    }

    /// The rectangles that draw the body, head first.
    pub fn render(&self) -> (r: Vec<Block>)
        requires
            self.size > 0,
        ensures
            r@.len() == self.body@.len(),
            forall|i: int|
                0 <= i < r@.len() ==> r@[i] == cell_block(self.body@[i], self.size, self.color),
    {
        let mut blocks: Vec<Block> = Vec::new();
        let mut i: usize = 0;
        while i < self.body.len()
            invariant
                self.size > 0,
                0 <= i <= self.body@.len(),
                blocks@.len() == i,
                forall|j: int|
                    0 <= j < i ==> blocks@[j] == cell_block(self.body@[j], self.size, self.color),
            decreases self.body@.len() - i,
        {
            blocks.push(Block::of_cell(self.body[i], self.size, self.color));
            i += 1;
        }
        blocks
    }
}

} // verus!
