use vstd::prelude::*;
use crate::grid::{cell_block, Block, Color, Point};
use crate::state::{in_field, State};

verus! {

/// How many random cells are drawn before the field is scanned for a free one.
pub const MAX_ROLLS: u32 = 64;

/// Relies on rand::random::<u32>: some 32-bit integer, drawn from the thread's
/// generator. Nothing is known of which.
#[verifier::external_body]
fn random_u32() -> (r: u32) {
    rand::random::<u32>()
}

/// A food item: one cell, unplaced (off the field) until it is first placed.
pub struct Cherry {
    pub pos: Point,
    pub size: i32,
    pub color: Color,
}

/// Whether `p` is a cell of a field of `cols` by `rows` cells that `occupied`
/// does not cover.
pub open spec fn is_free(occupied: Seq<Point>, cols: int, rows: int, p: Point) -> bool {
    in_field(p.x as int, p.y as int, cols, rows) && !occupied.contains(p)
}

/// Whether some cell of the field is free.
pub open spec fn has_free_cell(occupied: Seq<Point>, cols: int, rows: int) -> bool {
    exists|p: Point| is_free(occupied, cols, rows, p)
}

/// Whether `cells` holds `p`.
pub fn contains(cells: &Vec<Point>, p: Point) -> (r: bool)
    ensures
        r == cells@.contains(p),
{
    let mut i: usize = 0;
    while i < cells.len()
        invariant
            0 <= i <= cells@.len(),
            forall|j: int| 0 <= j < i ==> cells@[j] != p,
        decreases cells@.len() - i,
    {
        if cells[i] == p {
            return true;
        }
        i += 1;
    }
    false
}

/// The first free cell in row order (top row first, left to right), if any.
pub fn first_free_cell(occupied: &Vec<Point>, cols: i32, rows: i32) -> (r: Option<Point>)
    ensures
        r.is_some() ==> is_free(occupied@, cols as int, rows as int, r.unwrap()),
        r.is_none() <==> !has_free_cell(occupied@, cols as int, rows as int),
{
    let mut y: i32 = 0;
    while y < rows
        invariant
            0 <= y,
            rows >= 0 ==> y <= rows,
            forall|p: Point|
                in_field(p.x as int, p.y as int, cols as int, rows as int) && p.y < y
                    ==> #[trigger] occupied@.contains(p),
        decreases rows - y,
    {
        let mut x: i32 = 0;
        while x < cols
            invariant
                0 <= y < rows,
                0 <= x,
                cols >= 0 ==> x <= cols,
                forall|p: Point|
                    in_field(p.x as int, p.y as int, cols as int, rows as int) && (p.y < y || (
                    p.y == y && p.x < x)) ==> #[trigger] occupied@.contains(p),
            decreases cols - x,
        {
            let p = Point::new(x, y);
            if !contains(occupied, p) {
                assert(is_free(occupied@, cols as int, rows as int, p));
                return Some(p);
            }
            x += 1;
        }
        y += 1;
    }
    assert forall|p: Point| !is_free(occupied@, cols as int, rows as int, p) by {
        if in_field(p.x as int, p.y as int, cols as int, rows as int) {
            assert(occupied@.contains(p));
        }
    }
    None
}

impl State {
    /// The field has at least one cell, for cells of `size` pixels.
    pub open spec fn has_cells(&self, size: i32) -> bool {
        size > 0 && self.wf() && self.cols(size) >= 1 && self.rows(size) >= 1
    }

    /// The cell that the random numbers `rx` and `ry` pick: each taken modulo
    /// the field's extent in its axis.
    pub fn food_cell(&self, size: i32, rx: u32, ry: u32) -> (r: Point)
        requires
            self.has_cells(size),
        ensures
            r.x == rx as int % self.cols(size),
            r.y == ry as int % self.rows(size),
            in_field(r.x as int, r.y as int, self.cols(size), self.rows(size)),
    {
        let cols = self.window_width / size as u32;
        let rows = self.window_height / size as u32;
        proof {
            let s = size as int;
            assert(self.window_width as int / s <= self.window_width as int) by (nonlinear_arith)
                requires
                    s >= 1,
                    self.window_width >= 0,
            ;
            assert(self.window_height as int / s <= self.window_height as int) by (nonlinear_arith)
                requires
                    s >= 1,
                    self.window_height >= 0,
            ;
        }
        Point::new((rx % cols) as i32, (ry % rows) as i32)
    }
}

impl Cherry {
    /// An unplaced food item, at `(-1, -1)`.
    pub fn new(size: i32, color: Color) -> (r: Cherry)
        ensures
            r.pos.x == -1 && r.pos.y == -1,
            r.size == size,
            r.color == color,
    {
        Cherry { pos: Point::new(-1, -1), size, color }
    }

    /// Places the food on the cell that `rx` and `ry` pick, if no food is out
    /// and that cell is free. Returns whether it placed it.
    pub fn place(&mut self, state: &mut State, rx: u32, ry: u32) -> (placed: bool)
        requires
            old(state).has_cells(old(self).size),
        ensures
            final(self).size == old(self).size,
            final(self).color == old(self).color,
            final(state).window_width == old(state).window_width,
            final(state).window_height == old(state).window_height,
            final(state).direction == old(state).direction,
            final(state).occupied@ == old(state).occupied@,
            final(state).quit == old(state).quit,
            ({
                let c = (rx as int % old(state).cols(old(self).size), ry as int % old(state).rows(
                    old(self).size,
                ));
                let p = Point { x: c.0 as i32, y: c.1 as i32 };
                placed == (old(state).cherry_pos.is_none() && !old(state).occupied@.contains(p))
            }),
            placed ==> final(self).pos.x == rx as int % old(state).cols(old(self).size),
            placed ==> final(self).pos.y == ry as int % old(state).rows(old(self).size),
            placed ==> final(state).cherry_pos == Some(final(self).pos),
            !placed ==> final(self).pos == old(self).pos,
            !placed ==> final(state).cherry_pos == old(state).cherry_pos,
    {
        if state.cherry_pos.is_some() {
            return false;
        }
        let p = state.food_cell(self.size, rx, ry);
        if contains(&state.occupied, p) {
            return false;
        }
        self.pos = p;
        state.cherry_pos = Some(p);
        true
    }

    /// When no food is out, places it on a free cell: first on random cells,
    /// and after `MAX_ROLLS` draws that all hit the snake, on the first free cell
    /// in row order. When every cell is covered, no food is placed. Always
    /// reports success.
    pub fn update(&mut self, state: &mut State) -> (r: bool)
        requires
            old(state).has_cells(old(self).size),
        ensures
            r,
            final(self).size == old(self).size,
            final(self).color == old(self).color,
            final(state).window_width == old(state).window_width,
            final(state).window_height == old(state).window_height,
            final(state).direction == old(state).direction,
            final(state).occupied@ == old(state).occupied@,
            final(state).quit == old(state).quit,
            old(state).cherry_pos.is_some() ==> final(state).cherry_pos == old(state).cherry_pos
                && final(self).pos == old(self).pos,
            ({
                let cols = old(state).cols(old(self).size);
                let rows = old(state).rows(old(self).size);
                old(state).cherry_pos.is_none() ==> if has_free_cell(
                    old(state).occupied@,
                    cols,
                    rows,
                ) {
                    &&& final(state).cherry_pos == Some(final(self).pos)
                    &&& is_free(old(state).occupied@, cols, rows, final(self).pos)
                } else {
                    &&& final(state).cherry_pos.is_none()
                    &&& final(self).pos == old(self).pos
                }
            }),
    {
        if state.cherry_pos.is_some() {
            return true;
        }
        let ghost cols = state.cols(self.size);
        let ghost rows = state.rows(self.size);
        let mut rolls: u32 = 0;
        while rolls < MAX_ROLLS
            invariant
                state.has_cells(self.size),
                self.size == old(self).size,
                self.color == old(self).color,
                self.pos == old(self).pos,
                state.window_width == old(state).window_width,
                state.window_height == old(state).window_height,
                state.direction == old(state).direction,
                state.occupied@ == old(state).occupied@,
                state.quit == old(state).quit,
                state.cherry_pos.is_none(),
                old(state).cherry_pos.is_none(),
                cols == state.cols(self.size),
                rows == state.rows(self.size),
            decreases MAX_ROLLS - rolls,
        {
            let rx = random_u32();
            let ry = random_u32();
            if self.place(state, rx, ry) {
                proof {
                    let p = self.pos;
                    assert(is_free(old(state).occupied@, cols, rows, p));
                }
                return true;
            }
            rolls += 1;
        }
        let cols_exec = (state.window_width / self.size as u32) as i32;
        let rows_exec = (state.window_height / self.size as u32) as i32;
        match first_free_cell(&state.occupied, cols_exec, rows_exec) {
            Some(p) => {
                self.pos = p;
                state.cherry_pos = Some(p);
            },
            None => {},
        }
        true
    }

    /// The rectangle that draws the food.
    pub fn render(&self) -> (r: Block)
        requires
            self.size > 0,
        ensures
            r == cell_block(self.pos, self.size, self.color),
    {
        Block::of_cell(self.pos, self.size, self.color)
    }
}

} // verus!
