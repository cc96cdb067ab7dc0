use vstd::prelude::*;
use crate::grid::{Direction, Point};

verus! {

/// What ends a game: the head left the field through one of its walls, or ran
/// into the snake's own body.
#[derive(Clone, Copy, Debug, PartialEq, Eq, Structural)]
pub enum Collision {
    LeftWall,
    RightWall,
    TopWall,
    BottomWall,
    SelfCollision,
}

/// What one update of a component did.
///
/// A collision is reported as a value: the game is over, and the caller decides
/// what to show and when to stop, rather than the whole program being aborted.
#[derive(Clone, Copy, Debug, PartialEq, Eq, Structural)]
pub enum Outcome {
    /// The update was applied.
    Applied,
    /// The requested action was invalid and nothing of it was applied; the
    /// same tick is to be tried again.
    NotApplied,
    /// The game is over.
    GameOver(Collision),
}

/// The state that all components share during one update pass.
pub struct State {
    pub window_width: u32,
    pub window_height: u32,
    pub direction: Direction,
    pub occupied: Vec<Point>,
    pub cherry_pos: Option<Point>,
    pub quit: bool,
}

/// Number of whole cells of `size` pixels that fit in `length` pixels.
pub open spec fn cells(length: u32, size: i32) -> int {
    length as int / size as int
}

/// The wall, if any, that a head at `(x, y)` has crossed on a field of
/// `cols` by `rows` cells.
///
/// A cell is inside when it lies entirely in the window: `0 <= x < cols`,
/// which for a window that the cells tile exactly is `x * size < width`.
pub open spec fn wall_of(x: int, y: int, cols: int, rows: int) -> Option<Collision> {
    if x < 0 {
        Some(Collision::LeftWall)
    } else if x >= cols {
        Some(Collision::RightWall)
    } else if y < 0 {
        Some(Collision::TopWall)
    } else if y >= rows {
        Some(Collision::BottomWall)
    } else {
        None
    }
}

/// Whether `(x, y)` is a cell of a field of `cols` by `rows` cells.
pub open spec fn in_field(x: int, y: int, cols: int, rows: int) -> bool {
    0 <= x < cols && 0 <= y < rows
}

impl State {
    /// A fresh state: heading right, nothing occupied, no food, not quitting.
    pub fn new(window_width: u32, window_height: u32) -> (r: State)
        ensures
            r.window_width == window_width,
            r.window_height == window_height,
            r.direction == Direction::Right,
            r.occupied@.len() == 0,
            r.cherry_pos.is_none(),
            !r.quit,
    {
        State {
            window_width,
            window_height,
            direction: Direction::Right,
            occupied: Vec::new(),
            cherry_pos: None,
            quit: false,
        }
    }

    /// The window fits the sizes that a drawing surface takes (a signed 32-bit
    /// pixel count in each axis).
    pub open spec fn wf(&self) -> bool {
        self.window_width <= i32::MAX && self.window_height <= i32::MAX
    }

    /// Columns of the field for cells of `size` pixels.
    pub open spec fn cols(&self, size: i32) -> int {
        cells(self.window_width, size)
    }

    /// Rows of the field for cells of `size` pixels.
    pub open spec fn rows(&self, size: i32) -> int {
        cells(self.window_height, size)
    }

    /// The wall, if any, that a head at `(x, y)` has crossed, for cells of
    /// `size` pixels. `None` exactly when `(x, y)` is a cell of the field.
    pub fn wall_hit(&self, size: i32, x: i64, y: i64) -> (r: Option<Collision>)
        requires
            size > 0,
        ensures
            r == wall_of(x as int, y as int, self.cols(size), self.rows(size)),
            r.is_none() <==> in_field(x as int, y as int, self.cols(size), self.rows(size)),
    {
        let cols = (self.window_width / size as u32) as i64;
        let rows = (self.window_height / size as u32) as i64;
        if x < 0 {
            Some(Collision::LeftWall)
        } else if x >= cols {
            Some(Collision::RightWall)
        } else if y < 0 {
            Some(Collision::TopWall)
        } else if y >= rows {
            Some(Collision::BottomWall)
        } else {
            None
        }
    }
}

} // verus!
