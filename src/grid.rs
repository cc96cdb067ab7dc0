use vstd::prelude::*;

verus! {

/// A cell of the play field, in grid units (not pixels).
#[derive(Clone, Copy, Debug, PartialEq, Eq, Structural)]
pub struct Point {
    pub x: i32,
    pub y: i32,
}

impl Point {
    pub fn new(x: i32, y: i32) -> (r: Point)
        ensures
            r.x == x,
            r.y == y,
    {
        Point { x, y }
    }
}

/// One of the four directions of travel.
#[derive(Clone, Copy, Debug, PartialEq, Eq, Structural)]
pub enum Direction {
    Left,
    Right,
    Up,
    Down,
}

/// The cell reached from `p` by one step in direction `d`, as unbounded integers.
pub open spec fn advance(p: Point, d: Direction) -> (int, int) {
    match d {
        Direction::Right => (p.x + 1, p.y as int),
        Direction::Left => (p.x - 1, p.y as int),
        Direction::Down => (p.x as int, p.y + 1),
        Direction::Up => (p.x as int, p.y - 1),
    }
}

/// The direction that travels back along `d`.
pub open spec fn opposite(d: Direction) -> Direction {
    match d {
        Direction::Right => Direction::Left,
        Direction::Left => Direction::Right,
        Direction::Down => Direction::Up,
        Direction::Up => Direction::Down,
    }
}

/// Whether a point sits on the integer pair `c`.
pub open spec fn at(p: Point, c: (int, int)) -> bool {
    p.x == c.0 && p.y == c.1
}

impl Direction {
    /// The direction that travels back along this one.
    pub fn opposite(self) -> (r: Direction)
        ensures
            r == opposite(self),
    {
        match self {
            Direction::Right => Direction::Left,
            Direction::Left => Direction::Right,
            Direction::Down => Direction::Up,
            Direction::Up => Direction::Down,
        }
    }
}

impl Point {
    /// The cell one step away in direction `d`, widened so that it never overflows.
    pub fn stepped(self, d: Direction) -> (r: (i64, i64))
        ensures
            r.0 == advance(self, d).0,
            r.1 == advance(self, d).1,
    {
        match d {
            Direction::Right => (self.x as i64 + 1, self.y as i64),
            Direction::Left => (self.x as i64 - 1, self.y as i64),
            Direction::Down => (self.x as i64, self.y as i64 + 1),
            Direction::Up => (self.x as i64, self.y as i64 - 1),
        }
    }
}

/// A color given by its red, green and blue components.
#[derive(Clone, Copy, Debug, PartialEq, Eq, Structural)]
pub struct Color {
    pub r: u8,
    pub g: u8,
    pub b: u8,
}

impl Color {
    pub fn rgb(r: u8, g: u8, b: u8) -> (c: Color)
        ensures
            c.r == r,
            c.g == g,
            c.b == b,
    {
        Color { r, g, b }
    }
}

/// A filled, axis-aligned pixel rectangle: what drawing one grid cell amounts to.
#[derive(Clone, Copy, Debug, PartialEq, Eq, Structural)]
pub struct Block {
    pub x: i64,
    pub y: i64,
    pub width: u32,
    pub height: u32,
    pub color: Color,
}

/// The pixel rectangle covering `cell` when a cell is `size` pixels wide.
pub open spec fn cell_block(cell: Point, size: i32, color: Color) -> Block {
    Block {
        x: (cell.x * size) as i64,
        y: (cell.y * size) as i64,
        width: size as u32,
        height: size as u32,
        color,
    }
}

impl Block {
    /// The rectangle that draws `cell` in `color`.
    pub fn of_cell(cell: Point, size: i32, color: Color) -> (r: Block)
        requires
            size > 0,
        ensures
            r == cell_block(cell, size, color),
            r.x == cell.x * size,
            r.y == cell.y * size,
            r.width == size,
            r.height == size,
    {
        assert(-0x8000_0000 * 0x7fff_ffff <= cell.x * size <= 0x7fff_ffff * 0x7fff_ffff)
            by (nonlinear_arith)
            requires
                -0x8000_0000 <= cell.x <= 0x7fff_ffff,
                0 < size <= 0x7fff_ffff,
        ;
        assert(-0x8000_0000 * 0x7fff_ffff <= cell.y * size <= 0x7fff_ffff * 0x7fff_ffff)
            by (nonlinear_arith)
            requires
                -0x8000_0000 <= cell.y <= 0x7fff_ffff,
                0 < size <= 0x7fff_ffff,
        ;
        Block {
            x: cell.x as i64 * size as i64,
            y: cell.y as i64 * size as i64,
            width: size as u32,
            height: size as u32,
            color,
        }
    }
}

} // verus!
