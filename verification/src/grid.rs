//! Grid cells, world positions, and the maps between them.

use vstd::prelude::*;

verus! {

/// A cell of the level grid.
#[derive(Clone, Copy, Debug, PartialEq, Eq, Structural, Hash)]
pub struct GridCoords {
    pub x: i32,
    pub y: i32,
}

/// A point of world space, in whole world units. The driver chooses how fine
/// a unit is; the cell size it hands over is in the same unit.
#[derive(Clone, Copy, Debug, PartialEq, Eq, Structural)]
pub struct Position {
    pub x: i64,
    pub y: i64,
    pub z: i64,
}

/// The greatest integer `q` with `q * d <= n`.
pub open spec fn floor_div(n: int, d: int) -> int
    recommends
        d > 0,
{
    n / d
}

/// `v` held to the range of `i32`.
pub open spec fn clamp_i32(v: int) -> int {
    if v < i32::MIN {
        i32::MIN as int
    } else if v > i32::MAX {
        i32::MAX as int
    } else {
        v
    }
}

/// The index, along one axis, of the cell that holds coordinate `p`.
pub open spec fn axis_cell(p: int, cell_size: int) -> int {
    clamp_i32(floor_div(p, cell_size))
}

/// The coordinate, along one axis, of the centre of cell `c`.
pub open spec fn axis_centre(c: int, cell_size: int) -> int {
    c * cell_size + cell_size / 2
}

/// The cell that holds a position.
pub open spec fn cell_of(p: Position, cell_size: u32) -> GridCoords {
    GridCoords {
        x: axis_cell(p.x as int, cell_size as int) as i32,
        y: axis_cell(p.y as int, cell_size as int) as i32,
    }
}

/// The centre of a cell, at depth `z`.
pub open spec fn centre_of(c: GridCoords, cell_size: u32, z: i64) -> Position {
    Position {
        x: axis_centre(c.x as int, cell_size as int) as i64,
        y: axis_centre(c.y as int, cell_size as int) as i64,
        z,
    }
}

/// The distance between two numbers.
pub open spec fn gap(a: int, b: int) -> int {
    if a >= b {
        a - b
    } else {
        b - a
    }
}

/// The Chebyshev distance between two cells: the larger of their gaps along
/// the two axes.
pub open spec fn grid_distance(a: GridCoords, b: GridCoords) -> int {
    let dx = gap(a.x as int, b.x as int);
    let dy = gap(a.y as int, b.y as int);
    if dx >= dy {
        dx
    } else {
        dy
    }
}

impl GridCoords {
    /// The cell as the pair under which a hashed table files it.
    pub open spec fn pair(self) -> (i32, i32) {
        (self.x, self.y)
    }

    /// Makes the cell at column `x` and row `y`.
    pub fn new(x: i32, y: i32) -> (c: GridCoords)
        ensures
            c.x == x,
            c.y == y,
    {
        GridCoords { x, y }
    }

    /// Gives the cell as a pair.
    pub fn to_pair(self) -> (p: (i32, i32))
        ensures
            p == self.pair(),
    {
        (self.x, self.y)
    }

    /// Reads a cell back from its pair.
    pub fn from_pair(p: (i32, i32)) -> (c: GridCoords)
        ensures
            c.pair() == p,
            c == (GridCoords { x: p.0, y: p.1 }),
    {
        GridCoords { x: p.0, y: p.1 }
    }
}

impl Position {
    /// Makes the point `(x, y)` at depth `z`.
    pub fn new(x: i64, y: i64, z: i64) -> (p: Position)
        ensures
            p.x == x,
            p.y == y,
            p.z == z,
    {
        Position { x, y, z }
    }
}

/// Finds the cell that holds a position: each axis is floor-divided by the
/// cell size, and a quotient beyond the range of a cell index is held to the
/// nearest index.
pub fn to_grid_coords(tf: Position, cell_size: u32) -> (gc: GridCoords)
    requires
        cell_size > 0,
    ensures
        gc == cell_of(tf, cell_size),
{
    GridCoords { x: axis_to_cell(tf.x, cell_size), y: axis_to_cell(tf.y, cell_size) }
}

/// Gives the centre of a cell, with the depth `z` handed through unchanged.
pub fn to_translation(gc: GridCoords, cell_size: u32, z: i64) -> (p: Position)
    ensures
        p == centre_of(gc, cell_size, z),
        p.z == z,
{
    Position { x: cell_to_axis(gc.x, cell_size), y: cell_to_axis(gc.y, cell_size), z }
}

/// Measures the Chebyshev distance between two cells.
pub fn chebyshev(a: GridCoords, b: GridCoords) -> (d: u32)
    ensures
        d == grid_distance(a, b),
{
    let dx = axis_gap(a.x, b.x);
    let dy = axis_gap(a.y, b.y);
    if dx >= dy {
        dx
    } else {
        dy
    }
}

fn axis_gap(a: i32, b: i32) -> (d: u32)
    ensures
        d == gap(a as int, b as int),
{
    let wide: i64 = if a >= b {
        a as i64 - b as i64
    } else {
        b as i64 - a as i64
    };
    wide as u32
}

fn cell_to_axis(c: i32, cell_size: u32) -> (p: i64)
    ensures
        p == axis_centre(c as int, cell_size as int),
{
    let d: i64 = cell_size as i64;
    assert(-0x8000_0000 * 0xFFFF_FFFF <= c * d <= 0x7FFF_FFFF * 0xFFFF_FFFF) by (nonlinear_arith)
        requires
            -0x8000_0000 <= c <= 0x7FFF_FFFF,
            0 <= d <= 0xFFFF_FFFF,
    ;
    (c as i64) * d + d / 2
}

fn axis_to_cell(p: i64, cell_size: u32) -> (c: i32)
    requires
        cell_size > 0,
    ensures
        c == axis_cell(p as int, cell_size as int),
{
    let d: i64 = cell_size as i64;
    let q: i64 = if p >= 0 {
        p / d
    } else {
        -1 - ((-(p + 1)) / d)
    };
    proof {
        if p < 0 {
            lemma_floor_of_negative(p as int, d as int);
        }
    }
    if q < i32::MIN as i64 {
        i32::MIN
    } else if q > i32::MAX as i64 {
        i32::MAX
    } else {
        q as i32
    }
}

proof fn lemma_floor_of_negative(p: int, d: int)
    requires
        p < 0,
        d > 0,
    ensures
        p / d == -1 - ((-(p + 1)) / d),
{
    let m = -(p + 1);
    let k = m / d;
    assert(m == d * k + m % d && 0 <= m % d < d) by {
        vstd::arithmetic::div_mod::lemma_fundamental_div_mod(m, d);
        vstd::arithmetic::div_mod::lemma_mod_bound(m, d);
    }
    let r = d - 1 - m % d;
    assert(p == d * (-1 - k) + r) by (nonlinear_arith)
        requires
            m == -(p + 1),
            m == d * k + m % d,
            r == d - 1 - m % d,
    ;
    vstd::arithmetic::div_mod::lemma_fundamental_div_mod_converse(p, d, -1 - k, r);
}

/// A position and the centre of its cell lie in the same cell, and the
/// centre is at the depth that was asked for.
pub proof fn lemma_cell_round_trip(p: Position, cell_size: u32, z: i64)
    requires
        cell_size > 0,
    ensures
        centre_of(cell_of(p, cell_size), cell_size, z).z == z,
        cell_of(centre_of(cell_of(p, cell_size), cell_size, z), cell_size) == cell_of(
            p,
            cell_size,
        ),
{
    let g = cell_of(p, cell_size);
    lemma_centre_in_cell(g.x, cell_size);
    lemma_centre_in_cell(g.y, cell_size);
}

/// The centre of a cell is a coordinate of that cell.
pub proof fn lemma_centre_in_cell(c: i32, cell_size: u32)
    requires
        cell_size > 0,
    ensures
        i64::MIN <= axis_centre(c as int, cell_size as int) <= i64::MAX,
        axis_cell(axis_centre(c as int, cell_size as int), cell_size as int) == c,
{
    let d = cell_size as int;
    assert(-0x8000_0000 * 0xFFFF_FFFF <= c * d <= 0x7FFF_FFFF * 0xFFFF_FFFF) by (nonlinear_arith)
        requires
            -0x8000_0000 <= c <= 0x7FFF_FFFF,
            0 <= d <= 0xFFFF_FFFF,
    ;
    assert(c * d == d * c) by (nonlinear_arith);
    vstd::arithmetic::div_mod::lemma_fundamental_div_mod_converse(
        c * d + d / 2,
        d,
        c as int,
        d / 2,
    );
}

/// Floor division gives the one quotient whose multiple of the divisor lies
/// at or below the number, less than a divisor away.
pub proof fn lemma_floor_div_bounds(n: int, d: int)
    requires
        d > 0,
    ensures
        floor_div(n, d) * d <= n < (floor_div(n, d) + 1) * d,
{
    vstd::arithmetic::div_mod::lemma_fundamental_div_mod(n, d);
    vstd::arithmetic::div_mod::lemma_mod_bound(n, d);
    assert(floor_div(n, d) * d == d * (n / d)) by (nonlinear_arith);
    assert((floor_div(n, d) + 1) * d == d * (n / d) + d) by (nonlinear_arith);
}

} // verus!
