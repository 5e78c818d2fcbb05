//! Where a pointer stands on the board: points of the surface against squares
//! of the board, in either orientation.
//!
//! Coordinates are whole numbers of one unit that the caller chooses (a pixel,
//! or a fraction of one). The board surface is a square whose side is cut
//! into cells of 111 thousandths of the side: eight cells for the squares and
//! half a cell of margin at the left and at the top, which leaves a little
//! more than half a cell at the right and at the bottom.

use vstd::prelude::*;

verus! {

/// A square of the board. `file` counts from the a-file, `rank` from White's
/// first rank, both from 0 to 7.
#[derive(Clone, Copy, Debug, PartialEq, Eq, Structural)]
pub struct Square {
    pub file: u8,
    pub rank: u8,
}

impl Square {
    /// Both coordinates lie on the board.
    pub open spec fn wf(self) -> bool {
        self.file <= 7 && self.rank <= 7
    }

    /// The square of a file and a rank, if both lie on the board.
    pub fn new(file: u8, rank: u8) -> (r: Option<Square>)
        ensures
            r == if file <= 7 && rank <= 7 {
                Some(Square { file, rank })
            } else {
                None
            },
            r matches Some(square) ==> square.wf(),
    {
        if file <= 7 && rank <= 7 {
            Some(Square { file, rank })
        } else {
            None
        }
    }
}

/// A point of the surface.
#[derive(Clone, Copy, Debug, PartialEq, Eq, Structural)]
pub struct Point {
    pub x: i32,
    pub y: i32,
}

/// The square part of the surface on which the board is drawn.
#[derive(Clone, Copy, Debug, PartialEq, Eq, Structural)]
pub struct BoardRect {
    pub left: i32,
    pub top: i32,
    pub side: u32,
}

impl BoardRect {
    /// The whole rectangle has coordinates: its right and bottom edges do not
    /// lie beyond the largest one.
    pub open spec fn fits(self) -> bool {
        self.left + self.side <= i32::MAX && self.top + self.side <= i32::MAX
    }

    /// The rectangle with a corner and a side, if the whole of it has
    /// coordinates.
    pub fn new(left: i32, top: i32, side: u32) -> (r: Option<BoardRect>)
        ensures
            r == if (BoardRect { left, top, side }).fits() {
                Some(BoardRect { left, top, side })
            } else {
                None
            },
    {
        let limit: i64 = i32::MAX as i64;
        if left as i64 + side as i64 <= limit && top as i64 + side as i64 <= limit {
            Some(BoardRect { left, top, side })
        } else {
            None
        }
    }
}

/// The smallest side on which every square has a point of its own.
pub const MIN_RESOLVED_SIDE: u32 = 9;

/// The column or row of cells in which an offset from the board's edge falls,
/// for a board of side `side > 0`: the offset less half a cell, in whole
/// cells, rounded down. Columns and rows 0 to 7 hold squares.
pub open spec fn cell_index(offset: int, side: int) -> int {
    (2000 * offset - 111 * side) / (222 * side)
}

/// The offset of the middle of the cells of column or row `index`, to the
/// nearest unit, a half going up.
pub open spec fn cell_center(index: int, side: int) -> int {
    (222 * side * (index + 1) + 1000) / 2000
}

/// The file that is drawn in a column, and the column in which a file is drawn.
pub open spec fn mirror_file(col: int, reversed: bool) -> int {
    if reversed { 7 - col } else { col }
}

/// The rank that is drawn in a row, and the row in which a rank is drawn: row
/// 0 is the top of the surface, where White's last rank is drawn unless
/// the board is reversed.
pub open spec fn mirror_rank(row: int, reversed: bool) -> int {
    if reversed { row } else { 7 - row }
}

/// The square that is drawn in the cell of a column and a row.
pub open spec fn square_of_cell(col: int, row: int, reversed: bool) -> Square {
    Square { file: mirror_file(col, reversed) as u8, rank: mirror_rank(row, reversed) as u8 }
}

/// The square under a point, if the point lies on one.
pub open spec fn square_at(point: Point, rect: BoardRect, reversed: bool) -> Option<Square> {
    let col = cell_index(point.x - rect.left, rect.side as int);
    let row = cell_index(point.y - rect.top, rect.side as int);
    if rect.side > 0 && 0 <= col <= 7 && 0 <= row <= 7 {
        Some(square_of_cell(col, row, reversed))
    } else {
        None
    }
}

/// The point at the middle of a square.
pub open spec fn center_of(square: Square, rect: BoardRect, reversed: bool) -> Point {
    Point {
        x: (rect.left + cell_center(mirror_file(square.file as int, reversed), rect.side as int)) as i32,
        y: (rect.top + cell_center(mirror_rank(square.rank as int, reversed), rect.side as int)) as i32,
    }
}

/// A quotient by a positive divisor lies in a range exactly when the dividend
/// lies between the matching multiples of the divisor.
proof fn lemma_quotient_range(n: int, d: int, lo: int, hi: int)
    requires
        d > 0,
    ensures
        lo <= n / d <==> d * lo <= n,
        n / d <= hi <==> n < d * (hi + 1),
{
    let q = n / d;
    vstd::arithmetic::div_mod::lemma_fundamental_div_mod(n, d);
    vstd::arithmetic::div_mod::lemma_mod_bound(n, d);
    assert(d * q <= n < d * q + d);
    assert(lo <= q ==> d * lo <= d * q) by (nonlinear_arith)
        requires
            d > 0,
    ;
    assert(q < lo ==> d * q + d <= d * lo) by (nonlinear_arith)
        requires
            d > 0,
    ;
    assert(q <= hi ==> d * q + d <= d * (hi + 1)) by (nonlinear_arith)
        requires
            d > 0,
    ;
    assert(hi < q ==> d * (hi + 1) <= d * q) by (nonlinear_arith)
        requires
            d > 0,
    ;
}

/// The column or row of an offset, when it is one of the eight that hold squares.
fn cell_under(offset: i64, side: u32) -> (r: Option<u8>)
    requires
        -0x1_0000_0000 <= offset <= 0x1_0000_0000,
    ensures
        r matches Some(i) ==> side > 0 && i <= 7 && i == cell_index(offset as int, side as int),
        r is None ==> side == 0 || !(0 <= cell_index(offset as int, side as int) <= 7),
{
    if side == 0 {
        return None;
    }
    let num: i64 = 2000 * offset - 111 * (side as i64);
    let den: i64 = 222 * (side as i64);
    proof {
        lemma_quotient_range(num as int, den as int, 0, 7);
    }
    if num < 0 || num >= 8 * den {
        return None;
    }
    let q: u64 = (num as u64) / (den as u64);
    Some(q as u8)
}

/// Gives the square that is drawn in the cell of a column and a row, counted
/// from the left and from the top. Only columns and rows 0 to 7 hold squares.
pub fn square_in_cell(col: u8, row: u8, reversed: bool) -> (r: Option<Square>)
    ensures
        r == if col <= 7 && row <= 7 {
            Some(square_of_cell(col as int, row as int, reversed))
        } else {
            None
        },
        r matches Some(square) ==> square.wf(),
{
    if col > 7 || row > 7 {
        return None;
    }
    let file: u8 = if reversed { 7 - col } else { col };
    let rank: u8 = if reversed { row } else { 7 - row };
    Some(Square { file, rank })
}

/// Gives the column and the row of the cell in which a square is drawn.
pub fn cell_of_square(square: Square, reversed: bool) -> (cell: (u8, u8))
    requires
        square.wf(),
    ensures
        cell.0 == mirror_file(square.file as int, reversed),
        cell.1 == mirror_rank(square.rank as int, reversed),
        square_of_cell(cell.0 as int, cell.1 as int, reversed) == square,
{
    let col: u8 = if reversed { 7 - square.file } else { square.file };
    let row: u8 = if reversed { square.rank } else { 7 - square.rank };
    (col, row)
}

/// Maps a point of the surface to the square drawn under it. A point on the
/// margin or off the board, and any point of a board without extent, maps to
/// no square.
pub fn pixel_to_square(point: Point, rect: BoardRect, reversed: bool) -> (r: Option<Square>)
    ensures
        r == square_at(point, rect, reversed),
        r matches Some(square) ==> square.wf(),
{
    let col = cell_under(point.x as i64 - rect.left as i64, rect.side);
    let row = cell_under(point.y as i64 - rect.top as i64, rect.side);
    match (col, row) {
        (Some(col), Some(row)) => square_in_cell(col, row, reversed),
        _ => None,
    }
}

/// The offset of the middle of a column or row of cells.
fn center_offset(index: u8, side: u32) -> (r: u32)
    requires
        index <= 7,
    ensures
        r == cell_center(index as int, side as int),
        r <= side,
{
    let cells: u64 = index as u64 + 1;
    assert(0 <= side * cells <= side * 8) by (nonlinear_arith)
        requires
            1 <= cells <= 8,
    ;
    let span: u64 = side as u64 * cells;
    assert(222 * side * (index + 1) == 222 * span) by (nonlinear_arith)
        requires
            span == side * (index + 1),
    ;
    let num: u64 = 222 * span + 1000;
    (num / 2000) as u32
}

/// Gives the point at the middle of a square, to the nearest unit.
pub fn square_to_pixel_center(square: Square, rect: BoardRect, reversed: bool) -> (p: Point)
    requires
        square.wf(),
        rect.fits(),
    ensures
        p == center_of(square, rect, reversed),
{
    let (col, row) = cell_of_square(square, reversed);
    let dx = center_offset(col, rect.side);
    let dy = center_offset(row, rect.side);
    Point { x: (rect.left as i64 + dx as i64) as i32, y: (rect.top as i64 + dy as i64) as i32 }
}

/// An offset falls in a column or row exactly when it lies between the
/// edges of its cells: the cells of column or row `index` begin `index` cells
/// and a half from the edge of the board and end one cell further.
pub proof fn lemma_cell_bounds(offset: int, side: int, index: int)
    requires
        side > 0,
    ensures
        cell_index(offset, side) == index <==> 111 * side * (2 * index + 1) <= 2000 * offset < 111
            * side * (2 * index + 3),
{
    lemma_quotient_range(2000 * offset - 111 * side, 222 * side, index, index);
    assert((222 * side) * index == 111 * side * (2 * index + 1) - 111 * side) by (nonlinear_arith);
    assert((222 * side) * (index + 1) == 111 * side * (2 * index + 3) - 111 * side)
        by (nonlinear_arith);
}

/// A point lies on a square exactly when it lies within the cell in which
/// the square is drawn, the left and top edges included.
pub proof fn lemma_square_bounds(point: Point, rect: BoardRect, reversed: bool, square: Square)
    requires
        square.wf(),
        rect.side > 0,
    ensures
        square_at(point, rect, reversed) == Some(square) <==> {
            let col = mirror_file(square.file as int, reversed);
            let row = mirror_rank(square.rank as int, reversed);
            &&& 111 * rect.side * (2 * col + 1) <= 2000 * (point.x - rect.left) < 111 * rect.side * (2
                * col + 3)
            &&& 111 * rect.side * (2 * row + 1) <= 2000 * (point.y - rect.top) < 111 * rect.side * (2
                * row + 3)
        },
{
    let col = mirror_file(square.file as int, reversed);
    let row = mirror_rank(square.rank as int, reversed);
    lemma_cell_bounds(point.x - rect.left, rect.side as int, col);
    lemma_cell_bounds(point.y - rect.top, rect.side as int, row);
}

/// On a board of side 9 or more, the middle of each of the eight columns
/// and rows of squares falls in that column or row.
pub proof fn lemma_cell_round_trip(index: int, side: int)
    requires
        0 <= index <= 7,
        side >= MIN_RESOLVED_SIDE,
    ensures
        cell_index(cell_center(index, side), side) == index,
{
    let cells = side * (index + 1);
    let center = cell_center(index, side);
    assert(222 * side * (index + 1) == 222 * cells) by (nonlinear_arith)
        requires
            cells == side * (index + 1),
    ;
    assert((222 * side) * index == 222 * (cells - side)) by (nonlinear_arith)
        requires
            cells == side * (index + 1),
    ;
    assert((222 * side) * (index + 1) == 222 * cells) by (nonlinear_arith)
        requires
            cells == side * (index + 1),
    ;
    assert(side == 9 ==> cells == 9 * (index + 1)) by (nonlinear_arith)
        requires
            cells == side * (index + 1),
    ;
    assert(2000 * center <= 222 * cells + 1000 < 2000 * center + 2000);
    lemma_quotient_range(2000 * center - 111 * side, 222 * side, index, index);
}

/// Round trip: on a board of side 9 or more, the point at the middle of a
/// square maps back to that square, in either orientation.
pub proof fn lemma_center_round_trip(square: Square, rect: BoardRect, reversed: bool)
    requires
        square.wf(),
        rect.fits(),
        rect.side >= MIN_RESOLVED_SIDE,
    ensures
        square_at(center_of(square, rect, reversed), rect, reversed) == Some(square),
{
    let col = mirror_file(square.file as int, reversed);
    let row = mirror_rank(square.rank as int, reversed);
    let side = rect.side as int;
    lemma_cell_round_trip(col, side);
    lemma_cell_round_trip(row, side);
    lemma_center_within(col, side);
    lemma_center_within(row, side);
}

/// The middle of a column or row of squares lies on the board.
proof fn lemma_center_within(index: int, side: int)
    requires
        0 <= index <= 7,
        side >= 0,
    ensures
        0 <= cell_center(index, side) <= side,
{
    assert(0 <= side * (index + 1) <= side * 8) by (nonlinear_arith)
        requires
            0 <= index <= 7,
            side >= 0,
    ;
    assert(222 * side * (index + 1) == 222 * (side * (index + 1))) by (nonlinear_arith);
}

/// Below side 9 some square has no point of its own: the middle of its column
/// or row, to the nearest unit, already lies in a neighbouring one.
pub proof fn lemma_small_board_loses_a_square(side: int)
    requires
        0 < side < MIN_RESOLVED_SIDE,
    ensures
        exists|index: int| 0 <= index <= 7 && cell_index(cell_center(index, side), side) != index,
{
    let (index, center): (int, int) = if side == 8 {
        (3, 4)
    } else if side == 7 {
        (1, 2)
    } else if side >= 5 {
        (0, 1)
    } else {
        (0, 0)
    };
    assert(222 * side * (index + 1) == 222 * (side * (index + 1))) by (nonlinear_arith);
    assert(side * (index + 1) == if side == 8 {
        32
    } else if side == 7 {
        14
    } else {
        side
    }) by (nonlinear_arith)
        requires
            index == if side == 8 {
                3int
            } else if side == 7 {
                1int
            } else {
                0int
            },
    ;
    assert(cell_center(index, side) == center);
    lemma_quotient_range(2000 * center - 111 * side, 222 * side, index, index);
    lemma_quotient_range(2000 * center - 111 * side, 222 * side, index + 1, index + 1);
    assert(cell_index(center, side) != index);
}

/// The nearest coordinate to a number.
pub open spec fn nearest_coordinate(v: int) -> i32 {
    if v < i32::MIN {
        i32::MIN
    } else if v > i32::MAX {
        i32::MAX
    } else {
        v as i32
    }
}

/// The point that lies opposite a point across the middle of the rectangle,
/// or the nearest point that has coordinates.
pub open spec fn opposite_point(point: Point, rect: BoardRect) -> Point {
    Point {
        x: nearest_coordinate(2 * rect.left + rect.side - point.x),
        y: nearest_coordinate(2 * rect.top + rect.side - point.y),
    }
}

/// Brings a number into the range of the coordinates.
fn nearest(v: i64) -> (r: i32)
    ensures
        r == nearest_coordinate(v as int),
{
    if v < i32::MIN as i64 {
        i32::MIN
    } else if v > i32::MAX as i64 {
        i32::MAX
    } else {
        v as i32
    }
}

/// Gives the point opposite `point` across the middle of the rectangle.
pub fn mirror_point(point: Point, rect: BoardRect) -> (r: Point)
    ensures
        r == opposite_point(point, rect),
{
    Point {
        x: nearest(2 * (rect.left as i64) + rect.side as i64 - point.x as i64),
        y: nearest(2 * (rect.top as i64) + rect.side as i64 - point.y as i64),
    }
}

} // verus!
