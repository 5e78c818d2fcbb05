//! The rules of chess, as the `owlchess` crate keeps them.
//!
//! The position is an `owlchess::Board`. This module reads it, asks whether a
//! move from one square to another is legal, and plays the move. Everything
//! that `owlchess` decides is taken on trust; what the library does with the
//! answers is verified.

use crate::geometry::Square;
use owlchess::moves::uci;
use owlchess::moves::PromotePiece;
use owlchess::{Cell, Color, Coord, File, Make, Piece, Rank};
use vstd::prelude::*;

verus! {

/// One of the two players.
#[derive(Clone, Copy, Debug, PartialEq, Eq, Structural)]
pub enum Side {
    White,
    Black,
}

/// The kind of a piece, whatever its side.
#[derive(Clone, Copy, Debug, PartialEq, Eq, Structural)]
pub enum PieceKind {
    Pawn,
    Knight,
    Bishop,
    Rook,
    Queen,
    King,
}

/// The pieces to which a pawn may promote.
#[derive(Clone, Copy, Debug, PartialEq, Eq, Structural)]
pub enum PromotionPiece {
    Queen,
    Rook,
    Bishop,
    Knight,
}

/// A move as the player enters it: from one square to another, with the piece
/// chosen where a pawn promotes.
#[derive(Clone, Copy, Debug, PartialEq, Eq, Structural)]
pub struct MoveRequest {
    pub start: Square,
    pub end: Square,
    pub promotion: Option<PromotionPiece>,
}

impl MoveRequest {
    /// Both squares lie on the board.
    pub open spec fn wf(self) -> bool {
        self.start.wf() && self.end.wf()
    }
}

/// Why a requested move was not played.
#[derive(Clone, Copy, Debug, PartialEq, Eq, Structural)]
pub enum IllegalMove {
    /// No move of the side to move has this shape: the start square is empty
    /// or holds a piece of the other side, or the piece never moves so.
    NotWellFormed,
    /// The move has the shape of a move, and the rules refuse it in this
    /// position.
    NotLegal,
    /// One of the position's move counters stands at its largest value, so
    /// that no further move can be counted.
    GameTooLong,
}

/// `owlchess::Board`: a position. Nothing of what it holds is seen here but
/// through the functions below.
#[verifier::external_type_specification]
#[verifier::external_body]
pub struct ExBoard(owlchess::Board);

/// `owlchess::Move`: a move that has the shape of a move. It is only handed
/// from the function that makes it to those that name and play it.
#[verifier::external_type_specification]
#[verifier::external_body]
pub struct ExMove(owlchess::Move);

/// `owlchess::moves::CreateError`: why no move was made of two squares.
#[verifier::external_type_specification]
#[verifier::external_body]
pub struct ExCreateError(owlchess::moves::CreateError);

/// `owlchess::moves::ValidateError`: why a move is not legal.
#[verifier::external_type_specification]
#[verifier::external_body]
pub struct ExValidateError(owlchess::moves::ValidateError);

/// What stands on a square of a position: what `owlchess::Board::get2` finds
/// there. `file` counts from the a-file; `row` counts as `owlchess::Rank`
/// does, from rank 8 downward.
pub uninterp spec fn cell_of(board: owlchess::Board, file: u8, row: u8) -> Option<(PieceKind, Side)>;

/// The side to move in a position: what `owlchess::Board::side` returns.
pub uninterp spec fn mover_of(board: owlchess::Board) -> Side;

/// The two counters that a position carries, as `owlchess::Board::raw` shows
/// them: the half-moves since the last capture or pawn move, and the number
/// of the move.
pub uninterp spec fn counters_of(board: owlchess::Board) -> (u16, u16);

/// The move that `owlchess::moves::uci::Move::into_move` makes of two squares
/// and a promotion piece in a position, where it makes one. Files and rows
/// count as for `cell_of`.
pub uninterp spec fn move_of(
    board: owlchess::Board,
    from_file: u8,
    from_row: u8,
    to_file: u8,
    to_row: u8,
    promotion: Option<PromotionPiece>,
) -> Option<owlchess::Move>;

/// The standard notation of a move in a position, as `owlchess::Move::san`
/// gives it and prints it, where the move is legal there.
pub uninterp spec fn notation_of(board: owlchess::Board, mv: owlchess::Move) -> Option<Seq<char>>;

/// The position that `owlchess::Make::make_raw` leaves when a move is played
/// in a position, where it plays the move.
pub uninterp spec fn position_after(board: owlchess::Board, mv: owlchess::Move) -> Option<
    owlchess::Board,
>;

/// Both counters of a position can still be raised.
pub open spec fn can_count(board: owlchess::Board) -> bool {
    counters_of(board).0 < u16::MAX && counters_of(board).1 < u16::MAX
}

/// What stands on each square before the first move: `row` 0 is Black's
/// back rank and `row` 7 is White's.
pub open spec fn initial_cell(file: u8, row: u8) -> Option<(PieceKind, Side)> {
    let back = if file == 0 || file == 7 {
        PieceKind::Rook
    } else if file == 1 || file == 6 {
        PieceKind::Knight
    } else if file == 2 || file == 5 {
        PieceKind::Bishop
    } else if file == 3 {
        PieceKind::Queen
    } else {
        PieceKind::King
    };
    if row == 0 {
        Some((back, Side::Black))
    } else if row == 1 {
        Some((PieceKind::Pawn, Side::Black))
    } else if row == 6 {
        Some((PieceKind::Pawn, Side::White))
    } else if row == 7 {
        Some((back, Side::White))
    } else {
        None
    }
}

/// `owlchess::Board::initial`: the position before the first move, with the
/// pieces on their home squares and White to move.
#[verifier::external_body]
pub(crate) fn initial_position() -> (board: owlchess::Board)
    ensures
        mover_of(board) == Side::White,
        forall|file: u8, row: u8|
            file < 8 && row < 8 ==> #[trigger] cell_of(board, file, row) == initial_cell(file, row),
{
    owlchess::Board::initial()
}

/// `owlchess::Board::get2`, with the cell it returns taken apart by
/// `owlchess::Cell::piece` and `owlchess::Cell::color`: the piece on a square
/// and its side, or nothing for a free square. `owlchess` panics on a file or
/// row beyond 7.
#[verifier::external_body]
pub(crate) fn cell_at(board: &owlchess::Board, file: u8, row: u8) -> (cell: Option<
    (PieceKind, Side),
>)
    requires
        file < 8,
        row < 8,
    ensures
        cell == cell_of(*board, file, row),
{
    let cell = board.get2(File::from_index(file as usize), Rank::from_index(row as usize));
    let side = match cell.color()? {
        Color::White => Side::White,
        Color::Black => Side::Black,
    };
    let kind = match cell.piece()? {
        Piece::Pawn => PieceKind::Pawn,
        Piece::Knight => PieceKind::Knight,
        Piece::Bishop => PieceKind::Bishop,
        Piece::Rook => PieceKind::Rook,
        Piece::Queen => PieceKind::Queen,
        Piece::King => PieceKind::King,
    };
    Some((kind, side))
}

/// The letter that stands for a piece: a capital for White, a small letter
/// for Black.
pub open spec fn letter_of(kind: PieceKind, side: Side) -> char {
    match (kind, side) {
        (PieceKind::Pawn, Side::White) => 'P',
        (PieceKind::Knight, Side::White) => 'N',
        (PieceKind::Bishop, Side::White) => 'B',
        (PieceKind::Rook, Side::White) => 'R',
        (PieceKind::Queen, Side::White) => 'Q',
        (PieceKind::King, Side::White) => 'K',
        (PieceKind::Pawn, Side::Black) => 'p',
        (PieceKind::Knight, Side::Black) => 'n',
        (PieceKind::Bishop, Side::Black) => 'b',
        (PieceKind::Rook, Side::Black) => 'r',
        (PieceKind::Queen, Side::Black) => 'q',
        (PieceKind::King, Side::Black) => 'k',
    }
}

/// `owlchess::Cell::as_char` on the cell that `owlchess::Cell::from_parts`
/// makes of a piece and its side: the piece's letter.
#[verifier::external_body]
pub(crate) fn cell_letter(kind: PieceKind, side: Side) -> (letter: char)
    ensures
        letter == letter_of(kind, side),
{
    let color = match side {
        Side::White => Color::White,
        Side::Black => Color::Black,
    };
    let piece = match kind {
        PieceKind::Pawn => Piece::Pawn,
        PieceKind::Knight => Piece::Knight,
        PieceKind::Bishop => Piece::Bishop,
        PieceKind::Rook => Piece::Rook,
        PieceKind::Queen => Piece::Queen,
        PieceKind::King => Piece::King,
    };
    Cell::from_parts(color, piece).as_char()
}

/// `owlchess::Board::side`: the side to move.
#[verifier::external_body]
pub(crate) fn side_to_move(board: &owlchess::Board) -> (side: Side)
    ensures
        side == mover_of(*board),
{
    match board.side() {
        Color::White => Side::White,
        Color::Black => Side::Black,
    }
}

/// `owlchess::Board::raw`, for the two counters of the position.
#[verifier::external_body]
pub(crate) fn counters(board: &owlchess::Board) -> (r: (u16, u16))
    ensures
        r == counters_of(*board),
    no_unwind
{
    (board.raw().move_counter, board.raw().move_number)
}

/// `owlchess::moves::uci::Move::into_move` on the move from one square to
/// another: the move of the side to move that has this shape, or an error
/// where there is none. Nothing is said yet of its being legal. `owlchess`
/// panics on a file or row beyond 7.
#[verifier::external_body]
pub(crate) fn resolve(
    board: &owlchess::Board,
    from_file: u8,
    from_row: u8,
    to_file: u8,
    to_row: u8,
    promotion: Option<PromotionPiece>,
) -> (r: Result<owlchess::Move, owlchess::moves::CreateError>)
    requires
        from_file < 8,
        from_row < 8,
        to_file < 8,
        to_row < 8,
    ensures
        r.ok() == move_of(*board, from_file, from_row, to_file, to_row, promotion),
    no_unwind
{
    let from = (File::from_index(from_file as usize), Rank::from_index(from_row as usize));
    let to = (File::from_index(to_file as usize), Rank::from_index(to_row as usize));
    let src = Coord::from_parts(from.0, from.1);
    let dst = Coord::from_parts(to.0, to.1);
    let promote = match promotion {
        None => None,
        Some(PromotionPiece::Queen) => Some(PromotePiece::Queen),
        Some(PromotionPiece::Rook) => Some(PromotePiece::Rook),
        Some(PromotionPiece::Bishop) => Some(PromotePiece::Bishop),
        Some(PromotionPiece::Knight) => Some(PromotePiece::Knight),
    };
    uci::Move::Move { src, dst, promote }.into_move(board)
}

/// `owlchess::Move::san`, printed: the standard notation of a move in the
/// position before it, or an error where the move is not legal there. The
/// notation names at least the square or the castling, so it is never empty.
/// To find whether the move gives check, `owlchess` plays it on a copy of the
/// board and counts it: with a counter at its largest value that would
/// overflow.
#[verifier::external_body]
pub(crate) fn notation(board: &owlchess::Board, mv: &owlchess::Move) -> (r: Result<
    String,
    owlchess::moves::ValidateError,
>)
    requires
        can_count(*board),
    ensures
        match r {
            Ok(text) => notation_of(*board, *mv) == Some(text@) && text@.len() > 0,
            Err(_) => notation_of(*board, *mv) is None,
        },
    no_unwind
{
    match mv.san(board) {
        Ok(san) => Ok(san.to_string()),
        Err(refused) => Err(refused),
    }
}

/// `owlchess::Make::make_raw` for a move: plays the move on the board if it
/// is legal there, and otherwise returns an error and leaves the board as it
/// was. Playing a move counts it: with a counter at its largest value that
/// would overflow.
#[verifier::external_body]
pub(crate) fn play(board: &mut owlchess::Board, mv: &owlchess::Move) -> (r: Result<
    (),
    owlchess::moves::ValidateError,
>)
    requires
        can_count(*old(board)),
    ensures
        match r {
            Ok(_) => position_after(*old(board), *mv) == Some(*final(board)),
            Err(_) => position_after(*old(board), *mv) is None && *final(board) == *old(board),
        },
    no_unwind
{
    match mv.make_raw(board) {
        Ok(_) => Ok(()),
        Err(refused) => Err(refused),
    }
}

/// The row in which `owlchess` keeps a rank: it counts from rank 8 downward.
pub open spec fn row_of(rank: u8) -> u8 {
    (7 - rank) as u8
}

/// What stands on a square of a position: a piece and its side, or nothing.
pub open spec fn occupant(board: owlchess::Board, square: Square) -> Option<(PieceKind, Side)> {
    cell_of(board, square.file, row_of(square.rank))
}

/// What stands on a square before the first move.
pub open spec fn initial_occupant(square: Square) -> Option<(PieceKind, Side)> {
    initial_cell(square.file, row_of(square.rank))
}

/// The move that a request denotes in a position, where it denotes one.
pub open spec fn requested_move(board: owlchess::Board, request: MoveRequest) -> Option<
    owlchess::Move,
> {
    move_of(
        board,
        request.start.file,
        row_of(request.start.rank),
        request.end.file,
        row_of(request.end.rank),
        request.promotion,
    )
}

/// What becomes of a request in a position: the position after the move and
/// the move's standard notation, or the reason why nothing is played.
pub open spec fn applied(board: owlchess::Board, request: MoveRequest) -> Result<
    (owlchess::Board, Seq<char>),
    IllegalMove,
> {
    match requested_move(board, request) {
        None => Err(IllegalMove::NotWellFormed),
        Some(mv) => if !can_count(board) {
            Err(IllegalMove::GameTooLong)
        } else {
            match (notation_of(board, mv), position_after(board, mv)) {
                (Some(text), Some(next)) => Ok((next, text)),
                _ => Err(IllegalMove::NotLegal),
            }
        },
    }
}

/// Gives the letter by which a piece of a side is known.
pub fn get_piece_type_from(kind: PieceKind, side: Side) -> (letter: char)
    ensures
        letter == letter_of(kind, side),
{
    cell_letter(kind, side)
}

/// Reads what stands on a square.
pub fn occupant_at(board: &owlchess::Board, square: Square) -> (r: Option<(PieceKind, Side)>)
    requires
        square.wf(),
    ensures
        r == occupant(*board, square),
{
    cell_at(board, square.file, 7 - square.rank)
}

/// Plays the requested move if it is legal and returns its standard notation,
/// taken in the position before the move. A request that is refused leaves the
/// position untouched. A position whose counters are full takes no further
/// move.
pub fn apply_if_legal(board: &mut owlchess::Board, request: MoveRequest) -> (r: Result<
    String,
    IllegalMove,
>)
    requires
        request.wf(),
    ensures
        match applied(*old(board), request) {
            Ok((next, text)) => *final(board) == next && r is Ok && r->Ok_0@ == text,
            Err(why) => *final(board) == *old(board) && r == Err::<String, IllegalMove>(why),
        },
        r matches Ok(text) ==> text@.len() > 0,
    no_unwind
{
    let resolved = resolve(
        board,
        request.start.file,
        7 - request.start.rank,
        request.end.file,
        7 - request.end.rank,
        request.promotion,
    );
    let mv = match resolved {
        Ok(mv) => mv,
        Err(_) => {
            return Err(IllegalMove::NotWellFormed);
        },
    };
    let (clock, number) = counters(board);
    if clock == u16::MAX || number == u16::MAX {
        return Err(IllegalMove::GameTooLong);
    }
    let text = match notation(board, &mv) {
        Ok(text) => text,
        Err(_) => {
            return Err(IllegalMove::NotLegal);
        },
    };
    match play(board, &mv) {
        Ok(_) => Ok(text),
        Err(_) => Err(IllegalMove::NotLegal),
    }
}

} // verus!
