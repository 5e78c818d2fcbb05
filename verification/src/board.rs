//! The board as the player handles it: a position, the orientation in which
//! it is drawn, and the drag that is under way.

use crate::geometry::{mirror_point, opposite_point, pixel_to_square, square_at, BoardRect, Point, Square};
use crate::notation::{display_form, lemma_one_substitution, san_to_fan};
use crate::rules::{
    applied, apply_if_legal, initial_occupant, initial_position, mover_of, occupant, occupant_at,
    side_to_move, IllegalMove, MoveRequest, PieceKind, PromotionPiece, Side,
};
use vstd::prelude::*;

verus! {

/// A piece that the player has lifted, and where it has been carried.
#[derive(Clone, Copy, Debug, PartialEq, Eq, Structural)]
pub struct DragSession {
    /// The kind of the lifted piece.
    pub piece: PieceKind,
    /// The side that owns it.
    pub owner: Side,
    /// Where the pointer was last seen.
    pub pointer: Point,
    /// The square from which the piece was lifted.
    pub start: Square,
    /// The last square over which the pointer was seen.
    pub end: Square,
    /// The orientation of the board when the piece was lifted.
    pub started_with_reversed_board: bool,
}

/// What the player is doing.
#[derive(Clone, Copy, Debug, PartialEq, Eq, Structural)]
pub enum Interaction {
    /// Nothing.
    Idle,
    /// Carrying a piece.
    Dragging(DragSession),
    /// A pawn was dropped on its last rank; the board waits for the choice of
    /// the piece it becomes.
    PendingPromotion(DragSession),
}

/// How a square is marked while a piece is in hand.
#[derive(Clone, Copy, Debug, PartialEq, Eq, Structural)]
pub enum Highlight {
    /// Not marked.
    Plain,
    /// The square from which the piece was lifted.
    Start,
    /// A square on the file or the rank of the end square.
    Cross,
    /// The end square.
    End,
}

/// The mark of a square. The end square comes first, then the file and the
/// rank through it, then the start square.
pub open spec fn highlight_of(session: Option<DragSession>, square: Square) -> Highlight {
    match session {
        None => Highlight::Plain,
        Some(session) => if square == session.end {
            Highlight::End
        } else if square.file == session.end.file || square.rank == session.end.rank {
            Highlight::Cross
        } else if square == session.start {
            Highlight::Start
        } else {
            Highlight::Plain
        },
    }
}

/// The rank on which a side's pawns promote.
pub open spec fn farthest_rank(side: Side) -> u8 {
    match side {
        Side::White => 7,
        Side::Black => 0,
    }
}

/// What stands on the start square makes a move to `end` a promotion: it is a
/// pawn, and `end` lies on the last rank of the pawn's side.
pub open spec fn promotes(found: Option<(PieceKind, Side)>, end: Square) -> bool {
    match found {
        Some((piece, owner)) => piece == PieceKind::Pawn && end.rank == farthest_rank(owner),
        None => false,
    }
}

/// A move from `start` to `end` is a promotion in a position.
pub open spec fn is_promotion(position: owlchess::Board, start: Square, end: Square) -> bool {
    promotes(occupant(position, start), end)
}

/// The session that a press on a square opens: none on an empty square or on
/// a piece of the side that is not to move.
pub open spec fn lifted(
    found: Option<(PieceKind, Side)>,
    mover: Side,
    point: Point,
    square: Square,
    reversed: bool,
) -> Option<DragSession> {
    match found {
        Some((piece, owner)) => if owner == mover {
            Some(
                DragSession {
                    piece,
                    owner,
                    pointer: point,
                    start: square,
                    end: square,
                    started_with_reversed_board: reversed,
                },
            )
        } else {
            None
        },
        None => None,
    }
}

/// What is reported of a request: the display form of the notation of a move
/// that was played, and nothing of a request that was refused.
pub open spec fn reported(outcome: Result<Seq<char>, IllegalMove>, white_moved: bool) -> Option<
    Seq<char>,
> {
    match outcome {
        Ok(text) => Some(display_form(text, white_moved)),
        Err(_) => None,
    }
}

/// The state of a board.
pub struct BoardModel {
    /// The position on the board.
    pub position: owlchess::Board,
    /// Whether the board is drawn from Black's side.
    pub reversed: bool,
    /// What the player is doing.
    pub interaction: Interaction,
}

impl BoardModel {
    /// A lifted piece is the piece on its start square, it belongs to the side
    /// to move, and its squares lie on the board.
    pub open spec fn holds(self, session: DragSession) -> bool {
        &&& session.start.wf()
        &&& session.end.wf()
        &&& occupant(self.position, session.start) == Some((session.piece, session.owner))
        &&& mover_of(self.position) == session.owner
    }

    /// What is shown of the drag agrees with the position.
    pub open spec fn wf(self) -> bool {
        match self.interaction {
            Interaction::Idle => true,
            Interaction::Dragging(session) => self.holds(session),
            Interaction::PendingPromotion(session) => self.holds(session) && is_promotion(
                self.position,
                session.start,
                session.end,
            ),
        }
    }

    /// The piece in hand, if there is one.
    pub open spec fn session(self) -> Option<DragSession> {
        match self.interaction {
            Interaction::Idle => None,
            Interaction::Dragging(session) => Some(session),
            Interaction::PendingPromotion(session) => Some(session),
        }
    }

    /// Where the piece in hand is drawn: under the pointer. Once the piece
    /// waits for a promotion and the board is not in the orientation in which
    /// the piece was lifted, it is drawn at the opposite point, where its
    /// square is now drawn.
    pub open spec fn anchor(self, rect: BoardRect) -> Option<Point> {
        match self.interaction {
            Interaction::Idle => None,
            Interaction::Dragging(session) => Some(session.pointer),
            Interaction::PendingPromotion(session) => if self.reversed
                != session.started_with_reversed_board {
                Some(opposite_point(session.pointer, rect))
            } else {
                Some(session.pointer)
            },
        }
    }

    /// The buttons for the choice of a promotion piece stand at the bottom of
    /// the board when the side to move is drawn at the bottom.
    pub open spec fn buttons_at_bottom(self) -> bool {
        self.reversed != (mover_of(self.position) == Side::White)
    }

    /// The orientation is switched; nothing else changes.
    pub open spec fn toggled(self) -> BoardModel {
        BoardModel { reversed: !self.reversed, ..self }
    }

    /// The pointer is pressed at a point. On a piece of the side to move this
    /// lifts the piece. Anywhere else, and while a promotion is pending,
    /// nothing changes.
    pub open spec fn pressed(self, point: Point, rect: BoardRect) -> BoardModel {
        if self.interaction is PendingPromotion {
            self
        } else {
            match square_at(point, rect, self.reversed) {
                None => self,
                Some(square) => match lifted(
                    occupant(self.position, square),
                    mover_of(self.position),
                    point,
                    square,
                    self.reversed,
                ) {
                    None => self,
                    Some(session) => BoardModel { interaction: Interaction::Dragging(session), ..self },
                },
            }
        }
    }

    /// The pointer moves to a point while a piece is carried: the piece
    /// follows, and the square under the point, if there is one, becomes the
    /// end square. Off the board the end square stays.
    pub open spec fn moved(self, point: Point, rect: BoardRect) -> BoardModel {
        match self.interaction {
            Interaction::Dragging(session) => BoardModel {
                interaction: Interaction::Dragging(
                    DragSession {
                        pointer: point,
                        end: match square_at(point, rect, self.reversed) {
                            Some(square) => square,
                            None => session.end,
                        },
                        ..session
                    },
                ),
                ..self
            },
            _ => self,
        }
    }

    /// A request is put to the rules, which ends the drag either way. With the
    /// state goes the notation to report, where the move was played.
    pub open spec fn committed(self, request: MoveRequest) -> (BoardModel, Option<Seq<char>>) {
        let white_moved = mover_of(self.position) == Side::White;
        match applied(self.position, request) {
            Ok((next, text)) => (
                BoardModel { position: next, reversed: self.reversed, interaction: Interaction::Idle },
                reported(Ok(text), white_moved),
            ),
            Err(why) => (
                BoardModel { interaction: Interaction::Idle, ..self },
                reported(Err(why), white_moved),
            ),
        }
    }

    /// The pointer is released at a point while a piece is carried. Off the
    /// board the piece goes back. A pawn on its last rank waits for the choice
    /// of a piece. Any other move is put to the rules.
    pub open spec fn released(self, point: Point, rect: BoardRect) -> (BoardModel, Option<Seq<char>>) {
        match self.interaction {
            Interaction::Dragging(session) => match square_at(point, rect, self.reversed) {
                None => (BoardModel { interaction: Interaction::Idle, ..self }, None),
                Some(end) => if is_promotion(self.position, session.start, end) {
                    (
                        BoardModel {
                            interaction: Interaction::PendingPromotion(DragSession { end, ..session }),
                            ..self
                        },
                        None,
                    )
                } else {
                    self.committed(MoveRequest { start: session.start, end, promotion: None })
                },
            },
            _ => (self, None),
        }
    }

    /// The piece for a pending promotion is chosen: the move is put to the
    /// rules. Without a pending promotion nothing changes.
    pub open spec fn promoted(self, piece: PromotionPiece) -> (BoardModel, Option<Seq<char>>) {
        match self.interaction {
            Interaction::PendingPromotion(session) => self.committed(
                MoveRequest { start: session.start, end: session.end, promotion: Some(piece) },
            ),
            _ => (self, None),
        }
    }

    /// The pointer moves through the points of a path, one after another.
    pub open spec fn moved_along(self, path: Seq<Point>, rect: BoardRect) -> BoardModel
        decreases path.len(),
    {
        if path.len() == 0 {
            self
        } else {
            self.moved_along(path.drop_last(), rect).moved(path.last(), rect)
        }
    }
}

/// The characters of a text that may be absent.
pub open spec fn text_of(said: Option<String>) -> Option<Seq<char>> {
    match said {
        Some(text) => Some(text@),
        None => None,
    }
}

/// Opens the session for a press on a square, given what stands there and
/// which side is to move: only a piece of the side to move is lifted.
pub fn lift_piece(
    found: Option<(PieceKind, Side)>,
    mover: Side,
    point: Point,
    square: Square,
    reversed: bool,
) -> (session: Option<DragSession>)
    ensures
        session == lifted(found, mover, point, square, reversed),
{
    match found {
        Some((piece, owner)) => {
            if owner == mover {
                Some(
                    DragSession {
                        piece,
                        owner,
                        pointer: point,
                        start: square,
                        end: square,
                        started_with_reversed_board: reversed,
                    },
                )
            } else {
                None
            }
        },
        None => None,
    }
}

/// Tells whether a move to `end` is a promotion, given what stands on its
/// start square.
pub fn is_promotion_move(found: Option<(PieceKind, Side)>, end: Square) -> (r: bool)
    ensures
        r == promotes(found, end),
{
    match found {
        Some((piece, owner)) => {
            let last: u8 = match owner {
                Side::White => 7,
                Side::Black => 0,
            };
            piece == PieceKind::Pawn && end.rank == last
        },
        None => false,
    }
}

/// Gives what is to be reported of a request, given what the rules made of
/// it and which side moved.
pub fn report_move(outcome: Result<String, IllegalMove>, white_moved: bool) -> (said: Option<String>)
    ensures
        text_of(said) == reported(
            match outcome {
                Ok(text) => Ok(text@),
                Err(why) => Err(why),
            },
            white_moved,
        ),
        said is Some <==> outcome is Ok,
        said matches Some(shown) ==> shown@.len() == outcome->Ok_0@.len(),
{
    match outcome {
        Ok(text) => {
            proof {
                lemma_one_substitution(text@, white_moved);
            }
            Some(san_to_fan(text, white_moved))
        },
        Err(_) => None,
    }
}

/// A chess board that takes moves by drag and drop.
pub struct ChessBoard {
    position: owlchess::Board,
    reversed: bool,
    interaction: Interaction,
}

impl View for ChessBoard {
    type V = BoardModel;

    closed spec fn view(&self) -> BoardModel {
        BoardModel { position: self.position, reversed: self.reversed, interaction: self.interaction }
    }
}

impl ChessBoard {
    #[verifier::type_invariant]
    spec fn inv(&self) -> bool {
        self@.wf()
    }

    /// A board with the pieces on their home squares, drawn from White's
    /// side, and nothing in hand.
    pub fn new() -> (board: Self)
        ensures
            !board@.reversed,
            board@.interaction is Idle,
            mover_of(board@.position) == Side::White,
            forall|square: Square|
                square.wf() ==> #[trigger] occupant(board@.position, square) == initial_occupant(square),
    {
        ChessBoard { position: initial_position(), reversed: false, interaction: Interaction::Idle }
    }

    /// A board with a given position, drawn from White's side, and nothing in
    /// hand.
    pub fn with_position(position: owlchess::Board) -> (board: Self)
        ensures
            board@ == (BoardModel { position, reversed: false, interaction: Interaction::Idle }),
    {
        ChessBoard { position, reversed: false, interaction: Interaction::Idle }
    }

    /// The position on the board.
    pub fn position(&self) -> (position: &owlchess::Board)
        ensures
            *position == self@.position,
    {
        &self.position
    }

    /// Whether the board is drawn from Black's side.
    pub fn is_reversed(&self) -> (reversed: bool)
        ensures
            reversed == self@.reversed,
    {
        self.reversed
    }

    /// What the player is doing. Whatever it is agrees with the position.
    pub fn interaction(&self) -> (interaction: Interaction)
        ensures
            interaction == self@.interaction,
            self@.wf(),
    {
        proof {
            use_type_invariant(self);
        }
        self.interaction
    }

    /// The piece in hand, carried or waiting for a promotion, if there is one.
    pub fn drag_session(&self) -> (session: Option<DragSession>)
        ensures
            session == self@.session(),
    {
        match self.interaction {
            Interaction::Idle => None,
            Interaction::Dragging(session) => Some(session),
            Interaction::PendingPromotion(session) => Some(session),
        }
    }

    /// Whether the board waits for the choice of a promotion piece.
    pub fn has_pending_promotion(&self) -> (pending: bool)
        ensures
            pending == (self@.interaction is PendingPromotion),
    {
        match self.interaction {
            Interaction::PendingPromotion(_) => true,
            _ => false,
        }
    }

    /// The side to move.
    pub fn side_to_move(&self) -> (side: Side)
        ensures
            side == mover_of(self@.position),
    {
        side_to_move(&self.position)
    }

    /// What stands on a square.
    pub fn occupant(&self, square: Square) -> (found: Option<(PieceKind, Side)>)
        requires
            square.wf(),
        ensures
            found == occupant(self@.position, square),
    {
        occupant_at(&self.position, square)
    }

    /// How to mark a square.
    pub fn highlight(&self, square: Square) -> (mark: Highlight)
        ensures
            mark == highlight_of(self@.session(), square),
    {
        match self.drag_session() {
            None => Highlight::Plain,
            Some(session) => {
                if square.file == session.end.file && square.rank == session.end.rank {
                    Highlight::End
                } else if square.file == session.end.file || square.rank == session.end.rank {
                    Highlight::Cross
                } else if square.file == session.start.file && square.rank == session.start.rank {
                    Highlight::Start
                } else {
                    Highlight::Plain
                }
            },
        }
    }

    /// Whether the piece of a square is in hand, and so not drawn on the
    /// square.
    pub fn is_lifted(&self, square: Square) -> (lifted: bool)
        ensures
            lifted == (self@.session() matches Some(session) && session.start == square),
    {
        match self.drag_session() {
            None => false,
            Some(session) => square.file == session.start.file && square.rank == session.start.rank,
        }
    }

    /// Where to draw the piece in hand.
    pub fn lifted_piece_anchor(&self, rect: BoardRect) -> (at: Option<Point>)
        ensures
            at == self@.anchor(rect),
    {
        match self.interaction {
            Interaction::Idle => None,
            Interaction::Dragging(session) => Some(session.pointer),
            Interaction::PendingPromotion(session) => {
                if self.reversed != session.started_with_reversed_board {
                    Some(mirror_point(session.pointer, rect))
                } else {
                    Some(session.pointer)
                }
            },
        }
    }

    /// Whether the buttons for the choice of a promotion piece stand at the
    /// bottom of the board.
    pub fn promotion_buttons_at_bottom(&self) -> (bottom: bool)
        ensures
            bottom == self@.buttons_at_bottom(),
    {
        let white_turn = match side_to_move(&self.position) {
            Side::White => true,
            Side::Black => false,
        };
        self.reversed != white_turn
    }

    /// Turns the board round.
    pub fn toggle_orientation(&mut self)
        ensures
            final(self)@ == old(self)@.toggled(),
    {
        proof {
            use_type_invariant(&*self);
        }
        self.reversed = !self.reversed;
    }

    /// Puts a request to the rules and ends the drag.
    fn commit(&mut self, request: MoveRequest) -> (said: Option<String>)
        requires
            request.wf(),
        ensures
            final(self)@ == old(self)@.committed(request).0,
            text_of(said) == old(self)@.committed(request).1,
            said matches Some(text) ==> text@.len() > 0,
    {
        let white_moves = match side_to_move(&self.position) {
            Side::White => true,
            Side::Black => false,
        };
        self.interaction = Interaction::Idle;
        let outcome = apply_if_legal(&mut self.position, request);
        report_move(outcome, white_moves)
    }

    /// The pointer was pressed at `point`: lifts the piece there, if it is one
    /// of the side to move.
    pub fn handle_drag_started(&mut self, point: Point, rect: BoardRect)
        ensures
            final(self)@ == old(self)@.pressed(point, rect),
    {
        proof {
            use_type_invariant(&*self);
        }
        if let Interaction::PendingPromotion(_) = self.interaction {
            return ;
        }
        let square = match pixel_to_square(point, rect, self.reversed) {
            Some(square) => square,
            None => {
                return ;
            },
        };
        let found = occupant_at(&self.position, square);
        let mover = side_to_move(&self.position);
        if let Some(session) = lift_piece(found, mover, point, square, self.reversed) {
            self.interaction = Interaction::Dragging(session);
        }
    }

    /// The pointer moved to `point`: the lifted piece follows.
    pub fn handle_drag(&mut self, point: Point, rect: BoardRect)
        ensures
            final(self)@ == old(self)@.moved(point, rect),
    {
        proof {
            use_type_invariant(&*self);
        }
        if let Interaction::Dragging(session) = self.interaction {
            let end = match pixel_to_square(point, rect, self.reversed) {
                Some(square) => square,
                None => session.end,
            };
            self.interaction = Interaction::Dragging(DragSession { pointer: point, end, ..session });
        }
    }

    /// The pointer was released at `point`: drops the lifted piece. Returns
    /// the display notation of the move if one was played.
    pub fn handle_drag_released(&mut self, point: Point, rect: BoardRect) -> (said: Option<String>)
        ensures
            final(self)@ == old(self)@.released(point, rect).0,
            text_of(said) == old(self)@.released(point, rect).1,
            said matches Some(text) ==> text@.len() > 0,
    {
        proof {
            use_type_invariant(&*self);
        }
        let session = match self.interaction {
            Interaction::Dragging(session) => session,
            _ => {
                return None;
            },
        };
        let end = match pixel_to_square(point, rect, self.reversed) {
            Some(end) => end,
            None => {
                self.interaction = Interaction::Idle;
                return None;
            },
        };
        if is_promotion_move(occupant_at(&self.position, session.start), end) {
            self.interaction = Interaction::PendingPromotion(DragSession { end, ..session });
            return None;
        }
        self.commit(MoveRequest { start: session.start, end, promotion: None })
    }

    /// The player chose the piece for the pending promotion: plays the move.
    /// Returns the display notation of the move if it was played.
    pub fn commit_promotion(&mut self, piece: PromotionPiece) -> (said: Option<String>)
        ensures
            final(self)@ == old(self)@.promoted(piece).0,
            text_of(said) == old(self)@.promoted(piece).1,
            said matches Some(text) ==> text@.len() > 0,
    {
        proof {
            use_type_invariant(&*self);
        }
        let session = match self.interaction {
            Interaction::PendingPromotion(session) => session,
            _ => {
                return None;
            },
        };
        self.commit(MoveRequest { start: session.start, end: session.end, promotion: Some(piece) })
    }
}

/// A press on an empty square, on a piece of the side that is not to move,
/// or off the board lifts nothing: the board is as it was, and an idle board
/// stays idle.
pub proof fn lemma_press_needs_own_piece(m: BoardModel, point: Point, rect: BoardRect)
    requires
        match square_at(point, rect, m.reversed) {
            Some(square) => match occupant(m.position, square) {
                Some((_, owner)) => owner != mover_of(m.position),
                None => true,
            },
            None => true,
        },
    ensures
        m.pressed(point, rect) == m,
{
}

/// A press on a piece of the side to move lifts it, unless a promotion is
/// pending: the session records the piece, its square as start and end, the
/// pointer and the orientation.
pub proof fn lemma_press_lifts_own_piece(
    m: BoardModel,
    point: Point,
    rect: BoardRect,
    square: Square,
    piece: PieceKind,
)
    requires
        m.interaction !is PendingPromotion,
        square_at(point, rect, m.reversed) == Some(square),
        occupant(m.position, square) == Some((piece, mover_of(m.position))),
    ensures
        m.pressed(point, rect).position == m.position,
        m.pressed(point, rect).reversed == m.reversed,
        m.pressed(point, rect).interaction == Interaction::Dragging(
            DragSession {
                piece,
                owner: mover_of(m.position),
                pointer: point,
                start: square,
                end: square,
                started_with_reversed_board: m.reversed,
            },
        ),
{
}

/// However the pointer moves, a carried piece stays carried: the piece, its
/// start square, the position and the orientation are as they were.
pub proof fn lemma_moves_keep_start(m: BoardModel, path: Seq<Point>, rect: BoardRect)
    requires
        m.interaction is Dragging,
    ensures
        m.moved_along(path, rect).position == m.position,
        m.moved_along(path, rect).reversed == m.reversed,
        m.moved_along(path, rect).interaction matches Interaction::Dragging(session) && {
            &&& session.start == m.interaction->Dragging_0.start
            &&& session.piece == m.interaction->Dragging_0.piece
            &&& session.owner == m.interaction->Dragging_0.owner
            &&& session.started_with_reversed_board
                == m.interaction->Dragging_0.started_with_reversed_board
        },
    decreases path.len(),
{
    if path.len() > 0 {
        lemma_moves_keep_start(m, path.drop_last(), rect);
    }
}

/// A pawn of the side to move that is lifted, carried anywhere and dropped on
/// its last rank is not moved yet: the board waits for the choice of a piece,
/// the position is untouched and nothing is reported.
pub proof fn lemma_pawn_on_last_rank_waits(
    m: BoardModel,
    press: Point,
    path: Seq<Point>,
    release: Point,
    rect: BoardRect,
)
    requires
        m.interaction !is PendingPromotion,
        square_at(press, rect, m.reversed) matches Some(start) && occupant(m.position, start) == Some(
            (PieceKind::Pawn, mover_of(m.position)),
        ),
        square_at(release, rect, m.reversed) matches Some(end) && end.rank == farthest_rank(
            mover_of(m.position),
        ),
    ensures
        ({
            let (after, said) = m.pressed(press, rect).moved_along(path, rect).released(release, rect);
            &&& after.position == m.position
            &&& after.reversed == m.reversed
            &&& after.interaction matches Interaction::PendingPromotion(session) && {
                &&& Some(session.start) == square_at(press, rect, m.reversed)
                &&& Some(session.end) == square_at(release, rect, m.reversed)
            }
            &&& said is None
        }),
{
    lemma_moves_keep_start(m.pressed(press, rect), path, rect);
}

/// A piece of the side to move that is lifted, carried anywhere and dropped
/// on a square to which it may legally go is moved there, once: the position
/// becomes the one after that move, the board is idle again, and the move's
/// display notation is reported.
pub proof fn lemma_legal_drop_commits(
    m: BoardModel,
    press: Point,
    path: Seq<Point>,
    release: Point,
    rect: BoardRect,
    request: MoveRequest,
)
    requires
        m.interaction !is PendingPromotion,
        square_at(press, rect, m.reversed) == Some(request.start),
        occupant(m.position, request.start) matches Some((_, owner)) && owner == mover_of(m.position),
        square_at(release, rect, m.reversed) == Some(request.end),
        request.promotion is None,
        !is_promotion(m.position, request.start, request.end),
        applied(m.position, request) is Ok,
    ensures
        ({
            let (after, said) = m.pressed(press, rect).moved_along(path, rect).released(release, rect);
            let (next, text) = applied(m.position, request)->Ok_0;
            &&& after.position == next
            &&& after.reversed == m.reversed
            &&& after.interaction is Idle
            &&& said == Some(display_form(text, mover_of(m.position) == Side::White))
        }),
{
    lemma_moves_keep_start(m.pressed(press, rect), path, rect);
}

/// A carried piece that is dropped off the board goes back: the board is
/// idle, the position is untouched, nothing is put to the rules and nothing
/// is reported.
pub proof fn lemma_drop_off_board_aborts(m: BoardModel, release: Point, rect: BoardRect)
    requires
        m.interaction is Dragging,
        square_at(release, rect, m.reversed) is None,
    ensures
        m.released(release, rect) == (BoardModel { interaction: Interaction::Idle, ..m }, None::<Seq<char>>),
{
}

/// Turning the board round while a piece is carried leaves the session as it
/// is, start and end square included. Only the squares under later pointer
/// positions are found in the new orientation.
pub proof fn lemma_toggle_keeps_session(m: BoardModel, point: Point, rect: BoardRect)
    ensures
        m.toggled().interaction == m.interaction,
        m.toggled().position == m.position,
        m.toggled().reversed == !m.reversed,
        m.interaction matches Interaction::Dragging(session) ==> m.toggled().moved(point, rect).interaction
            == Interaction::Dragging(
            DragSession {
                pointer: point,
                end: match square_at(point, rect, !m.reversed) {
                    Some(square) => square,
                    None => session.end,
                },
                ..session
            },
        ),
{
}

/// While a promotion is pending the board is frozen: a press, a move and a
/// release of the pointer change nothing and report nothing. The choice of a
/// piece puts the move with that piece to the rules and ends the wait.
pub proof fn lemma_pending_promotion_waits_for_choice(
    m: BoardModel,
    point: Point,
    rect: BoardRect,
    piece: PromotionPiece,
)
    requires
        m.interaction is PendingPromotion,
    ensures
        m.pressed(point, rect) == m,
        m.moved(point, rect) == m,
        m.released(point, rect) == (m, None::<Seq<char>>),
        m.promoted(piece) == m.committed(
            MoveRequest {
                start: m.interaction->PendingPromotion_0.start,
                end: m.interaction->PendingPromotion_0.end,
                promotion: Some(piece),
            },
        ),
        m.promoted(piece).0.interaction is Idle,
{
}

/// With nothing in hand, a move and a release of the pointer and the choice
/// of a promotion piece change nothing and report nothing.
pub proof fn lemma_idle_board_ignores_stray_events(
    m: BoardModel,
    point: Point,
    rect: BoardRect,
    piece: PromotionPiece,
)
    requires
        m.interaction is Idle,
    ensures
        m.moved(point, rect) == m,
        m.released(point, rect) == (m, None::<Seq<char>>),
        m.promoted(piece) == (m, None::<Seq<char>>),
{
}

/// Whatever the player does, what is shown of the drag agrees with the
/// position: every event leads from a well-formed state to a well-formed one.
pub proof fn lemma_events_keep_wf(m: BoardModel, point: Point, rect: BoardRect, piece: PromotionPiece)
    requires
        m.wf(),
    ensures
        m.toggled().wf(),
        m.pressed(point, rect).wf(),
        m.moved(point, rect).wf(),
        m.released(point, rect).0.wf(),
        m.promoted(piece).0.wf(),
{
}

/// A move is reported only when it has been played, and every event but a
/// move that is played leaves the position as it was.
pub proof fn lemma_report_means_move(m: BoardModel, point: Point, rect: BoardRect, piece: PromotionPiece)
    ensures
        m.toggled().position == m.position,
        m.pressed(point, rect).position == m.position,
        m.moved(point, rect).position == m.position,
        m.released(point, rect).1 is None ==> m.released(point, rect).0.position == m.position,
        m.promoted(piece).1 is None ==> m.promoted(piece).0.position == m.position,
        m.released(point, rect).1 is Some ==> m.released(point, rect).0.interaction is Idle,
        m.promoted(piece).1 is Some ==> m.promoted(piece).0.interaction is Idle,
{
}

} // verus!
