use chessboard::board::{
    is_promotion_move, lift_piece, report_move, ChessBoard, DragSession, Highlight, Interaction,
};
use chessboard::geometry::{pixel_to_square, square_to_pixel_center, BoardRect, Point, Square};
use chessboard::rules::{IllegalMove, PieceKind, PromotionPiece, Side};
use owlchess::Board;

const RECT: BoardRect = BoardRect { left: 20, top: 40, side: 900 };
const START: &str = "rnbqkbnr/pppppppp/8/8/8/8/PPPPPPPP/RNBQKBNR w KQkq - 0 1";
const PAWN_ON_E7: &str = "8/4P3/8/8/8/8/8/k6K w - - 0 1";

fn sq(name: &str) -> Square {
    let bytes = name.as_bytes();
    Square { file: bytes[0] - b'a', rank: bytes[1] - b'1' }
}

fn center(board: &ChessBoard, name: &str) -> Point {
    square_to_pixel_center(sq(name), RECT, board.is_reversed())
}

fn with_fen(fen: &str) -> ChessBoard {
    ChessBoard::with_position(Board::from_fen(fen).unwrap())
}

fn drag(board: &mut ChessBoard, start: &str, end: &str) -> Option<String> {
    let from = center(board, start);
    let to = center(board, end);
    board.handle_drag_started(from, RECT);
    board.handle_drag(Point { x: (from.x + to.x) / 2, y: (from.y + to.y) / 2 }, RECT);
    board.handle_drag(to, RECT);
    board.handle_drag_released(to, RECT)
}

fn fen(board: &ChessBoard) -> String {
    board.position().as_fen()
}

#[test]
fn new_board_is_idle_at_the_start_position() {
    let board = ChessBoard::new();
    assert_eq!(fen(&board), START);
    assert!(!board.is_reversed());
    assert_eq!(board.interaction(), Interaction::Idle);
    assert_eq!(board.drag_session(), None);
    assert!(!board.has_pending_promotion());
    assert_eq!(board.side_to_move(), Side::White);
    assert_eq!(board.occupant(sq("e2")), Some((PieceKind::Pawn, Side::White)));
    assert_eq!(board.occupant(sq("d8")), Some((PieceKind::Queen, Side::Black)));
    assert_eq!(board.occupant(sq("e4")), None);
}

#[test]
fn drag_of_the_king_pawn_commits_e4() {
    let mut board = ChessBoard::new();
    let e2 = center(&board, "e2");
    let e4 = center(&board, "e4");
    board.handle_drag_started(e2, RECT);
    assert_eq!(
        board.interaction(),
        Interaction::Dragging(DragSession {
            piece: PieceKind::Pawn,
            owner: Side::White,
            pointer: e2,
            start: sq("e2"),
            end: sq("e2"),
            started_with_reversed_board: false,
        })
    );
    let said = board.handle_drag_released(e4, RECT);
    assert_eq!(said, Some(String::from("e4")));
    assert_eq!(board.interaction(), Interaction::Idle);
    assert_eq!(fen(&board), "rnbqkbnr/pppppppp/8/8/4P3/8/PPPP1PPP/RNBQKBNR b KQkq e3 0 1");
}

#[test]
fn pawn_dropped_on_the_last_rank_waits_for_a_piece() {
    let mut board = with_fen(PAWN_ON_E7);
    let e7 = center(&board, "e7");
    let e8 = center(&board, "e8");
    board.handle_drag_started(e7, RECT);
    board.handle_drag(e8, RECT);
    assert_eq!(board.handle_drag_released(e8, RECT), None);
    assert!(board.has_pending_promotion());
    assert_eq!(
        board.interaction(),
        Interaction::PendingPromotion(DragSession {
            piece: PieceKind::Pawn,
            owner: Side::White,
            pointer: e8,
            start: sq("e7"),
            end: sq("e8"),
            started_with_reversed_board: false,
        })
    );
    assert_eq!(fen(&board), PAWN_ON_E7);
    let said = board.commit_promotion(PromotionPiece::Queen);
    assert_eq!(said, Some(String::from("e8=\u{2655}")));
    assert_eq!(board.interaction(), Interaction::Idle);
    assert_eq!(fen(&board), "4Q3/8/8/8/8/8/8/k6K b - - 0 1");
}

#[test]
fn each_promotion_piece_can_be_chosen() {
    for (piece, text, board_text) in [
        (PromotionPiece::Rook, "e8=\u{2656}", "4R3/8/8/8/8/8/8/k6K b - - 0 1"),
        (PromotionPiece::Bishop, "e8=\u{2657}", "4B3/8/8/8/8/8/8/k6K b - - 0 1"),
        (PromotionPiece::Knight, "e8=\u{2658}", "4N3/8/8/8/8/8/8/k6K b - - 0 1"),
    ] {
        let mut board = with_fen(PAWN_ON_E7);
        assert_eq!(drag(&mut board, "e7", "e8"), None);
        assert_eq!(board.commit_promotion(piece), Some(String::from(text)));
        assert_eq!(fen(&board), board_text);
    }
}

#[test]
fn black_pawn_promotes_on_the_first_rank() {
    let mut board = with_fen("K6k/8/8/8/8/8/1p6/8 b - - 0 1");
    assert_eq!(drag(&mut board, "b2", "b1"), None);
    assert!(board.has_pending_promotion());
    assert_eq!(board.commit_promotion(PromotionPiece::Queen), Some(String::from("b1=\u{265b}")));
    assert_eq!(fen(&board), "K6k/8/8/8/8/8/8/1q6 w - - 0 2");
}

#[test]
fn pawn_dropped_anywhere_on_the_last_rank_waits() {
    // The move to a8 is not one that a pawn on e7 makes: the board waits all
    // the same, and the choice ends the drag without a move.
    let mut board = with_fen(PAWN_ON_E7);
    assert_eq!(drag(&mut board, "e7", "a8"), None);
    assert!(board.has_pending_promotion());
    assert_eq!(board.commit_promotion(PromotionPiece::Queen), None);
    assert_eq!(board.interaction(), Interaction::Idle);
    assert_eq!(fen(&board), PAWN_ON_E7);
}

#[test]
fn piece_on_the_last_rank_is_no_promotion() {
    let mut board = with_fen("8/4R3/8/8/8/8/8/k6K w - - 0 1");
    assert_eq!(drag(&mut board, "e7", "e8"), Some(String::from("\u{2656}e8")));
    assert_eq!(board.interaction(), Interaction::Idle);
}

#[test]
fn white_pawn_on_the_first_rank_side_is_no_promotion() {
    let mut board = with_fen("4k3/8/8/8/8/8/1p2P3/4K3 w - - 0 1");
    assert_eq!(drag(&mut board, "e2", "e1"), None);
    assert_eq!(board.interaction(), Interaction::Idle);
}

#[test]
fn press_on_an_empty_square_lifts_nothing() {
    let mut board = ChessBoard::new();
    let e4 = center(&board, "e4");
    board.handle_drag_started(e4, RECT);
    assert_eq!(board.interaction(), Interaction::Idle);
    assert_eq!(board.handle_drag_released(e4, RECT), None);
    assert_eq!(fen(&board), START);
}

#[test]
fn press_on_a_piece_of_the_other_side_lifts_nothing() {
    let mut board = ChessBoard::new();
    let e7 = center(&board, "e7");
    board.handle_drag_started(e7, RECT);
    assert_eq!(board.interaction(), Interaction::Idle);
    assert_eq!(drag(&mut board, "e2", "e4"), Some(String::from("e4")));
    let d2 = center(&board, "d2");
    board.handle_drag_started(d2, RECT);
    assert_eq!(board.interaction(), Interaction::Idle);
}

#[test]
fn press_off_the_board_lifts_nothing() {
    let mut board = ChessBoard::new();
    board.handle_drag_started(Point { x: 0, y: 0 }, RECT);
    assert_eq!(board.interaction(), Interaction::Idle);
    board.handle_drag_started(Point { x: RECT.left + 30, y: RECT.top + 450 }, RECT);
    assert_eq!(board.interaction(), Interaction::Idle);
}

#[test]
fn drop_off_the_board_puts_the_piece_back() {
    let mut board = ChessBoard::new();
    let e2 = center(&board, "e2");
    board.handle_drag_started(e2, RECT);
    board.handle_drag(center(&board, "e4"), RECT);
    assert_eq!(board.handle_drag_released(Point { x: -3, y: 7000 }, RECT), None);
    assert_eq!(board.interaction(), Interaction::Idle);
    assert_eq!(fen(&board), START);
    assert_eq!(board.side_to_move(), Side::White);
}

#[test]
fn illegal_drop_puts_the_piece_back() {
    let mut board = ChessBoard::new();
    assert_eq!(drag(&mut board, "e2", "e5"), None);
    assert_eq!(board.interaction(), Interaction::Idle);
    assert_eq!(drag(&mut board, "b1", "d2"), None);
    assert_eq!(drag(&mut board, "e1", "e1"), None);
    assert_eq!(board.interaction(), Interaction::Idle);
    assert_eq!(fen(&board), START);
}

#[test]
fn pointer_is_followed_and_the_end_square_kept_off_the_board() {
    let mut board = ChessBoard::new();
    let g1 = center(&board, "g1");
    board.handle_drag_started(g1, RECT);
    let f3 = center(&board, "f3");
    board.handle_drag(f3, RECT);
    let session = board.drag_session().unwrap();
    assert_eq!((session.start, session.end, session.pointer), (sq("g1"), sq("f3"), f3));
    let outside = Point { x: RECT.left - 50, y: RECT.top + 2000 };
    board.handle_drag(outside, RECT);
    let session = board.drag_session().unwrap();
    assert_eq!((session.start, session.end, session.pointer), (sq("g1"), sq("f3"), outside));
    assert_eq!(session.piece, PieceKind::Knight);
    assert_eq!(session.owner, Side::White);
    assert_eq!(board.handle_drag_released(f3, RECT), Some(String::from("\u{2658}f3")));
}

#[test]
fn pointer_moves_without_a_piece_change_nothing() {
    let mut board = ChessBoard::new();
    board.handle_drag(center(&board, "e2"), RECT);
    assert_eq!(board.interaction(), Interaction::Idle);
    assert_eq!(fen(&board), START);
}

#[test]
fn black_moves_are_shown_with_filled_figurines() {
    let mut board = ChessBoard::new();
    assert_eq!(drag(&mut board, "e2", "e4"), Some(String::from("e4")));
    assert_eq!(board.side_to_move(), Side::Black);
    assert_eq!(drag(&mut board, "g8", "f6"), Some(String::from("\u{265e}f6")));
    assert_eq!(drag(&mut board, "f1", "c4"), Some(String::from("\u{2657}c4")));
    assert_eq!(drag(&mut board, "f6", "e4"), Some(String::from("\u{265e}xe4")));
    assert_eq!(fen(&board), "rnbqkb1r/pppppppp/8/8/2B1n3/8/PPPP1PPP/RNBQK1NR w KQkq - 0 3");
}

#[test]
fn events_are_ignored_while_a_promotion_is_pending() {
    let mut board = with_fen(PAWN_ON_E7);
    assert_eq!(drag(&mut board, "e7", "e8"), None);
    let pending = board.interaction();
    board.handle_drag_started(center(&board, "h1"), RECT);
    assert_eq!(board.interaction(), pending);
    board.handle_drag(center(&board, "a5"), RECT);
    assert_eq!(board.interaction(), pending);
    assert_eq!(board.handle_drag_released(center(&board, "a5"), RECT), None);
    assert_eq!(board.interaction(), pending);
    assert_eq!(fen(&board), PAWN_ON_E7);
    assert_eq!(board.commit_promotion(PromotionPiece::Knight), Some(String::from("e8=\u{2658}")));
}

#[test]
fn promotion_choice_without_a_pending_promotion_is_ignored() {
    let mut board = ChessBoard::new();
    assert_eq!(board.commit_promotion(PromotionPiece::Queen), None);
    assert_eq!(board.interaction(), Interaction::Idle);
    board.handle_drag_started(center(&board, "e2"), RECT);
    let dragging = board.interaction();
    assert_eq!(board.commit_promotion(PromotionPiece::Queen), None);
    assert_eq!(board.interaction(), dragging);
    assert_eq!(fen(&board), START);
}

#[test]
fn second_press_lifts_another_piece() {
    let mut board = ChessBoard::new();
    board.handle_drag_started(center(&board, "e2"), RECT);
    board.handle_drag_started(center(&board, "d2"), RECT);
    assert_eq!(board.drag_session().unwrap().start, sq("d2"));
    board.handle_drag_started(center(&board, "d5"), RECT);
    assert_eq!(board.drag_session().unwrap().start, sq("d2"));
}

#[test]
fn turning_the_board_keeps_the_session() {
    let mut board = ChessBoard::new();
    let e2 = center(&board, "e2");
    board.handle_drag_started(e2, RECT);
    board.handle_drag(center(&board, "e3"), RECT);
    let before = board.interaction();
    board.toggle_orientation();
    assert!(board.is_reversed());
    assert_eq!(board.interaction(), before);
    assert_eq!(fen(&board), START);
    // The point that showed e4 now shows d5.
    let point = square_to_pixel_center(sq("e4"), RECT, false);
    assert_eq!(pixel_to_square(point, RECT, true), Some(sq("d5")));
    board.handle_drag(point, RECT);
    let session = board.drag_session().unwrap();
    assert_eq!((session.start, session.end), (sq("e2"), sq("d5")));
    assert!(!session.started_with_reversed_board);
    let e4 = center(&board, "e4");
    assert_eq!(board.handle_drag_released(e4, RECT), Some(String::from("e4")));
}

#[test]
fn reversed_board_takes_moves() {
    let mut board = ChessBoard::new();
    board.toggle_orientation();
    let e2 = center(&board, "e2");
    assert_eq!(e2, Point { x: RECT.left + 400, y: RECT.top + 200 });
    assert_eq!(drag(&mut board, "e2", "e4"), Some(String::from("e4")));
    assert_eq!(drag(&mut board, "b8", "c6"), Some(String::from("\u{265e}c6")));
    board.toggle_orientation();
    assert!(!board.is_reversed());
    assert_eq!(drag(&mut board, "d1", "h5"), Some(String::from("\u{2655}h5")));
}

#[test]
fn squares_are_marked_while_a_piece_is_in_hand() {
    let mut board = ChessBoard::new();
    assert_eq!(board.highlight(sq("e2")), Highlight::Plain);
    board.handle_drag_started(center(&board, "g1"), RECT);
    assert_eq!(board.highlight(sq("g1")), Highlight::End);
    assert_eq!(board.highlight(sq("g5")), Highlight::Cross);
    assert_eq!(board.highlight(sq("a1")), Highlight::Cross);
    assert_eq!(board.highlight(sq("f3")), Highlight::Plain);
    board.handle_drag(center(&board, "f3"), RECT);
    assert_eq!(board.highlight(sq("f3")), Highlight::End);
    assert_eq!(board.highlight(sq("g1")), Highlight::Start);
    assert_eq!(board.highlight(sq("f1")), Highlight::Cross);
    assert_eq!(board.highlight(sq("h3")), Highlight::Cross);
    assert_eq!(board.highlight(sq("e2")), Highlight::Plain);
    board.handle_drag(center(&board, "g3"), RECT);
    assert_eq!(board.highlight(sq("g1")), Highlight::Cross);
    assert_eq!(board.highlight(sq("g3")), Highlight::End);
}

#[test]
fn lifted_piece_is_not_on_its_square() {
    let mut board = ChessBoard::new();
    assert!(!board.is_lifted(sq("g1")));
    board.handle_drag_started(center(&board, "g1"), RECT);
    board.handle_drag(center(&board, "f3"), RECT);
    assert!(board.is_lifted(sq("g1")));
    assert!(!board.is_lifted(sq("f3")));
    assert!(!board.is_lifted(sq("b1")));
}

#[test]
fn lifted_piece_is_drawn_under_the_pointer() {
    let mut board = ChessBoard::new();
    assert_eq!(board.lifted_piece_anchor(RECT), None);
    board.handle_drag_started(center(&board, "g1"), RECT);
    let point = Point { x: 333, y: 444 };
    board.handle_drag(point, RECT);
    assert_eq!(board.lifted_piece_anchor(RECT), Some(point));
    board.toggle_orientation();
    assert_eq!(board.lifted_piece_anchor(RECT), Some(point));
}

#[test]
fn waiting_pawn_stays_over_its_square_when_the_board_is_turned() {
    let mut board = with_fen(PAWN_ON_E7);
    let e8 = center(&board, "e8");
    assert_eq!(drag(&mut board, "e7", "e8"), None);
    assert_eq!(board.lifted_piece_anchor(RECT), Some(e8));
    board.toggle_orientation();
    let shown = board.lifted_piece_anchor(RECT).unwrap();
    assert_eq!(shown, Point { x: 2 * RECT.left + 900 - e8.x, y: 2 * RECT.top + 900 - e8.y });
    assert_eq!(pixel_to_square(shown, RECT, true), Some(sq("e8")));
    board.toggle_orientation();
    assert_eq!(board.lifted_piece_anchor(RECT), Some(e8));
}

#[test]
fn promotion_buttons_stand_on_the_side_of_the_mover() {
    let mut board = ChessBoard::new();
    assert!(board.promotion_buttons_at_bottom());
    board.toggle_orientation();
    assert!(!board.promotion_buttons_at_bottom());
    assert_eq!(drag(&mut board, "e2", "e4"), Some(String::from("e4")));
    assert!(board.promotion_buttons_at_bottom());
    board.toggle_orientation();
    assert!(!board.promotion_buttons_at_bottom());
}

#[test]
fn full_counters_end_the_drag_without_a_move() {
    let text = "4k3/8/8/8/8/8/8/4K3 w - - 65535 1";
    let mut board = with_fen(text);
    assert_eq!(drag(&mut board, "e1", "e2"), None);
    assert_eq!(board.interaction(), Interaction::Idle);
    assert_eq!(fen(&board), text);
}

#[test]
fn only_a_piece_of_the_mover_is_lifted() {
    let point = Point { x: 7, y: -9 };
    let found = Some((PieceKind::Bishop, Side::Black));
    assert_eq!(
        lift_piece(found, Side::Black, point, sq("c8"), true),
        Some(DragSession {
            piece: PieceKind::Bishop,
            owner: Side::Black,
            pointer: point,
            start: sq("c8"),
            end: sq("c8"),
            started_with_reversed_board: true,
        })
    );
    assert_eq!(lift_piece(found, Side::White, point, sq("c8"), true), None);
    assert_eq!(lift_piece(None, Side::White, point, sq("c5"), false), None);
    assert_eq!(lift_piece(None, Side::Black, point, sq("c5"), false), None);
}

#[test]
fn promotion_is_a_pawn_reaching_its_last_rank() {
    let white_pawn = Some((PieceKind::Pawn, Side::White));
    let black_pawn = Some((PieceKind::Pawn, Side::Black));
    assert!(is_promotion_move(white_pawn, sq("e8")));
    assert!(is_promotion_move(white_pawn, sq("a8")));
    assert!(!is_promotion_move(white_pawn, sq("e7")));
    assert!(!is_promotion_move(white_pawn, sq("e1")));
    assert!(is_promotion_move(black_pawn, sq("h1")));
    assert!(!is_promotion_move(black_pawn, sq("h8")));
    assert!(!is_promotion_move(black_pawn, sq("h2")));
    for kind in [PieceKind::Knight, PieceKind::Bishop, PieceKind::Rook, PieceKind::Queen, PieceKind::King] {
        assert!(!is_promotion_move(Some((kind, Side::White)), sq("e8")));
        assert!(!is_promotion_move(Some((kind, Side::Black)), sq("e1")));
    }
    assert!(!is_promotion_move(None, sq("e8")));
}

#[test]
fn played_move_is_reported_in_display_form() {
    assert_eq!(report_move(Ok(String::from("Qh5")), true), Some(String::from("\u{2655}h5")));
    assert_eq!(report_move(Ok(String::from("Qh5")), false), Some(String::from("\u{265b}h5")));
    assert_eq!(report_move(Ok(String::from("e4")), true), Some(String::from("e4")));
    assert_eq!(report_move(Err(IllegalMove::NotLegal), true), None);
    assert_eq!(report_move(Err(IllegalMove::NotWellFormed), false), None);
    assert_eq!(report_move(Err(IllegalMove::GameTooLong), true), None);
}
