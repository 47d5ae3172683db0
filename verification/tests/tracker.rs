use smart_chessboard::piece::{Color, Piece, PieceType};
use smart_chessboard::tracker::{GameState, MoveResult, MoveTracker, CAPTURE_TICKS};

fn white(piece_type: PieceType) -> Piece {
    Piece { piece_type, color: Color::White }
}

fn black(piece_type: PieceType) -> Piece {
    Piece { piece_type, color: Color::Black }
}

#[test]
fn white_moves_first() {
    let tracker = MoveTracker::new();
    assert_eq!(tracker.get_current_turn(), Color::White);
    assert_eq!(tracker.get_game_state(), GameState::WaitingForMove);
}

#[test]
fn promotion_is_for_pawns_on_their_far_row() {
    let tracker = MoveTracker::new();
    assert!(tracker.is_promotion_move(56, white(PieceType::Pawn)));
    assert!(tracker.is_promotion_move(63, white(PieceType::Pawn)));
    assert!(!tracker.is_promotion_move(55, white(PieceType::Pawn)));
    assert!(!tracker.is_promotion_move(0, white(PieceType::Pawn)));
    assert!(tracker.is_promotion_move(0, black(PieceType::Pawn)));
    assert!(tracker.is_promotion_move(7, black(PieceType::Pawn)));
    assert!(!tracker.is_promotion_move(8, black(PieceType::Pawn)));
    assert!(!tracker.is_promotion_move(60, white(PieceType::Queen)));
}

#[test]
fn a_lifted_and_placed_piece_is_a_move() {
    let mut tracker = MoveTracker::new();
    let pawn = white(PieceType::Pawn);
    assert_eq!(tracker.piece_lifted(11, pawn), MoveResult::PieceLifted(11, pawn));
    assert_eq!(tracker.get_game_state(), GameState::PieceLifted);
    assert_eq!(tracker.piece_placed(27), MoveResult::MoveCompleted(11, 27, pawn, None));
    assert_eq!(tracker.get_current_turn(), Color::Black);
    assert_eq!(tracker.get_game_state(), GameState::WaitingForMove);
    assert_eq!(tracker.lifted_square, None);
    assert_eq!(tracker.lifted_piece, None);
}

#[test]
fn the_other_side_has_to_wait() {
    let mut tracker = MoveTracker::new();
    assert_eq!(tracker.piece_lifted(51, black(PieceType::Pawn)), MoveResult::WrongTurn);
    assert_eq!(tracker.get_current_turn(), Color::White);
    assert_eq!(tracker.get_game_state(), GameState::WaitingForMove);
}

#[test]
fn a_capture_ends_on_the_captured_square() {
    let mut tracker = MoveTracker::new();
    let rook = white(PieceType::Rook);
    let pawn = black(PieceType::Pawn);
    tracker.piece_lifted(0, rook);
    assert_eq!(tracker.piece_lifted(48, pawn), MoveResult::PieceCaptured(48, pawn));
    assert_eq!(tracker.get_game_state(), GameState::WaitingForPlacement);
    assert_eq!(tracker.piece_placed(40), MoveResult::InvalidAction);
    assert_eq!(tracker.get_game_state(), GameState::WaitingForPlacement);
    assert_eq!(tracker.piece_placed(48), MoveResult::MoveCompleted(0, 48, rook, Some(pawn)));
    assert_eq!(tracker.get_current_turn(), Color::Black);
    assert_eq!(tracker.captured_piece, None);
}

#[test]
fn the_last_lifted_piece_is_played() {
    let mut tracker = MoveTracker::new();
    let knight = white(PieceType::Knight);
    tracker.piece_lifted(11, white(PieceType::Pawn));
    assert_eq!(tracker.piece_lifted(1, knight), MoveResult::PieceLifted(1, knight));
    assert_eq!(tracker.piece_placed(18), MoveResult::MoveCompleted(1, 18, knight, None));
}

#[test]
fn events_that_make_no_sense_are_refused() {
    let mut tracker = MoveTracker::new();
    assert_eq!(tracker.piece_placed(20), MoveResult::InvalidAction);
    tracker.piece_lifted(0, white(PieceType::Rook));
    tracker.piece_lifted(48, black(PieceType::Pawn));
    assert_eq!(tracker.piece_lifted(49, black(PieceType::Pawn)), MoveResult::InvalidAction);
    assert_eq!(tracker.piece_lifted(9, white(PieceType::Pawn)), MoveResult::InvalidAction);
    assert_eq!(tracker.captured_square, Some(48));
}

#[test]
fn a_promotion_waits_for_the_queen() {
    let mut tracker = MoveTracker::new();
    tracker.piece_lifted(52, white(PieceType::Pawn));
    assert_eq!(tracker.piece_placed(60), MoveResult::PawnPromoted(52, 60));
    assert_eq!(tracker.get_game_state(), GameState::WaitingForPromotion);
    assert_eq!(tracker.get_current_turn(), Color::White);
    assert_eq!(tracker.piece_placed(61), MoveResult::InvalidAction);
    assert_eq!(
        tracker.piece_placed(60),
        MoveResult::PromotionCompleted(52, 60, white(PieceType::Queen), None)
    );
    assert_eq!(tracker.get_current_turn(), Color::Black);
}

#[test]
fn a_capturing_promotion_keeps_the_captured_piece() {
    let mut tracker = MoveTracker::new();
    let rook = black(PieceType::Rook);
    tracker.piece_lifted(49, white(PieceType::Pawn));
    tracker.piece_lifted(56, rook);
    assert_eq!(tracker.piece_placed(56), MoveResult::PawnPromotedWithCapture(49, 56, rook));
    assert_eq!(
        tracker.piece_placed(56),
        MoveResult::PromotionCompleted(49, 56, white(PieceType::Queen), Some(rook))
    );
}

#[test]
fn black_promotes_on_the_first_row() {
    let mut tracker = MoveTracker::new();
    tracker.piece_lifted(11, white(PieceType::Pawn));
    tracker.piece_placed(27);
    tracker.piece_lifted(12, black(PieceType::Pawn));
    assert_eq!(tracker.piece_placed(4), MoveResult::PawnPromoted(12, 4));
    assert_eq!(
        tracker.piece_placed(4),
        MoveResult::PromotionCompleted(12, 4, black(PieceType::Queen), None)
    );
    assert_eq!(tracker.get_current_turn(), Color::White);
}

#[test]
fn the_wait_for_a_capture_ends_after_a_hundred_ticks() {
    let mut tracker = MoveTracker::new();
    assert_eq!(tracker.update_timeout(), None);
    assert_eq!(tracker.capture_timeout, 0);
    tracker.piece_lifted(11, white(PieceType::Pawn));
    for _ in 0..CAPTURE_TICKS {
        assert_eq!(tracker.update_timeout(), None);
    }
    assert_eq!(tracker.get_game_state(), GameState::PieceLifted);
    assert_eq!(tracker.update_timeout(), Some(MoveResult::TimeoutReached));
    assert_eq!(tracker.get_game_state(), GameState::WaitingForPlacement);
    assert_eq!(tracker.update_timeout(), None);
}

#[test]
fn a_piece_can_be_placed_after_the_timeout() {
    let mut tracker = MoveTracker::new();
    let pawn = white(PieceType::Pawn);
    tracker.piece_lifted(11, pawn);
    for _ in 0..500 {
        tracker.update_timeout();
    }
    assert_eq!(tracker.piece_lifted(36, black(PieceType::Pawn)), MoveResult::InvalidAction);
    assert_eq!(tracker.piece_placed(27), MoveResult::MoveCompleted(11, 27, pawn, None));
    assert_eq!(tracker.get_current_turn(), Color::Black);
}

#[test]
fn a_pawn_can_be_promoted_after_the_timeout() {
    let mut tracker = MoveTracker::new();
    tracker.piece_lifted(52, white(PieceType::Pawn));
    for _ in 0..=CAPTURE_TICKS {
        tracker.update_timeout();
    }
    assert_eq!(tracker.piece_placed(60), MoveResult::PawnPromoted(52, 60));
    assert_eq!(
        tracker.piece_placed(60),
        MoveResult::PromotionCompleted(52, 60, white(PieceType::Queen), None)
    );
}

#[test]
fn a_capture_is_possible_on_the_last_tick() {
    let mut tracker = MoveTracker::new();
    tracker.piece_lifted(0, white(PieceType::Rook));
    for _ in 0..CAPTURE_TICKS {
        tracker.update_timeout();
    }
    let pawn = black(PieceType::Pawn);
    assert_eq!(tracker.piece_lifted(48, pawn), MoveResult::PieceCaptured(48, pawn));
    assert_eq!(tracker.update_timeout(), None);
}

#[test]
fn a_cancelled_move_leaves_the_turn() {
    let mut tracker = MoveTracker::new();
    tracker.piece_lifted(0, white(PieceType::Rook));
    tracker.piece_lifted(48, black(PieceType::Pawn));
    assert_eq!(tracker.cancel_move(), MoveResult::MoveCancelled);
    assert_eq!(tracker.get_current_turn(), Color::White);
    assert_eq!(tracker.get_game_state(), GameState::WaitingForMove);
    assert_eq!(tracker.captured_square, None);
    assert_eq!(tracker.lifted_square, None);
    assert_eq!(tracker.piece_placed(48), MoveResult::InvalidAction);
}

#[test]
fn a_completed_move_passes_the_turn() {
    let mut tracker = MoveTracker::new();
    tracker.piece_lifted(0, white(PieceType::Rook));
    tracker.complete_move();
    assert_eq!(tracker.get_current_turn(), Color::Black);
    assert_eq!(tracker.get_game_state(), GameState::WaitingForMove);
    assert_eq!(tracker.lifted_piece, None);
}
