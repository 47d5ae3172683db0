use smart_chessboard::display::{screen_for, write_move, write_promotion, Screen};
use smart_chessboard::piece::{Color, Piece, PieceType};
use smart_chessboard::tracker::MoveResult;

fn text(result: MoveResult) -> String {
    match screen_for(result) {
        Screen::Unchanged => String::from("(unchanged)"),
        Screen::Piece(name) => format!("piece {}", name),
        Screen::Move(text) => format!("move {}", text.as_str()),
    }
}

const PAWN: Piece = Piece { piece_type: PieceType::Pawn, color: Color::White };
const KNIGHT: Piece = Piece { piece_type: PieceType::Knight, color: Color::Black };

#[test]
fn moves_are_written_with_an_arrow() {
    assert_eq!(write_move(11, 27, PAWN, false).as_str(), "E2->E4");
    assert_eq!(write_move(62, 45, KNIGHT, false).as_str(), "B8->C6");
}

#[test]
fn captures_are_written_with_the_letter_of_the_piece() {
    assert_eq!(write_move(27, 36, PAWN, true).as_str(), "PE4xD5");
    assert_eq!(write_move(45, 28, KNIGHT, true).as_str(), "nC6xD4");
}

#[test]
fn promotions_end_with_the_queen() {
    assert_eq!(write_promotion(51, 59, false).as_str(), "E7->E8=Q");
    assert_eq!(write_promotion(51, 60, true).as_str(), "E7xD8=Q");
}

#[test]
fn a_lifted_piece_is_named() {
    assert_eq!(text(MoveResult::PieceLifted(62, KNIGHT)), "piece Black Knight");
}

#[test]
fn finished_placements_are_shown() {
    assert_eq!(text(MoveResult::MoveCompleted(11, 27, PAWN, None)), "move E2->E4");
    assert_eq!(text(MoveResult::MoveCompleted(27, 36, PAWN, Some(KNIGHT))), "move PE4xD5");
    assert_eq!(text(MoveResult::PawnPromoted(51, 59)), "move E7->E8=Q");
    assert_eq!(text(MoveResult::PawnPromotedWithCapture(51, 60, KNIGHT)), "move E7xD8=Q");
}

#[test]
fn other_results_leave_the_display_alone() {
    let queen = Piece { piece_type: PieceType::Queen, color: Color::White };
    assert_eq!(text(MoveResult::PieceCaptured(36, KNIGHT)), "(unchanged)");
    assert_eq!(text(MoveResult::PromotionCompleted(51, 59, queen, None)), "(unchanged)");
    assert_eq!(text(MoveResult::WrongTurn), "(unchanged)");
    assert_eq!(text(MoveResult::InvalidAction), "(unchanged)");
    assert_eq!(text(MoveResult::TimeoutReached), "(unchanged)");
    assert_eq!(text(MoveResult::MoveCancelled), "(unchanged)");
}
