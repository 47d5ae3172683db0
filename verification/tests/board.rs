use smart_chessboard::board::ChessBoard;
use smart_chessboard::piece::{Color, Piece, PieceType};

fn piece(color: Color, piece_type: PieceType) -> Piece {
    Piece { piece_type, color }
}

fn snapshot(board: &ChessBoard) -> Vec<Option<Piece>> {
    (0..64u8).map(|square| board.get_piece_at(square)).collect()
}

#[test]
fn the_starting_position_is_set_up() {
    let board = ChessBoard::new();
    let back = [
        PieceType::Rook,
        PieceType::Knight,
        PieceType::Bishop,
        PieceType::King,
        PieceType::Queen,
        PieceType::Bishop,
        PieceType::Knight,
        PieceType::Rook,
    ];
    for file in 0..8u8 {
        let kind = back[file as usize];
        assert_eq!(board.get_piece_at(file), Some(piece(Color::White, kind)));
        assert_eq!(board.get_piece_at(8 + file), Some(piece(Color::White, PieceType::Pawn)));
        assert_eq!(board.get_piece_at(48 + file), Some(piece(Color::Black, PieceType::Pawn)));
        assert_eq!(board.get_piece_at(56 + file), Some(piece(Color::Black, kind)));
    }
    for square in 16..48u8 {
        assert_eq!(board.get_piece_at(square), None);
    }
}

#[test]
fn the_starting_words_are_exact() {
    let board = ChessBoard::new();
    assert_eq!(board.white_pawns, 0xFF00);
    assert_eq!(board.white_king, 0x08);
    assert_eq!(board.white_queens, 0x10);
    assert_eq!(board.black_pawns, 0x00FF000000000000);
    assert_eq!(board.black_rooks, 0x8100000000000000);
}

#[test]
fn removing_a_piece_empties_its_square_alone() {
    let mut board = ChessBoard::new();
    let before = snapshot(&board);
    board.remove_piece(11);
    for square in 0..64u8 {
        let expected = if square == 11 { None } else { before[square as usize] };
        assert_eq!(board.get_piece_at(square), expected);
    }
    let once = snapshot(&board);
    board.remove_piece(11);
    assert_eq!(snapshot(&board), once);
}

#[test]
fn every_piece_can_be_placed_and_taken_off_again() {
    let kinds = [
        PieceType::Pawn,
        PieceType::Knight,
        PieceType::Bishop,
        PieceType::Rook,
        PieceType::Queen,
        PieceType::King,
    ];
    for color in [Color::White, Color::Black] {
        for kind in kinds {
            let mut board = ChessBoard::new();
            let before = snapshot(&board);
            board.place_piece(35, piece(color, kind));
            assert_eq!(board.get_piece_at(35), Some(piece(color, kind)));
            board.remove_piece(35);
            assert_eq!(snapshot(&board), before);
        }
    }
}

#[test]
fn the_first_of_two_pieces_on_a_square_is_shown() {
    let mut board = ChessBoard::new();
    board.place_piece(35, piece(Color::Black, PieceType::Pawn));
    board.place_piece(35, piece(Color::White, PieceType::King));
    assert_eq!(board.get_piece_at(35), Some(piece(Color::White, PieceType::King)));
    board.place_piece(35, piece(Color::White, PieceType::Rook));
    assert_eq!(board.get_piece_at(35), Some(piece(Color::White, PieceType::Rook)));
}

#[test]
fn a_move_takes_one_piece_from_square_to_square() {
    let mut board = ChessBoard::new();
    let pawn = piece(Color::White, PieceType::Pawn);
    board.execute_move(11, 27, pawn, None);
    assert_eq!(board.get_piece_at(11), None);
    assert_eq!(board.get_piece_at(27), Some(pawn));
    assert_eq!(board.white_pawns, 0x0800F700);
}

#[test]
fn a_move_there_and_back_restores_the_position() {
    let mut board = ChessBoard::new();
    let before = snapshot(&board);
    let knight = piece(Color::White, PieceType::Knight);
    board.execute_move(1, 18, knight, None);
    board.execute_move(18, 1, knight, None);
    assert_eq!(snapshot(&board), before);
}

#[test]
fn a_capture_removes_what_stood_there() {
    let mut board = ChessBoard::new();
    let queen = piece(Color::White, PieceType::Queen);
    let pawn = piece(Color::Black, PieceType::Pawn);
    board.execute_move(4, 52, queen, Some(pawn));
    assert_eq!(board.get_piece_at(4), None);
    assert_eq!(board.get_piece_at(52), Some(queen));
    assert_eq!(board.black_pawns, 0x00EF000000000000);
}

#[test]
fn a_move_without_a_capture_leaves_what_stood_there() {
    let mut board = ChessBoard::new();
    let queen = piece(Color::White, PieceType::Queen);
    board.execute_move(4, 52, queen, None);
    assert_eq!(board.get_piece_at(52), Some(queen));
    assert_eq!(board.black_pawns, 0x00FF000000000000);
}

#[test]
fn a_promotion_replaces_the_pawn() {
    let mut board = ChessBoard::new();
    let queen = piece(Color::White, PieceType::Queen);
    board.execute_promotion(12, 60, queen, Some(piece(Color::Black, PieceType::Queen)));
    assert_eq!(board.get_piece_at(12), None);
    assert_eq!(board.get_piece_at(60), Some(queen));
    assert_eq!(board.black_queens, 0);
    board.execute_promotion(8, 40, queen, None);
    assert_eq!(board.get_piece_at(8), None);
    assert_eq!(board.get_piece_at(40), Some(queen));
}
