use smart_chessboard::game::{Game, Notice};
use smart_chessboard::piece::{Color, Piece, PieceType};
use smart_chessboard::squares::get_square_index;
use smart_chessboard::tracker::{GameState, MoveResult, CAPTURE_TICKS};

fn white(piece_type: PieceType) -> Piece {
    Piece { piece_type, color: Color::White }
}

fn black(piece_type: PieceType) -> Piece {
    Piece { piece_type, color: Color::Black }
}

/// Scans the whole board once with the given readings.
fn scan(game: &mut Game, readings: &[bool; 64]) -> Vec<Notice> {
    let mut notices = Vec::new();
    for channel in 0..16usize {
        let mut pins = [false; 4];
        for pin in 1..=4u8 {
            let square = get_square_index(pin, channel).unwrap();
            pins[pin as usize - 1] = readings[square as usize];
        }
        for notice in game.process_channel(channel, pins) {
            notices.extend(notice);
        }
    }
    notices
}

fn start_readings() -> [bool; 64] {
    let mut readings = [false; 64];
    for square in 16..48 {
        readings[square] = true;
    }
    readings
}

#[test]
fn a_quiet_board_tells_nothing() {
    let mut game = Game::new();
    for _ in 0..20 {
        assert_eq!(scan(&mut game, &start_readings()), Vec::new());
        assert_eq!(game.tick(), None);
    }
}

#[test]
fn a_move_is_told_after_five_scans() {
    let mut game = Game::new();
    let mut readings = start_readings();
    let pawn = white(PieceType::Pawn);
    readings[11] = true;
    for _ in 0..4 {
        assert_eq!(scan(&mut game, &readings), Vec::new());
    }
    assert_eq!(
        scan(&mut game, &readings),
        vec![Notice {
            square: 11,
            result: MoveResult::PieceLifted(11, pawn),
            turn: Color::White
        }]
    );
    assert_eq!(game.chess_board.get_piece_at(11), None);
    readings[27] = false;
    for _ in 0..4 {
        assert_eq!(scan(&mut game, &readings), Vec::new());
    }
    assert_eq!(
        scan(&mut game, &readings),
        vec![Notice {
            square: 27,
            result: MoveResult::MoveCompleted(11, 27, pawn, None),
            turn: Color::Black
        }]
    );
    assert_eq!(game.chess_board.get_piece_at(27), Some(pawn));
    assert_eq!(game.chess_board.get_piece_at(11), None);
    assert_eq!(scan(&mut game, &readings), Vec::new());
}

#[test]
fn unknown_sensors_are_passed_over() {
    let mut game = Game::new();
    for _ in 0..10 {
        assert_eq!(game.process_reading(0, 3, true), None);
        assert_eq!(game.process_reading(5, 3, true), None);
        assert_eq!(game.process_reading(4, 16, true), None);
    }
    assert_eq!(game.move_tracker.get_game_state(), GameState::WaitingForMove);
}

#[test]
fn notices_of_one_channel_come_in_the_order_of_the_pins() {
    let mut game = Game::new();
    for _ in 0..4 {
        assert_eq!(game.process_channel(3, [true, true, true, true]), [None; 4]);
    }
    let notices = game.process_channel(3, [true, true, true, true]);
    assert_eq!(
        notices,
        [
            Some(Notice { square: 59, result: MoveResult::WrongTurn, turn: Color::White }),
            None,
            None,
            Some(Notice {
                square: 11,
                result: MoveResult::PieceLifted(11, white(PieceType::Pawn)),
                turn: Color::White
            }),
        ]
    );
}

#[test]
fn a_piece_lifted_out_of_turn_stays_on_the_board() {
    let mut game = Game::new();
    let notice = game.lift(51).unwrap();
    assert_eq!(notice.result, MoveResult::WrongTurn);
    assert_eq!(notice.turn, Color::White);
    assert_eq!(game.chess_board.get_piece_at(51), Some(black(PieceType::Pawn)));
    assert_eq!(game.chess_board.black_pawns, 0x00FF000000000000);
    assert_eq!(game.place(51).result, MoveResult::InvalidAction);
    assert_eq!(game.chess_board.get_piece_at(51), Some(black(PieceType::Pawn)));
}

#[test]
fn an_empty_square_cannot_be_lifted() {
    let mut game = Game::new();
    assert_eq!(game.lift(30), None);
    assert_eq!(game.move_tracker.get_game_state(), GameState::WaitingForMove);
}

#[test]
fn a_capture_takes_the_piece_off_the_board() {
    let mut game = Game::new();
    game.lift(11);
    game.place(27);
    game.lift(52);
    game.place(36);
    game.lift(27);
    let notice = game.lift(36).unwrap();
    let taken = black(PieceType::Pawn);
    assert_eq!(notice.result, MoveResult::PieceCaptured(36, taken));
    let notice = game.place(36);
    let pawn = white(PieceType::Pawn);
    assert_eq!(notice.result, MoveResult::MoveCompleted(27, 36, pawn, Some(taken)));
    assert_eq!(notice.turn, Color::Black);
    assert_eq!(game.chess_board.get_piece_at(36), Some(pawn));
    assert_eq!(game.chess_board.get_piece_at(27), None);
    assert_eq!(game.chess_board.black_pawns, 0x00EF000000000000);
}

#[test]
fn a_third_piece_lifted_during_a_capture_is_passed_over() {
    let mut game = Game::new();
    game.lift(0);
    game.lift(48);
    assert_eq!(game.lift(49), None);
    assert_eq!(game.chess_board.get_piece_at(49), None);
    assert_eq!(game.move_tracker.get_game_state(), GameState::WaitingForPlacement);
}

#[test]
fn a_promotion_puts_a_queen_on_the_board() {
    let mut game = Game::new();
    game.chess_board.remove_piece(60);
    game.chess_board.remove_piece(52);
    game.chess_board.remove_piece(12);
    game.chess_board.place_piece(52, white(PieceType::Pawn));
    game.lift(52);
    let notice = game.place(60);
    assert_eq!(notice.result, MoveResult::PawnPromoted(52, 60));
    assert_eq!(notice.turn, Color::White);
    assert_eq!(game.chess_board.get_piece_at(60), None);
    assert_eq!(game.lift(60), None);
    let queen = white(PieceType::Queen);
    let notice = game.place(60);
    assert_eq!(notice.result, MoveResult::PromotionCompleted(52, 60, queen, None));
    assert_eq!(notice.turn, Color::Black);
    assert_eq!(game.chess_board.get_piece_at(60), Some(queen));
    assert_eq!(game.chess_board.get_piece_at(52), None);
}

#[test]
fn a_capturing_promotion_puts_a_queen_on_the_board() {
    let mut game = Game::new();
    game.chess_board.remove_piece(52);
    game.chess_board.place_piece(52, white(PieceType::Pawn));
    game.lift(52);
    game.lift(61);
    let bishop = black(PieceType::Bishop);
    assert_eq!(game.place(61).result, MoveResult::PawnPromotedWithCapture(52, 61, bishop));
    let queen = white(PieceType::Queen);
    assert_eq!(
        game.place(61).result,
        MoveResult::PromotionCompleted(52, 61, queen, Some(bishop))
    );
    assert_eq!(game.chess_board.get_piece_at(61), Some(queen));
}

#[test]
fn a_long_held_piece_can_still_be_placed() {
    let mut game = Game::new();
    game.lift(11);
    for _ in 0..CAPTURE_TICKS {
        assert_eq!(game.tick(), None);
    }
    assert_eq!(game.tick(), Some(MoveResult::TimeoutReached));
    assert_eq!(game.tick(), None);
    let pawn = white(PieceType::Pawn);
    assert_eq!(game.place(27).result, MoveResult::MoveCompleted(11, 27, pawn, None));
    assert_eq!(game.chess_board.get_piece_at(27), Some(pawn));
}
