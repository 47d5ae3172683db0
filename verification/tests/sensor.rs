use smart_chessboard::board::ChessBoard;
use smart_chessboard::sensor::{init_square_states, SquareState};

#[test]
fn a_square_starts_confirmed() {
    let state = SquareState::new(true);
    assert!(state.confirmed_state);
    assert!(state.last_reading);
    assert_eq!(state.consecutive_count, 5);
}

#[test]
fn the_fifth_reading_confirms_a_change() {
    let mut state = SquareState::new(false);
    for _ in 0..4 {
        assert!(!state.update(true));
        assert!(!state.confirmed_state);
    }
    assert!(state.update(true));
    assert!(state.confirmed_state);
    assert!(!state.update(true));
}

#[test]
fn a_short_glitch_is_ignored() {
    let mut state = SquareState::new(false);
    for _ in 0..4 {
        assert!(!state.update(true));
    }
    assert!(!state.update(false));
    assert_eq!(state.consecutive_count, 1);
    for _ in 0..4 {
        assert!(!state.update(true));
    }
    assert!(!state.confirmed_state);
}

#[test]
fn the_count_stops_at_its_limit() {
    let mut state = SquareState::new(true);
    for _ in 0..1000 {
        assert!(!state.update(true));
    }
    assert_eq!(state.consecutive_count, 255);
    for _ in 0..4 {
        assert!(!state.update(false));
    }
    assert!(state.update(false));
}

#[test]
fn squares_start_in_agreement_with_the_board() {
    let states = init_square_states();
    let board = ChessBoard::new();
    for square in 0..64u8 {
        let state = states[square as usize];
        assert_eq!(state.confirmed_state, board.get_piece_at(square).is_none());
        assert_eq!(state, SquareState::new(state.confirmed_state));
    }
}
