use smart_chessboard::piece::{Color, Piece, PieceType};
use smart_chessboard::squares::{channel_levels, get_square_index, square_name};

const KINDS: [(PieceType, &str, &str); 6] = [
    (PieceType::Pawn, "Pawn", "P"),
    (PieceType::Knight, "Knight", "N"),
    (PieceType::Bishop, "Bishop", "B"),
    (PieceType::Rook, "Rook", "R"),
    (PieceType::Queen, "Queen", "Q"),
    (PieceType::King, "King", "K"),
];

#[test]
fn opposite_swaps_the_sides() {
    assert_eq!(Color::White.opposite(), Color::Black);
    assert_eq!(Color::Black.opposite(), Color::White);
    assert_eq!(Color::White.opposite().opposite(), Color::White);
}

#[test]
fn colors_have_names() {
    assert_eq!(Color::White.to_str(), "White");
    assert_eq!(Color::Black.to_str(), "Black");
}

#[test]
fn piece_names_join_side_and_kind() {
    for (piece_type, word, _) in KINDS {
        for color in [Color::White, Color::Black] {
            let piece = Piece { piece_type, color };
            assert_eq!(piece.to_str(), format!("{} {}", color.to_str(), word));
        }
    }
}

#[test]
fn letters_are_capitals_for_white_and_small_for_black() {
    for (piece_type, _, letter) in KINDS {
        let white = Piece { piece_type, color: Color::White };
        let black = Piece { piece_type, color: Color::Black };
        assert_eq!(white.short_to_str(), letter);
        assert_eq!(black.short_to_str(), letter.to_lowercase());
    }
}

#[test]
fn squares_are_numbered_from_h1_to_a8() {
    assert_eq!(square_name(0), "H1");
    assert_eq!(square_name(7), "A1");
    assert_eq!(square_name(11), "E2");
    assert_eq!(square_name(28), "D4");
    assert_eq!(square_name(56), "H8");
    assert_eq!(square_name(63), "A8");
}

#[test]
fn square_names_are_all_different() {
    for a in 0..64u8 {
        for b in 0..a {
            assert_ne!(square_name(a), square_name(b));
        }
    }
}

#[test]
fn each_pin_reads_two_rows() {
    assert_eq!(get_square_index(1, 0), Some(56));
    assert_eq!(get_square_index(1, 8), Some(48));
    assert_eq!(get_square_index(2, 7), Some(47));
    assert_eq!(get_square_index(2, 15), Some(39));
    assert_eq!(get_square_index(3, 3), Some(27));
    assert_eq!(get_square_index(3, 11), Some(19));
    assert_eq!(get_square_index(4, 0), Some(8));
    assert_eq!(get_square_index(4, 15), Some(7));
}

#[test]
fn unknown_pins_and_channels_read_nothing() {
    assert_eq!(get_square_index(0, 0), None);
    assert_eq!(get_square_index(5, 0), None);
    for pin in 1..=4u8 {
        assert_eq!(get_square_index(pin, 16), None);
        assert_eq!(get_square_index(pin, usize::MAX), None);
    }
}

#[test]
fn a_scan_reads_every_square_once() {
    let mut reads = [0u8; 64];
    for pin in 1..=4u8 {
        for channel in 0..16usize {
            let square = get_square_index(pin, channel).unwrap();
            reads[square as usize] += 1;
        }
    }
    assert_eq!(reads, [1u8; 64]);
}

#[test]
fn control_lines_spell_the_channel() {
    assert_eq!(channel_levels(0), [false, false, false, false]);
    assert_eq!(channel_levels(1), [true, false, false, false]);
    assert_eq!(channel_levels(6), [false, true, true, false]);
    assert_eq!(channel_levels(12), [false, false, true, true]);
    for channel in 0..16usize {
        let levels = channel_levels(channel);
        let mut number = 0usize;
        for line in 0..4 {
            if levels[line] {
                number += 1 << line;
            }
        }
        assert_eq!(number, channel);
    }
}
