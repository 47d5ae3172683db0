//! Chess pieces, their colours and the words that name them.

use vstd::prelude::*;

verus! {

/// The kind of a chess piece.
#[derive(Debug, Clone, Copy, PartialEq, Eq, Structural)]
pub enum PieceType {
    Pawn,
    Knight,
    Bishop,
    Rook,
    Queen,
    King,
}

/// The side that a piece belongs to, and the side whose turn it is.
#[derive(Debug, Clone, Copy, PartialEq, Eq, Structural)]
pub enum Color {
    White,
    Black,
}

/// A chess piece: what it is and whose it is.
#[derive(Debug, Clone, Copy, PartialEq, Eq, Structural)]
pub struct Piece {
    pub piece_type: PieceType,
    pub color: Color,
}

impl PieceType {
    /// The English name of the kind.
    pub open spec fn name(self) -> Seq<char> {
        match self {
            PieceType::Pawn => "Pawn"@,
            PieceType::Knight => "Knight"@,
            PieceType::Bishop => "Bishop"@,
            PieceType::Rook => "Rook"@,
            PieceType::Queen => "Queen"@,
            PieceType::King => "King"@,
        }
    }

    /// The capital letter that stands for the kind in move notation.
    pub open spec fn letter(self) -> char {
        match self {
            PieceType::Pawn => 'P',
            PieceType::Knight => 'N',
            PieceType::Bishop => 'B',
            PieceType::Rook => 'R',
            PieceType::Queen => 'Q',
            PieceType::King => 'K',
        }
    }
}

impl Color {
    /// The other side.
    pub open spec fn other(self) -> Color {
        match self {
            Color::White => Color::Black,
            Color::Black => Color::White,
        }
    }

    /// The English name of the side.
    pub open spec fn name(self) -> Seq<char> {
        match self {
            Color::White => "White"@,
            Color::Black => "Black"@,
        }
    }

    /// Returns the other side.
    pub fn opposite(&self) -> (r: Color)
        ensures
            r == self.other(),
    {
        match self {
            Color::White => Color::Black,
            Color::Black => Color::White,
        }
    }

    /// Returns the English name of the side.
    pub fn to_str(&self) -> (r: &'static str)
        ensures
            r@ == self.name(),
    {
        match self {
            Color::White => "White",
            Color::Black => "Black",
        }
    }
}

/// The small letter for a capital letter of the Latin alphabet.
pub open spec fn lower_case(c: char) -> char {
    (c as u32 + 32) as char
}

impl Piece {
    /// The name of the piece: its side, a blank, its kind.
    pub open spec fn name(self) -> Seq<char> {
        self.color.name() + seq![' '] + self.piece_type.name()
    }

    /// The one letter that stands for the piece: a capital for white, a small letter for black.
    pub open spec fn letter(self) -> char {
        match self.color {
            Color::White => self.piece_type.letter(),
            Color::Black => lower_case(self.piece_type.letter()),
        }
    }

    /// Returns the name of the piece, such as "White Pawn".
    pub fn to_str(&self) -> (r: &'static str)
        ensures
            r@ == self.name(),
    {
        proof {
            reveal_piece_words();
        }
        match (self.color, self.piece_type) {
            (Color::White, PieceType::Pawn) => "White Pawn",
            (Color::Black, PieceType::Pawn) => "Black Pawn",
            (Color::White, PieceType::Knight) => "White Knight",
            (Color::Black, PieceType::Knight) => "Black Knight",
            (Color::White, PieceType::Bishop) => "White Bishop",
            (Color::Black, PieceType::Bishop) => "Black Bishop",
            (Color::White, PieceType::Rook) => "White Rook",
            (Color::Black, PieceType::Rook) => "Black Rook",
            (Color::White, PieceType::Queen) => "White Queen",
            (Color::Black, PieceType::Queen) => "Black Queen",
            (Color::White, PieceType::King) => "White King",
            (Color::Black, PieceType::King) => "Black King",
        }
    }

    /// Returns the letter that stands for the piece, such as "N" or "n".
    pub fn short_to_str(&self) -> (r: &'static str)
        ensures
            r@ == seq![self.letter()],
    {
        proof {
            reveal_strlit("P");
            reveal_strlit("p");
            reveal_strlit("N");
            reveal_strlit("n");
            reveal_strlit("B");
            reveal_strlit("b");
            reveal_strlit("R");
            reveal_strlit("r");
            reveal_strlit("Q");
            reveal_strlit("q");
            reveal_strlit("K");
            reveal_strlit("k");
        }
        match (self.color, self.piece_type) {
            (Color::White, PieceType::Pawn) => "P",
            (Color::Black, PieceType::Pawn) => "p",
            (Color::White, PieceType::Knight) => "N",
            (Color::Black, PieceType::Knight) => "n",
            (Color::White, PieceType::Bishop) => "B",
            (Color::Black, PieceType::Bishop) => "b",
            (Color::White, PieceType::Rook) => "R",
            (Color::Black, PieceType::Rook) => "r",
            (Color::White, PieceType::Queen) => "Q",
            (Color::Black, PieceType::Queen) => "q",
            (Color::White, PieceType::King) => "K",
            (Color::Black, PieceType::King) => "k",
        }
    }
}

/// Every full name of a piece is the name of its side, a blank and the name of its kind.
proof fn reveal_piece_words()
    ensures
        "White Pawn"@ == "White"@ + seq![' '] + "Pawn"@,
        "Black Pawn"@ == "Black"@ + seq![' '] + "Pawn"@,
        "White Knight"@ == "White"@ + seq![' '] + "Knight"@,
        "Black Knight"@ == "Black"@ + seq![' '] + "Knight"@,
        "White Bishop"@ == "White"@ + seq![' '] + "Bishop"@,
        "Black Bishop"@ == "Black"@ + seq![' '] + "Bishop"@,
        "White Rook"@ == "White"@ + seq![' '] + "Rook"@,
        "Black Rook"@ == "Black"@ + seq![' '] + "Rook"@,
        "White Queen"@ == "White"@ + seq![' '] + "Queen"@,
        "Black Queen"@ == "Black"@ + seq![' '] + "Queen"@,
        "White King"@ == "White"@ + seq![' '] + "King"@,
        "Black King"@ == "Black"@ + seq![' '] + "King"@,
{
    reveal_strlit("White");
    reveal_strlit("Black");
    reveal_strlit("Pawn");
    reveal_strlit("Knight");
    reveal_strlit("Bishop");
    reveal_strlit("Rook");
    reveal_strlit("Queen");
    reveal_strlit("King");
    reveal_strlit("White Pawn");
    reveal_strlit("Black Pawn");
    reveal_strlit("White Knight");
    reveal_strlit("Black Knight");
    reveal_strlit("White Bishop");
    reveal_strlit("Black Bishop");
    reveal_strlit("White Rook");
    reveal_strlit("Black Rook");
    reveal_strlit("White Queen");
    reveal_strlit("Black Queen");
    reveal_strlit("White King");
    reveal_strlit("Black King");
}

/// A side is never its own opponent, and the opponent's opponent is the side itself.
pub proof fn law_opposite_swaps_sides(c: Color)
    ensures
        c.other() != c,
        c.other().other() == c,
{
}

/// Two different pieces never share a letter: a letter on the display names one piece.
pub proof fn law_letters_tell_pieces_apart(a: Piece, b: Piece)
    ensures
        a.letter() == b.letter() <==> a == b,
{
}

/// The letter of a piece is the first of its kind's name, but for the knight, which has the N. Black
/// has the small letter where white has the capital.
pub proof fn law_letters_come_from_the_names(white: Piece, black: Piece)
    requires
        white.color == Color::White,
        black.color == Color::Black,
        white.piece_type == black.piece_type,
    ensures
        white.piece_type != PieceType::Knight ==> white.letter() == white.piece_type.name()[0],
        white.piece_type == PieceType::Knight ==> white.letter() == 'N',
        'A' <= white.letter() <= 'Z',
        'a' <= black.letter() <= 'z',
        black.letter() as int - 'a' as int == white.letter() as int - 'A' as int,
{
    reveal_strlit("Pawn");
    reveal_strlit("Bishop");
    reveal_strlit("Rook");
    reveal_strlit("Queen");
    reveal_strlit("King");
}

/// The name of a piece begins with its side and a blank, and what follows is the name of its kind,
/// the same for both sides.
pub proof fn law_names_tell_side_and_kind(piece: Piece)
    ensures
        piece.name().len() == piece.piece_type.name().len() + 6,
        piece.color == Color::White ==> piece.name().take(6) == seq!['W', 'h', 'i', 't', 'e', ' '],
        piece.color == Color::Black ==> piece.name().take(6) == seq!['B', 'l', 'a', 'c', 'k', ' '],
        piece.name().take(5) == piece.color.name(),
        piece.name().skip(6) == match piece.piece_type {
            PieceType::Pawn => seq!['P', 'a', 'w', 'n'],
            PieceType::Knight => seq!['K', 'n', 'i', 'g', 'h', 't'],
            PieceType::Bishop => seq!['B', 'i', 's', 'h', 'o', 'p'],
            PieceType::Rook => seq!['R', 'o', 'o', 'k'],
            PieceType::Queen => seq!['Q', 'u', 'e', 'e', 'n'],
            PieceType::King => seq!['K', 'i', 'n', 'g'],
        },
        piece.name().skip(6) == piece.piece_type.name(),
{
    reveal_strlit("White");
    reveal_strlit("Black");
    reveal_strlit("Pawn");
    reveal_strlit("Knight");
    reveal_strlit("Bishop");
    reveal_strlit("Rook");
    reveal_strlit("Queen");
    reveal_strlit("King");
    assert(piece.name().skip(6) =~= piece.piece_type.name());
    assert(piece.name().take(5) =~= piece.color.name());
}

} // verus!
