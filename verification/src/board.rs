//! The position: which piece stands on which square, kept as one bit per square and piece.
//!
//! Squares are numbered from 0 to 63, row by row from white's side, and within a row from the H
//! file to the A file.

use crate::piece::{Color, Piece, PieceType};
use vstd::prelude::*;

verus! {

/// A position: the pieces that stand on the board, each with its square.
pub type Placements = Set<(Piece, u8)>;

/// The order in which a square is searched for a piece: white before black, and within a side
/// from the pawn to the king.
pub open spec fn rank(piece: Piece) -> int {
    let kind: int = match piece.piece_type {
        PieceType::Pawn => 0,
        PieceType::Knight => 1,
        PieceType::Bishop => 2,
        PieceType::Rook => 3,
        PieceType::Queen => 4,
        PieceType::King => 5,
    };
    match piece.color {
        Color::White => kind,
        Color::Black => kind + 6,
    }
}

/// Whether `piece` is the first piece in the order of `rank` that stands on `square`.
pub open spec fn is_first_on(b: Placements, piece: Piece, square: u8) -> bool {
    &&& b.contains((piece, square))
    &&& forall|other: Piece| b.contains((other, square)) ==> rank(piece) <= rank(other)
}

/// The piece that a position shows on `square`.
pub open spec fn piece_on(b: Placements, square: u8) -> Option<Piece> {
    if exists|piece: Piece| b.contains((piece, square)) {
        Some(choose|piece: Piece| is_first_on(b, piece, square))
    } else {
        None
    }
}

/// Whether no piece stands on `square`.
pub open spec fn vacant(b: Placements, square: u8) -> bool {
    forall|piece: Piece| !b.contains((piece, square))
}

/// Whether no square holds two pieces.
pub open spec fn one_per_square(b: Placements) -> bool {
    forall|p: Piece, q: Piece, square: u8|
        b.contains((p, square)) && b.contains((q, square)) ==> p == q
}

/// The position with nothing left on `square`.
pub open spec fn cleared(b: Placements, square: u8) -> Placements {
    b.filter(|at: (Piece, u8)| at.1 != square)
}

/// The position after `piece` went from `from` to `to`. The square `to` is cleared first where
/// something was captured.
pub open spec fn moved(
    b: Placements,
    from: u8,
    to: u8,
    piece: Piece,
    captured: Option<Piece>,
) -> Placements {
    let left = if captured is Some {
        cleared(cleared(b, from), to)
    } else {
        cleared(b, from)
    };
    left.insert((piece, to))
}

/// The kind of piece that starts in a given file of the back rows, counted from the H file.
pub open spec fn back_row(file: int) -> PieceType {
    if file == 0 || file == 7 {
        PieceType::Rook
    } else if file == 1 || file == 6 {
        PieceType::Knight
    } else if file == 2 || file == 5 {
        PieceType::Bishop
    } else if file == 3 {
        PieceType::King
    } else {
        PieceType::Queen
    }
}

/// The piece that stands on `square` when a game starts.
pub open spec fn starting_piece(square: u8) -> Option<Piece> {
    let row = square as int / 8;
    let file = square as int % 8;
    if row == 0 {
        Some(Piece { piece_type: back_row(file), color: Color::White })
    } else if row == 1 {
        Some(Piece { piece_type: PieceType::Pawn, color: Color::White })
    } else if row == 6 {
        Some(Piece { piece_type: PieceType::Pawn, color: Color::Black })
    } else if row == 7 {
        Some(Piece { piece_type: back_row(file), color: Color::Black })
    } else {
        None
    }
}

/// The position when a game starts.
pub open spec fn starting_position() -> Placements {
    Set::new(|at: (Piece, u8)| starting_piece(at.1) == Some(at.0))
}

/// Whether the bit for `square` is set in a word with one bit for each square.
pub open spec fn marks(word: u64, square: u8) -> bool {
    word & (1u64 << square) != 0
}

/// A position as twelve words, one for each piece, with one bit for each square.
#[derive(Debug)]
pub struct ChessBoard {
    pub white_pawns: u64,
    pub white_knights: u64,
    pub white_bishops: u64,
    pub white_rooks: u64,
    pub white_queens: u64,
    pub white_king: u64,
    pub black_pawns: u64,
    pub black_knights: u64,
    pub black_bishops: u64,
    pub black_rooks: u64,
    pub black_queens: u64,
    pub black_king: u64,
}

impl View for ChessBoard {
    type V = Placements;

    open spec fn view(&self) -> Placements {
        Set::new(|at: (Piece, u8)| at.1 < 64 && marks(self.word(at.0), at.1))
    }
}

impl ChessBoard {
    /// The word that marks the squares on which `piece` stands.
    pub open spec fn word(self, piece: Piece) -> u64 {
        match (piece.color, piece.piece_type) {
            (Color::White, PieceType::Pawn) => self.white_pawns,
            (Color::White, PieceType::Knight) => self.white_knights,
            (Color::White, PieceType::Bishop) => self.white_bishops,
            (Color::White, PieceType::Rook) => self.white_rooks,
            (Color::White, PieceType::Queen) => self.white_queens,
            (Color::White, PieceType::King) => self.white_king,
            (Color::Black, PieceType::Pawn) => self.black_pawns,
            (Color::Black, PieceType::Knight) => self.black_knights,
            (Color::Black, PieceType::Bishop) => self.black_bishops,
            (Color::Black, PieceType::Rook) => self.black_rooks,
            (Color::Black, PieceType::Queen) => self.black_queens,
            (Color::Black, PieceType::King) => self.black_king,
        }
    }

    /// Returns the board at the start of a game.
    pub fn new() -> (r: Self)
        ensures
            r@ == starting_position(),
    {
        let r = ChessBoard {
            white_pawns: 0x000000000000FF00,
            white_knights: 0x0000000000000042,
            white_bishops: 0x0000000000000024,
            white_rooks: 0x0000000000000081,
            white_queens: 0x0000000000000010,
            white_king: 0x0000000000000008,
            black_pawns: 0x00FF000000000000,
            black_knights: 0x4200000000000000,
            black_bishops: 0x2400000000000000,
            black_rooks: 0x8100000000000000,
            black_queens: 0x1000000000000000,
            black_king: 0x0800000000000000,
        };
        proof {
            assert forall|at: (Piece, u8)| r@.contains(at) == starting_position().contains(at) by {
                if at.1 < 64 {
                    lemma_starting_words(at.1);
                }
            }
            assert(r@ =~= starting_position());
        }
        r
    }

    /// Returns the piece on a square, if there is one.
    pub fn get_piece_at(&self, square: u8) -> (r: Option<Piece>)
        requires
            square < 64,
        ensures
            r == piece_on(self@, square),
            r is None <==> vacant(self@, square),
            r matches Some(piece) ==> is_first_on(self@, piece, square),
    {
        let mask: u64 = 1u64 << square;
        proof {
            self.lemma_search(square);
            law_position_shows_what_stands_there(self@, square);
        }
        if self.white_pawns & mask != 0 {
            return Some(Piece { piece_type: PieceType::Pawn, color: Color::White });
        }
        if self.white_knights & mask != 0 {
            return Some(Piece { piece_type: PieceType::Knight, color: Color::White });
        }
        if self.white_bishops & mask != 0 {
            return Some(Piece { piece_type: PieceType::Bishop, color: Color::White });
        }
        if self.white_rooks & mask != 0 {
            return Some(Piece { piece_type: PieceType::Rook, color: Color::White });
        }
        if self.white_queens & mask != 0 {
            return Some(Piece { piece_type: PieceType::Queen, color: Color::White });
        }
        if self.white_king & mask != 0 {
            return Some(Piece { piece_type: PieceType::King, color: Color::White });
        }
        if self.black_pawns & mask != 0 {
            return Some(Piece { piece_type: PieceType::Pawn, color: Color::Black });
        }
        if self.black_knights & mask != 0 {
            return Some(Piece { piece_type: PieceType::Knight, color: Color::Black });
        }
        if self.black_bishops & mask != 0 {
            return Some(Piece { piece_type: PieceType::Bishop, color: Color::Black });
        }
        if self.black_rooks & mask != 0 {
            return Some(Piece { piece_type: PieceType::Rook, color: Color::Black });
        }
        if self.black_queens & mask != 0 {
            return Some(Piece { piece_type: PieceType::Queen, color: Color::Black });
        }
        if self.black_king & mask != 0 {
            return Some(Piece { piece_type: PieceType::King, color: Color::Black });
        }
        None
    }

    /// The first piece whose word marks `square`, in the order of `rank`.
    spec fn first_marked(self, square: u8) -> Option<Piece> {
        if marks(self.white_pawns, square) {
            Some(Piece { piece_type: PieceType::Pawn, color: Color::White })
        } else if marks(self.white_knights, square) {
            Some(Piece { piece_type: PieceType::Knight, color: Color::White })
        } else if marks(self.white_bishops, square) {
            Some(Piece { piece_type: PieceType::Bishop, color: Color::White })
        } else if marks(self.white_rooks, square) {
            Some(Piece { piece_type: PieceType::Rook, color: Color::White })
        } else if marks(self.white_queens, square) {
            Some(Piece { piece_type: PieceType::Queen, color: Color::White })
        } else if marks(self.white_king, square) {
            Some(Piece { piece_type: PieceType::King, color: Color::White })
        } else if marks(self.black_pawns, square) {
            Some(Piece { piece_type: PieceType::Pawn, color: Color::Black })
        } else if marks(self.black_knights, square) {
            Some(Piece { piece_type: PieceType::Knight, color: Color::Black })
        } else if marks(self.black_bishops, square) {
            Some(Piece { piece_type: PieceType::Bishop, color: Color::Black })
        } else if marks(self.black_rooks, square) {
            Some(Piece { piece_type: PieceType::Rook, color: Color::Black })
        } else if marks(self.black_queens, square) {
            Some(Piece { piece_type: PieceType::Queen, color: Color::Black })
        } else if marks(self.black_king, square) {
            Some(Piece { piece_type: PieceType::King, color: Color::Black })
        } else {
            None
        }
    }

    /// Searching the words in the order of `rank` finds the piece that the position shows.
    proof fn lemma_search(self, square: u8)
        requires
            square < 64,
        ensures
            piece_on(self@, square) == self.first_marked(square),
    {
        assert(forall|piece: Piece| #[trigger]
            self@.contains((piece, square)) == marks(self.word(piece), square));
        match self.first_marked(square) {
            Some(piece) => {
                assert(is_first_on(self@, piece, square));
                lemma_first_is_shown(self@, piece, square);
            },
            None => {},
        }
    }

    /// Takes every piece off a square.
    pub fn remove_piece(&mut self, square: u8)
        requires
            square < 64,
        ensures
            final(self)@ == cleared(old(self)@, square),
    {
        let mask: u64 = !(1u64 << square);
        self.white_pawns &= mask;
        self.white_knights &= mask;
        self.white_bishops &= mask;
        self.white_rooks &= mask;
        self.white_queens &= mask;
        self.white_king &= mask;
        self.black_pawns &= mask;
        self.black_knights &= mask;
        self.black_bishops &= mask;
        self.black_rooks &= mask;
        self.black_queens &= mask;
        self.black_king &= mask;
        proof {
            lemma_mask_off(square);
            assert(forall|piece: Piece| #[trigger]
                self.word(piece) == old(self).word(piece) & !(1u64 << square));
            assert(self@ =~= cleared(old(self)@, square));
        }
    }

    /// Puts a piece on a square. What stood there stays.
    pub fn place_piece(&mut self, square: u8, piece: Piece)
        requires
            square < 64,
        ensures
            final(self)@ == old(self)@.insert((piece, square)),
    {
        let mask: u64 = 1u64 << square;
        match (piece.color, piece.piece_type) {
            (Color::White, PieceType::Pawn) => self.white_pawns |= mask,
            (Color::White, PieceType::Knight) => self.white_knights |= mask,
            (Color::White, PieceType::Bishop) => self.white_bishops |= mask,
            (Color::White, PieceType::Rook) => self.white_rooks |= mask,
            (Color::White, PieceType::Queen) => self.white_queens |= mask,
            (Color::White, PieceType::King) => self.white_king |= mask,
            (Color::Black, PieceType::Pawn) => self.black_pawns |= mask,
            (Color::Black, PieceType::Knight) => self.black_knights |= mask,
            (Color::Black, PieceType::Bishop) => self.black_bishops |= mask,
            (Color::Black, PieceType::Rook) => self.black_rooks |= mask,
            (Color::Black, PieceType::Queen) => self.black_queens |= mask,
            (Color::Black, PieceType::King) => self.black_king |= mask,
        }
        proof {
            lemma_mask_on(square);
            assert(self.word(piece) == old(self).word(piece) | (1u64 << square));
            assert(forall|other: Piece|
                other != piece ==> #[trigger] self.word(other) == old(self).word(other));
            assert(self@ =~= old(self)@.insert((piece, square)));
        }
    }

    /// Carries out a move.
    pub fn execute_move(&mut self, from: u8, to: u8, piece: Piece, captured_piece: Option<Piece>)
        requires
            from < 64,
            to < 64,
        ensures
            final(self)@ == moved(old(self)@, from, to, piece, captured_piece),
    {
        self.remove_piece(from);
        if captured_piece.is_some() {
            self.remove_piece(to);
        }
        self.place_piece(to, piece);
    }

    /// Carries out a promotion: the pawn leaves `from` and `promoted_piece` stands on `to`.
    pub fn execute_promotion(
        &mut self,
        from: u8,
        to: u8,
        promoted_piece: Piece,
        captured_piece: Option<Piece>,
    )
        requires
            from < 64,
            to < 64,
        ensures
            final(self)@ == moved(old(self)@, from, to, promoted_piece, captured_piece),
    {
        self.remove_piece(from);
        if captured_piece.is_some() {
            self.remove_piece(to);
        }
        self.place_piece(to, promoted_piece);
    }
}

/// No two pieces have the same rank, so the first piece on a square is the one shown there.
proof fn lemma_first_is_shown(b: Placements, piece: Piece, square: u8)
    requires
        is_first_on(b, piece, square),
    ensures
        piece_on(b, square) == Some(piece),
{
    let shown = choose|p: Piece| is_first_on(b, p, square);
    assert(is_first_on(b, shown, square));
    assert(rank(shown) == rank(piece));
}

/// Clearing a bit changes that bit alone.
proof fn lemma_mask_off(square: u8)
    requires
        square < 64,
    ensures
        forall|word: u64, s: u8|
            s < 64 ==> #[trigger] marks(word & !(1u64 << square), s) == (marks(word, s) && s
                != square),
{
    assert forall|word: u64, s: u8| s < 64 implies #[trigger] marks(word & !(1u64 << square), s)
        == (marks(word, s) && s != square) by {
        assert(((word & !(1u64 << square)) & (1u64 << s) != 0) == (word & (1u64 << s) != 0 && s
            != square)) by (bit_vector)
            requires
                square < 64,
                s < 64,
        ;
    }
}

/// Setting a bit changes that bit alone.
proof fn lemma_mask_on(square: u8)
    requires
        square < 64,
    ensures
        forall|word: u64, s: u8|
            s < 64 ==> #[trigger] marks(word | (1u64 << square), s) == (marks(word, s) || s
                == square),
{
    assert forall|word: u64, s: u8| s < 64 implies #[trigger] marks(word | (1u64 << square), s) == (
    marks(word, s) || s == square) by {
        assert(((word | (1u64 << square)) & (1u64 << s) != 0) == (word & (1u64 << s) != 0 || s
            == square)) by (bit_vector)
            requires
                square < 64,
                s < 64,
        ;
    }
}

/// The squares that the words of the starting position mark.
proof fn lemma_starting_words(s: u8)
    by (bit_vector)
    requires
        s < 64,
    ensures
        (0x000000000000FF00u64 & (1u64 << s) != 0) == (8 <= s && s < 16),
        (0x0000000000000042u64 & (1u64 << s) != 0) == (s == 1 || s == 6),
        (0x0000000000000024u64 & (1u64 << s) != 0) == (s == 2 || s == 5),
        (0x0000000000000081u64 & (1u64 << s) != 0) == (s == 0 || s == 7),
        (0x0000000000000010u64 & (1u64 << s) != 0) == (s == 4),
        (0x0000000000000008u64 & (1u64 << s) != 0) == (s == 3),
        (0x00FF000000000000u64 & (1u64 << s) != 0) == (48 <= s && s < 56),
        (0x4200000000000000u64 & (1u64 << s) != 0) == (s == 57 || s == 62),
        (0x2400000000000000u64 & (1u64 << s) != 0) == (s == 58 || s == 61),
        (0x8100000000000000u64 & (1u64 << s) != 0) == (s == 56 || s == 63),
        (0x1000000000000000u64 & (1u64 << s) != 0) == (s == 60),
        (0x0800000000000000u64 & (1u64 << s) != 0) == (s == 59),
{
}

/// Where some piece stands on a square, one of them is the first.
proof fn lemma_some_piece_is_first(b: Placements, piece: Piece, square: u8) -> (first: Piece)
    requires
        b.contains((piece, square)),
    ensures
        is_first_on(b, first, square),
    decreases rank(piece),
{
    if is_first_on(b, piece, square) {
        piece
    } else {
        let lower = choose|other: Piece|
            b.contains((other, square)) && !(rank(piece) <= rank(other));
        lemma_some_piece_is_first(b, lower, square)
    }
}

/// What a position shows on a square depends on that square alone.
proof fn lemma_shown_depends_on_the_square(a: Placements, b: Placements, square: u8)
    requires
        forall|piece: Piece| a.contains((piece, square)) == b.contains((piece, square)),
    ensures
        piece_on(a, square) == piece_on(b, square),
{
    if exists|piece: Piece| a.contains((piece, square)) {
        let piece = choose|piece: Piece| a.contains((piece, square));
        let first = lemma_some_piece_is_first(a, piece, square);
        lemma_first_is_shown(a, first, square);
        assert(is_first_on(b, first, square));
        lemma_first_is_shown(b, first, square);
    }
}

/// A position shows a piece on a square exactly when one stands there, and it shows one that does;
/// where no square holds two pieces it shows the one that stands there.
pub proof fn law_position_shows_what_stands_there(b: Placements, square: u8)
    ensures
        piece_on(b, square) is None <==> vacant(b, square),
        piece_on(b, square) matches Some(piece) ==> is_first_on(b, piece, square),
        one_per_square(b) ==> forall|piece: Piece|
            b.contains((piece, square)) <==> piece_on(b, square) == Some(piece),
{
    if exists|piece: Piece| b.contains((piece, square)) {
        let piece = choose|piece: Piece| b.contains((piece, square));
        let first = lemma_some_piece_is_first(b, piece, square);
        lemma_first_is_shown(b, first, square);
    }
}

/// After a square is cleared nothing stands on it, every other square shows what it did, and
/// clearing it again changes nothing.
pub proof fn law_clearing_a_square(b: Placements, square: u8, other: u8)
    ensures
        piece_on(cleared(b, square), square) is None,
        other != square ==> piece_on(cleared(b, square), other) == piece_on(b, other),
        cleared(cleared(b, square), square) == cleared(b, square),
        vacant(b, square) ==> cleared(b, square) == b,
{
    law_position_shows_what_stands_there(cleared(b, square), square);
    if other != square {
        lemma_shown_depends_on_the_square(cleared(b, square), b, other);
    }
    assert(cleared(cleared(b, square), square) =~= cleared(b, square));
    if vacant(b, square) {
        assert forall|at: (Piece, u8)| cleared(b, square).contains(at) == b.contains(at) by {
            assert(at == (at.0, at.1));
        }
        assert(cleared(b, square) =~= b);
    }
}

/// A piece put on a vacant square is shown there, every other square shows what it did, and taking
/// the piece off again restores the position.
pub proof fn law_placing_a_piece(b: Placements, piece: Piece, square: u8, other: u8)
    ensures
        vacant(b, square) ==> piece_on(b.insert((piece, square)), square) == Some(piece),
        other != square ==> piece_on(b.insert((piece, square)), other) == piece_on(b, other),
        vacant(b, square) ==> cleared(b.insert((piece, square)), square) == b,
{
    let after = b.insert((piece, square));
    if vacant(b, square) {
        assert(is_first_on(after, piece, square));
        lemma_first_is_shown(after, piece, square);
        assert forall|at: (Piece, u8)| cleared(after, square).contains(at) == b.contains(at) by {
            assert(at == (at.0, at.1));
        }
        assert(cleared(after, square) =~= b);
    }
    if other != square {
        lemma_shown_depends_on_the_square(after, b, other);
    }
}

/// A game starts with at most one piece on each square, and clearing a square or putting a piece
/// on a vacant one keeps it so.
pub proof fn law_one_piece_per_square(b: Placements, piece: Piece, square: u8)
    ensures
        one_per_square(starting_position()),
        one_per_square(b) ==> one_per_square(cleared(b, square)),
        one_per_square(b) && vacant(b, square) ==> one_per_square(b.insert((piece, square))),
{
}

/// A move that captures, or that ends on a vacant square or where it began, takes the piece from
/// `from` to `to`: it is shown on `to`, nothing is left on `from`, every other square shows what it
/// did, and still no square holds two pieces.
pub proof fn law_a_move_moves_one_piece(
    b: Placements,
    from: u8,
    to: u8,
    piece: Piece,
    captured: Option<Piece>,
    other: u8,
)
    requires
        captured is Some || vacant(b, to) || from == to,
    ensures
        piece_on(moved(b, from, to, piece, captured), to) == Some(piece),
        from != to ==> piece_on(moved(b, from, to, piece, captured), from) is None,
        other != from && other != to ==> piece_on(moved(b, from, to, piece, captured), other)
            == piece_on(b, other),
        one_per_square(b) ==> one_per_square(moved(b, from, to, piece, captured)),
{
    let left = if captured is Some {
        cleared(cleared(b, from), to)
    } else {
        cleared(b, from)
    };
    assert(vacant(left, to));
    law_placing_a_piece(left, piece, to, from);
    law_placing_a_piece(left, piece, to, other);
    law_position_shows_what_stands_there(left, from);
    if other != from && other != to {
        lemma_shown_depends_on_the_square(left, b, other);
    }
}

/// Where a piece stands on its square alone, moving it to a vacant square and back restores the
/// position.
pub proof fn law_a_move_can_be_taken_back(b: Placements, from: u8, to: u8, piece: Piece)
    requires
        one_per_square(b),
        b.contains((piece, from)),
        vacant(b, to),
    ensures
        moved(moved(b, from, to, piece, None), to, from, piece, None) == b,
{
    let back = moved(moved(b, from, to, piece, None), to, from, piece, None);
    assert forall|at: (Piece, u8)| back.contains(at) == b.contains(at) by {
        assert(at == (at.0, at.1));
    }
    assert(back =~= b);
}

/// Clearing a square takes every piece off it and touches no other square, also where several
/// pieces share one.
pub proof fn law_what_clearing_keeps(b: Placements, square: u8, piece: Piece, at: u8)
    ensures
        cleared(b, square).contains((piece, at)) <==> b.contains((piece, at)) && at != square,
{
}

/// What a move keeps: the moved piece stands on `to`; of the rest, everything stays but what stood
/// on `from` and, where something was captured, what stood on `to`.
pub proof fn law_what_a_move_keeps(
    b: Placements,
    from: u8,
    to: u8,
    piece: Piece,
    captured: Option<Piece>,
    other: Piece,
    at: u8,
)
    ensures
        moved(b, from, to, piece, captured).contains((piece, to)),
        (other, at) != (piece, to) && (at == from || (at == to && captured is Some)) ==> !moved(
            b,
            from,
            to,
            piece,
            captured,
        ).contains((other, at)),
        (other, at) != (piece, to) && at != from && (at != to || captured is None) ==> (moved(
            b,
            from,
            to,
            piece,
            captured,
        ).contains((other, at)) <==> b.contains((other, at))),
{
}

/// Where several pieces share a square, a white one is shown before a black one, and within a side
/// a pawn before a knight, a knight before a bishop, a bishop before a rook, a rook before a queen
/// and a queen before a king.
pub proof fn law_which_of_several_pieces_is_shown(
    b: Placements,
    square: u8,
    shown: Piece,
    other: Piece,
)
    requires
        piece_on(b, square) == Some(shown),
        b.contains((other, square)),
    ensures
        b.contains((shown, square)),
        shown.color == Color::Black ==> other.color == Color::Black,
        shown.color == other.color ==> {
            &&& other.piece_type == PieceType::Pawn ==> shown.piece_type == PieceType::Pawn
            &&& other.piece_type == PieceType::Knight ==> shown.piece_type == PieceType::Pawn
                || shown.piece_type == PieceType::Knight
            &&& other.piece_type == PieceType::Bishop ==> shown.piece_type == PieceType::Pawn
                || shown.piece_type == PieceType::Knight || shown.piece_type == PieceType::Bishop
            &&& other.piece_type == PieceType::Rook ==> shown.piece_type != PieceType::Queen
                && shown.piece_type != PieceType::King
            &&& other.piece_type == PieceType::Queen ==> shown.piece_type != PieceType::King
        },
{
    law_position_shows_what_stands_there(b, square);
    assert(is_first_on(b, shown, square));
    assert(rank(shown) <= rank(other));
}

/// The setup of a game: each row of pieces faces its mirror image, piece for piece in the other
/// colour; the first row holds white's pieces, the second white's pawns, and the four rows in the
/// middle are empty.
pub proof fn law_the_setup_mirrors_itself(square: u8)
    requires
        square < 64,
    ensures
        starting_piece(square) is None <==> 16 <= square < 48,
        starting_piece(square) matches Some(piece) ==> {
            let mirror = (8 * (7 - square as int / 8) + square as int % 8) as u8;
            &&& piece.color == Color::White <==> square < 16
            &&& piece.piece_type == PieceType::Pawn <==> 8 <= square < 16 || 48 <= square < 56
            &&& starting_piece(mirror) matches Some(facing) && facing.piece_type == piece.piece_type
                && facing.color != piece.color
        },
        starting_position().contains((Piece { piece_type: PieceType::King, color: Color::White }, 3)),
        starting_position().contains((Piece { piece_type: PieceType::Queen, color: Color::White }, 4)),
        starting_piece(square) matches Some(piece) ==> starting_position().contains((piece, square)),
{
    assert(Piece { piece_type: PieceType::King, color: Color::White } == starting_piece(3).unwrap());
    assert(Piece { piece_type: PieceType::Queen, color: Color::White } == starting_piece(
        4,
    ).unwrap());
}

/// A square that holds a piece shows one, and what it shows stands there; where it holds only one,
/// it shows that one, whatever its kind and side.
pub proof fn law_no_piece_is_overlooked(b: Placements, piece: Piece, square: u8)
    ensures
        b.contains((piece, square)) ==> piece_on(b, square) is Some,
        piece_on(b, square) == Some(piece) ==> b.contains((piece, square)),
        b.contains((piece, square)) && (forall|other: Piece|
            b.contains((other, square)) ==> other == piece) ==> piece_on(b, square) == Some(piece),
{
    law_position_shows_what_stands_there(b, square);
}

/// The words of a board: bit by bit, each tells where the pieces that it is named after stand.
pub proof fn law_what_the_words_mean(board: ChessBoard, square: u8)
    requires
        square < 64,
    ensures
        ({
            let bit = 1u64 << square;
            let white = |kind: PieceType|
                board@.contains((Piece { piece_type: kind, color: Color::White }, square));
            let black = |kind: PieceType|
                board@.contains((Piece { piece_type: kind, color: Color::Black }, square));
            &&& white(PieceType::Pawn) <==> board.white_pawns & bit != 0
            &&& white(PieceType::Knight) <==> board.white_knights & bit != 0
            &&& white(PieceType::Bishop) <==> board.white_bishops & bit != 0
            &&& white(PieceType::Rook) <==> board.white_rooks & bit != 0
            &&& white(PieceType::Queen) <==> board.white_queens & bit != 0
            &&& white(PieceType::King) <==> board.white_king & bit != 0
            &&& black(PieceType::Pawn) <==> board.black_pawns & bit != 0
            &&& black(PieceType::Knight) <==> board.black_knights & bit != 0
            &&& black(PieceType::Bishop) <==> board.black_bishops & bit != 0
            &&& black(PieceType::Rook) <==> board.black_rooks & bit != 0
            &&& black(PieceType::Queen) <==> board.black_queens & bit != 0
            &&& black(PieceType::King) <==> board.black_king & bit != 0
        }),
{
}

/// The back rows: rooks in the corners, knights beside them, bishops beside these, the king on the
/// E file and the queen on the D file. The position of the start holds these pieces and the pawns,
/// and no others.
pub proof fn law_the_back_rows(square: u8, piece: Piece)
    ensures
        starting_position().contains((piece, square)) ==> square < 64 && match piece.piece_type {
            PieceType::Pawn => square / 8 == 1 || square / 8 == 6,
            PieceType::Rook => square % 8 == 0 || square % 8 == 7,
            PieceType::Knight => square % 8 == 1 || square % 8 == 6,
            PieceType::Bishop => square % 8 == 2 || square % 8 == 5,
            PieceType::Queen => square % 8 == 4,
            PieceType::King => square % 8 == 3,
        },
        starting_position().contains((piece, square)) && piece.piece_type != PieceType::Pawn ==> {
            &&& piece.color == Color::White ==> square / 8 == 0
            &&& piece.color == Color::Black ==> square / 8 == 7
        },
        starting_position().contains((piece, square)) && piece.piece_type == PieceType::Pawn ==> {
            &&& piece.color == Color::White ==> square / 8 == 1
            &&& piece.color == Color::Black ==> square / 8 == 6
        },
        starting_position().contains((piece, square)) <==> starting_piece(square) == Some(piece),
{
}

} // verus!
