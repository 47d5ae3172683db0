//! What the two-line display shows of a move.

use crate::piece::Piece;
use crate::squares;
use crate::storage;
use crate::tracker::MoveResult;
use vstd::prelude::*;

verus! {

/// A change of the display.
#[derive(Debug)]
pub enum Screen {
    /// The display stays as it is.
    Unchanged,
    /// The display is cleared and shows the name of a piece.
    Piece(&'static str),
    /// The second line shows a move.
    Move(heapless::String<16>),
}

/// The squares of a move, with the sign between them: "x" for a capture, else an arrow.
pub open spec fn squares_text(from: u8, to: u8, capture: bool) -> Seq<char> {
    squares::square_label(from) + (if capture {
        seq!['x']
    } else {
        seq!['-', '>']
    }) + squares::square_label(to)
}

/// A complete move: its squares, and for a capture the letter of the piece before them.
pub open spec fn move_text(from: u8, to: u8, piece: Piece, capture: bool) -> Seq<char> {
    if capture {
        seq![piece.letter()] + squares_text(from, to, true)
    } else {
        squares_text(from, to, false)
    }
}

/// A move that ends in a promotion: its squares and the new queen.
pub open spec fn promotion_text(from: u8, to: u8, capture: bool) -> Seq<char> {
    squares_text(from, to, capture) + seq!['=', 'Q']
}

/// Whether every square that a result names is on the board.
pub open spec fn names_squares(r: MoveResult) -> bool {
    match r {
        MoveResult::PieceLifted(square, _) => square < 64,
        MoveResult::PieceCaptured(square, _) => square < 64,
        MoveResult::MoveCompleted(from, to, _, _) => from < 64 && to < 64,
        MoveResult::PawnPromoted(from, to) => from < 64 && to < 64,
        MoveResult::PawnPromotedWithCapture(from, to, _) => from < 64 && to < 64,
        MoveResult::PromotionCompleted(from, to, _, _) => from < 64 && to < 64,
        _ => true,
    }
}

/// Whether `screen` is what the display shows of a result: the name of a piece that is lifted, and
/// the text of a move when the lifted piece comes down.
pub open spec fn shows(screen: Screen, r: MoveResult) -> bool {
    match r {
        MoveResult::PieceLifted(_, piece) => screen matches Screen::Piece(name) && name@
            == piece.name(),
        MoveResult::MoveCompleted(from, to, piece, captured) => screen matches Screen::Move(text)
            && storage::text_of(text) == move_text(from, to, piece, captured is Some),
        MoveResult::PawnPromoted(from, to) => screen matches Screen::Move(text)
            && storage::text_of(text) == promotion_text(from, to, false),
        MoveResult::PawnPromotedWithCapture(from, to, _) => screen matches Screen::Move(text)
            && storage::text_of(text) == promotion_text(from, to, true),
        _ => screen is Unchanged,
    }
}

/// Whether a text is made of ASCII characters, each of which takes one byte.
spec fn ascii(chars: Seq<char>) -> bool {
    vstd::utf8::is_ascii_chars(chars)
}

/// Appends a string of ASCII characters that fits.
fn append(text: &mut heapless::String<16>, s: &str)
    requires
        ascii(storage::text_of(*old(text))),
        ascii(s@),
        storage::text_of(*old(text)).len() + s@.len() <= 16,
    ensures
        storage::text_of(*final(text)) == storage::text_of(*old(text)) + s@,
        ascii(storage::text_of(*final(text))),
{
    proof {
        vstd::utf8::is_ascii_chars_encode_utf8(storage::text_of(*old(text)));
        vstd::utf8::is_ascii_chars_encode_utf8(s@);
    }
    storage::push_str(text, s).unwrap();
}

/// Appends the squares of a move and the sign between them.
fn append_squares(text: &mut heapless::String<16>, from: u8, to: u8, capture: bool)
    requires
        from < 64,
        to < 64,
        ascii(storage::text_of(*old(text))),
        storage::text_of(*old(text)).len() <= 10,
    ensures
        storage::text_of(*final(text)) == storage::text_of(*old(text)) + squares_text(
            from,
            to,
            capture,
        ),
        ascii(storage::text_of(*final(text))),
{
    proof {
        reveal_strlit("x");
        reveal_strlit("->");
    }
    append(text, squares::square_name(from));
    if capture {
        append(text, "x");
    } else {
        append(text, "->");
    }
    append(text, squares::square_name(to));
    proof {
        assert(storage::text_of(*text) =~= storage::text_of(*old(text)) + squares_text(
            from,
            to,
            capture,
        ));
    }
}

/// Returns the text of a complete move, such as "E2->E4" or "PE4xD5".
pub fn write_move(from: u8, to: u8, piece: Piece, capture: bool) -> (r: heapless::String<16>)
    requires
        from < 64,
        to < 64,
    ensures
        storage::text_of(r) == move_text(from, to, piece, capture),
{
    let mut text = storage::new_text();
    if capture {
        append(&mut text, piece.short_to_str());
    }
    append_squares(&mut text, from, to, capture);
    proof {
        assert(storage::text_of(text) =~= move_text(from, to, piece, capture));
    }
    text
}

/// Returns the text of a move that ends in a promotion, such as "E7->E8=Q" or "E7xD8=Q".
pub fn write_promotion(from: u8, to: u8, capture: bool) -> (r: heapless::String<16>)
    requires
        from < 64,
        to < 64,
    ensures
        storage::text_of(r) == promotion_text(from, to, capture),
{
    let mut text = storage::new_text();
    append_squares(&mut text, from, to, capture);
    proof {
        reveal_strlit("=Q");
    }
    append(&mut text, "=Q");
    proof {
        assert(storage::text_of(text) =~= promotion_text(from, to, capture));
    }
    text
}

/// Returns what the display shows of a result.
pub fn screen_for(result: MoveResult) -> (r: Screen)
    requires
        names_squares(result),
    ensures
        shows(r, result),
{
    match result {
        MoveResult::PieceLifted(_, piece) => Screen::Piece(piece.to_str()),
        MoveResult::MoveCompleted(from, to, piece, captured) => Screen::Move(
            write_move(from, to, piece, captured.is_some()),
        ),
        MoveResult::PawnPromoted(from, to) => Screen::Move(write_promotion(from, to, false)),
        MoveResult::PawnPromotedWithCapture(from, to, _) => Screen::Move(
            write_promotion(from, to, true),
        ),
        _ => Screen::Unchanged,
    }
}

/// The text of a complete move: where a piece was captured, the letter of the moving piece, its
/// square, an "x" and the square that it took; where none was, the two squares with an arrow
/// between them and no letter. This holds of every kind of piece, whatever it captured.
pub proof fn law_how_a_move_is_shown(
    screen: Screen,
    from: u8,
    to: u8,
    piece: Piece,
    captured: Option<Piece>,
)
    requires
        shows(screen, MoveResult::MoveCompleted(from, to, piece, captured)),
    ensures
        screen matches Screen::Move(text) && {
            let line = storage::text_of(text);
            &&& line.len() == 6
            &&& captured is Some ==> {
                &&& line[0] == piece.letter()
                &&& line.subrange(1, 3) == squares::square_label(from)
                &&& line[3] == 'x'
                &&& line.subrange(4, 6) == squares::square_label(to)
            }
            &&& captured is None ==> {
                &&& line.subrange(0, 2) == squares::square_label(from)
                &&& line[2] == '-'
                &&& line[3] == '>'
                &&& line.subrange(4, 6) == squares::square_label(to)
            }
            &&& line.contains('x') <==> captured is Some
        },
{
    let line = storage::text_of(screen->Move_0);
    let a = squares::square_label(from);
    let b = squares::square_label(to);
    if captured is Some {
        assert(line.subrange(1, 3) =~= a);
        assert(line.subrange(4, 6) =~= b);
        assert(line[3] == 'x');
    } else {
        assert(line.subrange(0, 2) =~= a);
        assert(line.subrange(4, 6) =~= b);
        assert(a[0] != 'x' && a[1] != 'x' && b[0] != 'x' && b[1] != 'x');
        assert(line[0] == a[0] && line[1] == a[1] && line[4] == b[0] && line[5] == b[1]);
        assert forall|i: int| 0 <= i < line.len() implies line[i] != 'x' by {}
    }
}

/// The text of a promotion is the move as its squares tell it, with an "x" between them for a
/// capture and an arrow otherwise, and "=Q" behind it.
pub proof fn law_how_a_promotion_is_shown(screen: Screen, from: u8, to: u8, taken: Piece)
    ensures
        shows(screen, MoveResult::PawnPromoted(from, to)) ==> (screen matches Screen::Move(text)
            && {
            let line = storage::text_of(text);
            &&& line.len() == 8
            &&& line.subrange(0, 2) == squares::square_label(from)
            &&& line[2] == '-'
            &&& line[3] == '>'
            &&& line.subrange(4, 6) == squares::square_label(to)
            &&& line[6] == '='
            &&& line[7] == 'Q'
        }),
        shows(screen, MoveResult::PawnPromotedWithCapture(from, to, taken)) ==> (
        screen matches Screen::Move(text) && {
            let line = storage::text_of(text);
            &&& line.len() == 7
            &&& line.subrange(0, 2) == squares::square_label(from)
            &&& line[2] == 'x'
            &&& line.subrange(3, 5) == squares::square_label(to)
            &&& line[5] == '='
            &&& line[6] == 'Q'
        }),
{
    let a = squares::square_label(from);
    let b = squares::square_label(to);
    if shows(screen, MoveResult::PawnPromoted(from, to)) {
        let line = storage::text_of(screen->Move_0);
        assert(line.subrange(0, 2) =~= a);
        assert(line.subrange(4, 6) =~= b);
    }
    if shows(screen, MoveResult::PawnPromotedWithCapture(from, to, taken)) {
        let line = storage::text_of(screen->Move_0);
        assert(line.subrange(0, 2) =~= a);
        assert(line.subrange(3, 5) =~= b);
    }
}

/// A lifted piece is shown by its name, whatever its square. Nothing but a lifted piece, a complete
/// move and a pawn on its far row changes the display.
pub proof fn law_what_changes_the_display(screen: Screen, result: MoveResult)
    requires
        shows(screen, result),
    ensures
        result matches MoveResult::PieceLifted(_, piece) ==> (screen matches Screen::Piece(name)
            && name@ == piece.name()),
        screen is Piece <==> result is PieceLifted,
        screen is Move <==> result is MoveCompleted || result is PawnPromoted
            || result is PawnPromotedWithCapture,
{
}

/// The two texts, character by character: what `write_move` and `write_promotion` write.
pub proof fn law_how_moves_are_written(from: u8, to: u8, piece: Piece, capture: bool)
    ensures
        ({
            let a = squares::square_label(from);
            let b = squares::square_label(to);
            &&& capture ==> move_text(from, to, piece, capture) == seq![
                piece.letter(),
                a[0],
                a[1],
                'x',
                b[0],
                b[1],
            ]
            &&& !capture ==> move_text(from, to, piece, capture) == seq![
                a[0],
                a[1],
                '-',
                '>',
                b[0],
                b[1],
            ]
            &&& capture ==> promotion_text(from, to, capture) == seq![
                a[0],
                a[1],
                'x',
                b[0],
                b[1],
                '=',
                'Q',
            ]
            &&& !capture ==> promotion_text(from, to, capture) == seq![
                a[0],
                a[1],
                '-',
                '>',
                b[0],
                b[1],
                '=',
                'Q',
            ]
        }),
{
}

} // verus!
