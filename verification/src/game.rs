//! A running game: sensor readings in, notices of what happened out.

use crate::board;
use crate::board::ChessBoard;
use crate::display;
use crate::piece::{Color, Piece, PieceType};
use crate::sensor;
use crate::sensor::{init_square_states, SquareState};
use crate::squares;
use crate::squares::get_square_index;
use crate::tracker;
use crate::tracker::{MoveResult, MoveTracker};
use vstd::prelude::*;

verus! {

/// Something that happened on the board and is worth telling.
#[derive(Debug, Clone, Copy, PartialEq, Eq, Structural)]
pub struct Notice {
    /// The square whose sensor changed.
    pub square: u8,
    /// What the move tracker made of it.
    pub result: MoveResult,
    /// The side to move from now on.
    pub turn: Color,
}

/// A game as the rules see it.
#[verifier::ext_equal]
pub struct GameModel {
    pub position: board::Placements,
    pub squares: Seq<SquareState>,
    pub tracker: MoveTracker,
}

impl GameModel {
    /// The game before the first move.
    pub open spec fn start() -> GameModel {
        GameModel {
            position: board::starting_position(),
            squares: Seq::new(
                64,
                |i: int| SquareState::resting(board::starting_piece(i as u8) is None),
            ),
            tracker: MoveTracker::idle(Color::White),
        }
    }

    /// What holds of a game at all times.
    pub open spec fn wf(self) -> bool {
        &&& self.squares.len() == 64
        &&& self.tracker.wf()
        &&& self.tracker.lifted_square matches Some(square) ==> square < 64
        &&& self.tracker.captured_square matches Some(square) ==> square < 64
        &&& self.tracker.promotion_square matches Some(square) ==> square < 64
    }

    /// The game after the piece on `square` was lifted. A piece that may not be lifted now goes
    /// back on the board; any other leaves it.
    pub open spec fn after_lift(self, square: u8) -> GameModel {
        match board::piece_on(self.position, square) {
            None => self,
            Some(piece) => {
                let left = board::cleared(self.position, square);
                GameModel {
                    position: if self.tracker.lift_result(square, piece) is WrongTurn {
                        left.insert((piece, square))
                    } else {
                        left
                    },
                    tracker: self.tracker.after_lift(square, piece),
                    ..self
                }
            },
        }
    }

    /// The notice of a lifted piece. A lift from an empty square, or at a stage where it means
    /// nothing, is passed over.
    pub open spec fn lift_notice(self, square: u8) -> Option<Notice> {
        match board::piece_on(self.position, square) {
            None => None,
            Some(piece) => {
                let result = self.tracker.lift_result(square, piece);
                if result is InvalidAction {
                    None
                } else {
                    Some(Notice { square, result, turn: self.tracker.current_turn })
                }
            },
        }
    }

    /// The game after a piece came down on `square`.
    pub open spec fn after_place(self, square: u8) -> GameModel {
        GameModel {
            position: match self.tracker.place_result(square) {
                MoveResult::MoveCompleted(from, to, piece, captured) => board::moved(
                    self.position,
                    from,
                    to,
                    piece,
                    captured,
                ),
                MoveResult::PromotionCompleted(from, to, piece, captured) => board::moved(
                    self.position,
                    from,
                    to,
                    piece,
                    captured,
                ),
                _ => self.position,
            },
            tracker: self.tracker.after_place(square),
            ..self
        }
    }

    /// The notice of a piece that came down.
    pub open spec fn place_notice(self, square: u8) -> Notice {
        Notice {
            square,
            result: self.tracker.place_result(square),
            turn: self.tracker.after_place(square).current_turn,
        }
    }

    /// The game in which the sensor of `square` has taken a reading in.
    pub open spec fn with_reading(self, square: u8, reading: bool) -> GameModel {
        GameModel {
            squares: self.squares.update(
                square as int,
                self.squares[square as int].after(reading),
            ),
            ..self
        }
    }

    /// The game after a signal pin read `reading` on a channel: a square that changes to empty is
    /// a lifted piece, one that changes to occupied is a placed piece.
    pub open spec fn after_reading(self, signal_pin: u8, channel: usize, reading: bool) -> GameModel {
        match squares::sensed_square(signal_pin, channel) {
            None => self,
            Some(square) => {
                let read = self.with_reading(square, reading);
                if !self.squares[square as int].changes_on(reading) {
                    read
                } else if reading {
                    read.after_lift(square)
                } else {
                    read.after_place(square)
                }
            },
        }
    }

    /// The notice of a reading.
    pub open spec fn reading_notice(
        self,
        signal_pin: u8,
        channel: usize,
        reading: bool,
    ) -> Option<Notice> {
        match squares::sensed_square(signal_pin, channel) {
            None => None,
            Some(square) => {
                if !self.squares[square as int].changes_on(reading) {
                    None
                } else if reading {
                    self.lift_notice(square)
                } else {
                    Some(self.place_notice(square))
                }
            },
        }
    }

    /// The game after the first signal pins read `readings` on a channel, in their order.
    pub open spec fn after_channel(self, channel: usize, readings: Seq<bool>) -> GameModel
        decreases readings.len(),
    {
        if readings.len() == 0 {
            self
        } else {
            self.after_channel(channel, readings.drop_last()).after_reading(
                readings.len() as u8,
                channel,
                readings.last(),
            )
        }
    }

    /// The notices of these readings, one for each signal pin: each pin's reading meets the game as
    /// the pins before it left it.
    pub open spec fn channel_notices(self, channel: usize, readings: Seq<bool>) -> Seq<
        Option<Notice>,
    > {
        Seq::new(
            readings.len(),
            |i: int|
                self.after_channel(channel, readings.take(i)).reading_notice(
                    (i + 1) as u8,
                    channel,
                    readings[i],
                ),
        )
    }
}

/// Whether a notice speaks of squares on the board.
pub open spec fn proper(notice: Notice) -> bool {
    notice.square < 64 && display::names_squares(notice.result)
}

/// A running game.
#[derive(Debug)]
pub struct Game {
    pub chess_board: ChessBoard,
    pub square_states: [SquareState; 64],
    pub move_tracker: MoveTracker,
}

impl View for Game {
    type V = GameModel;

    open spec fn view(&self) -> GameModel {
        GameModel {
            position: self.chess_board@,
            squares: self.square_states@,
            tracker: self.move_tracker,
        }
    }
}

impl Game {
    /// Returns a game before the first move.
    pub fn new() -> (r: Self)
        ensures
            r@ == GameModel::start(),
            r@.wf(),
    {
        let r = Game {
            chess_board: ChessBoard::new(),
            square_states: init_square_states(),
            move_tracker: MoveTracker::new(),
        };
        proof {
            assert forall|i: int| 0 <= i < 64 implies r.square_states@[i]
                == GameModel::start().squares[i] by {
                assert(r.square_states@[(i as u8) as int] == SquareState::resting(
                    board::starting_piece(i as u8) is None,
                ));
            }
            assert(r@ =~= GameModel::start());
        }
        r
    }

    /// Takes the piece on a square up, and tells what this means.
    pub fn lift(&mut self, square: u8) -> (r: Option<Notice>)
        requires
            old(self)@.wf(),
            square < 64,
        ensures
            final(self)@ == old(self)@.after_lift(square),
            r == old(self)@.lift_notice(square),
            final(self)@.wf(),
            r matches Some(notice) ==> proper(notice),
    {
        match self.chess_board.get_piece_at(square) {
            Some(piece) => {
                let result = self.move_tracker.piece_lifted(square, piece);
                self.chess_board.remove_piece(square);
                let turn = self.move_tracker.get_current_turn();
                match result {
                    MoveResult::PieceLifted(_, _) => Some(Notice { square, result, turn }),
                    MoveResult::PieceCaptured(_, _) => Some(Notice { square, result, turn }),
                    MoveResult::WrongTurn => {
                        self.chess_board.place_piece(square, piece);
                        Some(Notice { square, result, turn })
                    },
                    _ => None,
                }
            },
            None => None,
        }
    }

    /// Puts a piece down on a square, carries out the move that this completes, if any, and tells
    /// what it means.
    pub fn place(&mut self, square: u8) -> (r: Notice)
        requires
            old(self)@.wf(),
            square < 64,
        ensures
            final(self)@ == old(self)@.after_place(square),
            r == old(self)@.place_notice(square),
            final(self)@.wf(),
            proper(r),
    {
        let result = self.move_tracker.piece_placed(square);
        match result {
            MoveResult::MoveCompleted(from, to, piece, captured) => {
                self.chess_board.execute_move(from, to, piece, captured);
            },
            MoveResult::PromotionCompleted(from, to, queen, captured) => {
                self.chess_board.execute_promotion(from, to, queen, captured);
            },
            _ => {},
        }
        Notice { square, result, turn: self.move_tracker.get_current_turn() }
    }

    /// Takes the reading of a signal pin on a channel in, and tells what it means.
    pub fn process_reading(&mut self, signal_pin: u8, channel: usize, reading: bool) -> (r: Option<
        Notice,
    >)
        requires
            old(self)@.wf(),
        ensures
            final(self)@ == old(self)@.after_reading(signal_pin, channel, reading),
            r == old(self)@.reading_notice(signal_pin, channel, reading),
            final(self)@.wf(),
            r matches Some(notice) ==> proper(notice),
    {
        if let Some(square) = get_square_index(signal_pin, channel) {
            let changed = self.square_states[square as usize].update(reading);
            proof {
                assert(self@ =~= old(self)@.with_reading(square, reading));
            }
            if changed {
                if self.square_states[square as usize].confirmed_state {
                    self.lift(square)
                } else {
                    Some(self.place(square))
                }
            } else {
                None
            }
        } else {
            None
        }
    }

    /// Takes the readings of all four signal pins on a channel in, and tells what each means.
    pub fn process_channel(&mut self, channel: usize, readings: [bool; 4]) -> (r: [Option<
        Notice,
    >; 4])
        requires
            old(self)@.wf(),
        ensures
            final(self)@ == old(self)@.after_channel(channel, readings@),
            r@ == old(self)@.channel_notices(channel, readings@),
            final(self)@.wf(),
            forall|i: int| 0 <= i < 4 ==> (#[trigger] r@[i] matches Some(notice) ==> proper(notice)),
    {
        let mut notices: [Option<Notice>; 4] = [None, None, None, None];
        let mut pin_idx: usize = 0;
        proof {
            assert(readings@.take(0) =~= Seq::empty());
        }
        while pin_idx < 4
            invariant
                pin_idx <= 4,
                self@.wf(),
                self@ == old(self)@.after_channel(channel, readings@.take(pin_idx as int)),
                forall|i: int|
                    0 <= i < pin_idx ==> notices@[i] == #[trigger] old(self)@.channel_notices(
                        channel,
                        readings@,
                    )[i],
                forall|i: int|
                    0 <= i < 4 ==> (#[trigger] notices@[i] matches Some(notice) ==> proper(notice)),
            decreases 4 - pin_idx,
        {
            let pin_number: u8 = (pin_idx + 1) as u8;
            proof {
                let read = readings@.take(pin_idx + 1);
                assert(read.drop_last() =~= readings@.take(pin_idx as int));
                assert(read.last() == readings@[pin_idx as int]);
            }
            notices[pin_idx] = self.process_reading(pin_number, channel, readings[pin_idx]);
            pin_idx += 1;
        }
        proof {
            assert(readings@.take(4) =~= readings@);
            assert(notices@ =~= old(self)@.channel_notices(channel, readings@));
        }
        notices
    }

    /// Lets one tick pass, and tells when the wait for a capture is over.
    pub fn tick(&mut self) -> (r: Option<MoveResult>)
        requires
            old(self)@.wf(),
        ensures
            final(self)@ == (GameModel { tracker: old(self)@.tracker.after_tick(), ..old(self)@ }),
            r == if old(self)@.tracker.expires() {
                Some(MoveResult::TimeoutReached)
            } else {
                None
            },
            final(self)@.wf(),
    {
        self.move_tracker.update_timeout()
    }
}

/// When a game starts, the sensors and the board agree: a square reads empty exactly where no piece
/// stands.
pub proof fn law_board_and_sensors_agree_at_the_start(square: u8)
    requires
        square < 64,
    ensures
        GameModel::start().squares[square as int].confirmed_state <==> board::piece_on(
            GameModel::start().position,
            square,
        ) is None,
{
    let b = board::starting_position();
    board::law_position_shows_what_stands_there(b, square);
    if board::starting_piece(square) is Some {
        assert(b.contains((board::starting_piece(square).unwrap(), square)));
    }
    assert(square as int as u8 == square);
}

/// A piece of the side that is not to move goes back where it stood: nothing has changed.
pub proof fn law_wrong_turn_changes_nothing(g: GameModel, square: u8)
    requires
        board::one_per_square(g.position),
        g.lift_notice(square) matches Some(notice) && notice.result is WrongTurn,
    ensures
        g.after_lift(square) == g,
{
    let piece = board::piece_on(g.position, square).unwrap();
    board::law_position_shows_what_stands_there(g.position, square);
    let back = board::cleared(g.position, square).insert((piece, square));
    assert forall|at: (Piece, u8)| back.contains(at) == g.position.contains(at) by {
        assert(at == (at.0, at.1));
    }
    assert(back =~= g.position);
}

/// A placement that makes no sense is told as such and changes nothing.
pub proof fn law_invalid_placement_changes_nothing(g: GameModel, square: u8)
    requires
        g.place_notice(square).result is InvalidAction,
    ensures
        g.after_place(square) == g,
{
}

/// A reading that agrees with what is known of a square is never told and moves no piece.
pub proof fn law_steady_readings_are_silent(
    g: GameModel,
    signal_pin: u8,
    channel: usize,
    reading: bool,
)
    requires
        squares::sensed_square(signal_pin, channel) matches Some(square)
            && g.squares[square as int].confirmed_state == reading,
    ensures
        g.reading_notice(signal_pin, channel, reading) is None,
        g.after_reading(signal_pin, channel, reading).position == g.position,
        g.after_reading(signal_pin, channel, reading).tracker == g.tracker,
{
}

/// A reading concerns the sensor of its square alone: what is known of every other square stays.
pub proof fn law_readings_concern_one_square(
    g: GameModel,
    signal_pin: u8,
    channel: usize,
    reading: bool,
    other: u8,
)
    requires
        g.wf(),
        other < 64,
        squares::sensed_square(signal_pin, channel) != Some(other),
    ensures
        g.after_reading(signal_pin, channel, reading).squares[other as int]
            == g.squares[other as int],
{
}

/// A lifted piece never leaves two pieces on a square, and neither does a placement on a square
/// that the board knows to be vacant.
pub proof fn law_pieces_do_not_share_squares(g: GameModel, square: u8)
    requires
        board::one_per_square(g.position),
    ensures
        board::one_per_square(g.after_lift(square).position),
        board::vacant(g.position, square) ==> board::one_per_square(
            g.after_place(square).position,
        ),
{
}

/// A held piece can be put down as late as one likes: after any number of ticks the placement is
/// told as it would have been at once, and moves the same piece to the same square.
pub proof fn law_a_late_placement_is_as_good(g: GameModel, n: nat, square: u8)
    requires
        g.wf(),
    ensures
        ({
            let late = GameModel { tracker: g.tracker.after_ticks(n), ..g };
            &&& late.place_notice(square) == g.place_notice(square)
            &&& late.after_place(square).position == g.after_place(square).position
            &&& tracker::completes(g.tracker.place_result(square)) ==> late.after_place(square)
                == g.after_place(square)
        }),
{
    tracker::law_waiting_never_spoils_a_placement(g.tracker, n, square);
}

/// A piece of the side to move that is lifted from `from` and put down on `to` makes that move on
/// the board, is told as that move, and passes the turn.
pub proof fn law_a_played_move(g: GameModel, turn: Color, from: u8, to: u8, piece: Piece)
    requires
        g.tracker == MoveTracker::idle(turn),
        board::piece_on(g.position, from) == Some(piece),
        piece.color == turn,
        !tracker::promotes(to, piece),
    ensures
        g.lift_notice(from) == Some(
            Notice { square: from, result: MoveResult::PieceLifted(from, piece), turn },
        ),
        g.after_lift(from).place_notice(to) == (Notice {
            square: to,
            result: MoveResult::MoveCompleted(from, to, piece, None),
            turn: turn.other(),
        }),
        g.after_lift(from).after_place(to) == (GameModel {
            position: board::moved(g.position, from, to, piece, None),
            tracker: MoveTracker::idle(turn.other()),
            ..g
        }),
{
    board::law_clearing_a_square(g.position, from, from);
}

/// A piece of the side to move that is lifted from `from`, a piece of the opponent that is lifted
/// from `at`, and the first put down on `at`: that captures on the board, is told as a capture, and
/// passes the turn.
pub proof fn law_a_played_capture(
    g: GameModel,
    turn: Color,
    from: u8,
    at: u8,
    piece: Piece,
    taken: Piece,
)
    requires
        g.tracker == MoveTracker::idle(turn),
        board::piece_on(g.position, from) == Some(piece),
        board::piece_on(g.position, at) == Some(taken),
        piece.color == turn,
        taken.color != turn,
        !tracker::promotes(at, piece),
    ensures
        g.after_lift(from).lift_notice(at) == Some(
            Notice { square: at, result: MoveResult::PieceCaptured(at, taken), turn },
        ),
        g.after_lift(from).after_lift(at).place_notice(at) == (Notice {
            square: at,
            result: MoveResult::MoveCompleted(from, at, piece, Some(taken)),
            turn: turn.other(),
        }),
        g.after_lift(from).after_lift(at).after_place(at) == (GameModel {
            position: board::moved(g.position, from, at, piece, Some(taken)),
            tracker: MoveTracker::idle(turn.other()),
            ..g
        }),
{
    board::law_clearing_a_square(g.position, from, at);
    let b = g.position;
    let off = board::cleared(board::cleared(b, from), at);
    assert(board::cleared(board::cleared(off, from), at) =~= off);
}

/// A pawn of the side to move that comes down on its far row is off the board until a queen comes
/// down there; taking the pawn away meanwhile changes nothing. The queen then stands on the board
/// and the turn passes.
pub proof fn law_a_played_promotion(g: GameModel, turn: Color, from: u8, to: u8, pawn: Piece)
    requires
        g.tracker == MoveTracker::idle(turn),
        board::piece_on(g.position, from) == Some(pawn),
        pawn.color == turn,
        board::vacant(g.position, to),
        tracker::promotes(to, pawn),
    ensures
        ({
            let pending = g.after_lift(from).after_place(to);
            let queen = Piece { piece_type: PieceType::Queen, color: turn };
            &&& g.after_lift(from).place_notice(to) == (Notice {
                square: to,
                result: MoveResult::PawnPromoted(from, to),
                turn,
            })
            &&& pending.lift_notice(to) is None
            &&& pending.after_lift(to) == pending
            &&& pending.place_notice(to) == (Notice {
                square: to,
                result: MoveResult::PromotionCompleted(from, to, queen, None),
                turn: turn.other(),
            })
            &&& pending.after_place(to) == (GameModel {
                position: board::moved(g.position, from, to, queen, None),
                tracker: MoveTracker::idle(turn.other()),
                ..g
            })
        }),
{
    board::law_clearing_a_square(g.position, from, from);
    board::law_position_shows_what_stands_there(board::cleared(g.position, from), to);
}

/// A pawn of the side to move that captures on its far row is off the board, as is what it
/// captured, until a queen comes down there. The queen then stands on the board and the turn
/// passes.
pub proof fn law_a_played_capturing_promotion(
    g: GameModel,
    turn: Color,
    from: u8,
    at: u8,
    pawn: Piece,
    taken: Piece,
)
    requires
        g.tracker == MoveTracker::idle(turn),
        board::piece_on(g.position, from) == Some(pawn),
        board::piece_on(g.position, at) == Some(taken),
        pawn.color == turn,
        taken.color != turn,
        tracker::promotes(at, pawn),
    ensures
        ({
            let capturing = g.after_lift(from).after_lift(at);
            let pending = capturing.after_place(at);
            let queen = Piece { piece_type: PieceType::Queen, color: turn };
            &&& capturing.place_notice(at) == (Notice {
                square: at,
                result: MoveResult::PawnPromotedWithCapture(from, at, taken),
                turn,
            })
            &&& pending.lift_notice(at) is None
            &&& pending.after_lift(at) == pending
            &&& pending.place_notice(at) == (Notice {
                square: at,
                result: MoveResult::PromotionCompleted(from, at, queen, Some(taken)),
                turn: turn.other(),
            })
            &&& pending.after_place(at) == (GameModel {
                position: board::moved(g.position, from, at, queen, Some(taken)),
                tracker: MoveTracker::idle(turn.other()),
                ..g
            })
        }),
{
    board::law_clearing_a_square(g.position, from, at);
    let b = g.position;
    let off = board::cleared(board::cleared(b, from), at);
    assert(board::cleared(board::cleared(off, from), at) =~= off);
    board::law_position_shows_what_stands_there(off, at);
}

impl GameModel {
    /// The game after a signal pin read the same thing `n` times on a channel.
    pub open spec fn after_repeated(
        self,
        signal_pin: u8,
        channel: usize,
        reading: bool,
        n: nat,
    ) -> GameModel
        decreases n,
    {
        if n == 0 {
            self
        } else {
            self.after_repeated(signal_pin, channel, reading, (n - 1) as nat).after_reading(
                signal_pin,
                channel,
                reading,
            )
        }
    }
}

/// A change that lasts for fewer than five readings of a square moves no piece and is not told;
/// with the fifth the game takes the piece of that square up, or puts one down on it.
pub proof fn law_five_readings_make_an_event(g: GameModel, square: u8, reading: bool)
    requires
        g.wf(),
        square < 64,
        g.squares[square as int].confirmed_state != reading,
        g.squares[square as int].last_reading != reading,
    ensures
        ({
            let pin = squares::pin_of(square);
            let channel = squares::channel_of(square);
            &&& forall|n: nat|
                n < sensor::CONFIRMING_READINGS ==> {
                    let held = #[trigger] g.after_repeated(pin, channel, reading, n);
                    held.position == g.position && held.tracker == g.tracker
                }
            &&& forall|n: nat|
                n < sensor::CONFIRMING_READINGS - 1 ==> g.after_repeated(
                    pin,
                    channel,
                    reading,
                    n,
                ).reading_notice(pin, channel, reading) is None
            &&& {
                let fourth = g.after_repeated(pin, channel, reading, 4);
                let fifth = g.after_repeated(pin, channel, reading, 5);
                let event = if reading {
                    g.after_lift(square)
                } else {
                    g.after_place(square)
                };
                &&& fifth.position == event.position
                &&& fifth.tracker == event.tracker
                &&& fourth.reading_notice(pin, channel, reading) == if reading {
                    g.lift_notice(square)
                } else {
                    Some(g.place_notice(square))
                }
            }
        }),
{
    let pin = squares::pin_of(square);
    let channel = squares::channel_of(square);
    squares::law_every_square_has_one_sensor(square, pin, channel);
    assert forall|n: nat| n < sensor::CONFIRMING_READINGS implies {
        let held = #[trigger] g.after_repeated(pin, channel, reading, n);
        held.position == g.position && held.tracker == g.tracker
    } by {
        lemma_readings_before_the_fifth(g, square, reading, n);
    }
    assert forall|n: nat| n < sensor::CONFIRMING_READINGS - 1 implies g.after_repeated(
        pin,
        channel,
        reading,
        n,
    ).reading_notice(pin, channel, reading) is None by {
        lemma_readings_before_the_fifth(g, square, reading, n);
    }
    lemma_readings_before_the_fifth(g, square, reading, 4);
    let fourth = g.after_repeated(pin, channel, reading, 4);
    assert(g.after_repeated(pin, channel, reading, 5) == fourth.after_reading(
        pin,
        channel,
        reading,
    ));
}

/// What fewer than five readings in a row do: the square counts them.
proof fn lemma_readings_before_the_fifth(g: GameModel, square: u8, reading: bool, n: nat)
    requires
        g.wf(),
        square < 64,
        g.squares[square as int].confirmed_state != reading,
        g.squares[square as int].last_reading != reading,
        n < sensor::CONFIRMING_READINGS,
    ensures
        ({
            let held = g.after_repeated(
                squares::pin_of(square),
                squares::channel_of(square),
                reading,
                n,
            );
            let s = held.squares[square as int];
            &&& held.position == g.position
            &&& held.tracker == g.tracker
            &&& held.squares.len() == 64
            &&& s.confirmed_state != reading
            &&& if n == 0 {
                s.last_reading != reading
            } else {
                s.last_reading == reading && s.consecutive_count == n
            }
        }),
    decreases n,
{
    squares::law_every_square_has_one_sensor(
        square,
        squares::pin_of(square),
        squares::channel_of(square),
    );
    if n > 0 {
        lemma_readings_before_the_fifth(g, square, reading, (n - 1) as nat);
    }
}

/// A piece of the other side, lifted between two moves, is told as the wrong turn with the side that
/// is to move, whichever side that is; the board shows what it showed on every square, and where no
/// two pieces share a square the game is the same as before.
pub proof fn law_a_lift_out_of_turn_is_told_and_undone(
    g: GameModel,
    turn: Color,
    square: u8,
    piece: Piece,
    other: u8,
)
    requires
        g.tracker.game_state == tracker::GameState::WaitingForMove,
        g.tracker.current_turn == turn,
        board::piece_on(g.position, square) == Some(piece),
        piece.color != turn,
    ensures
        g.lift_notice(square) == Some(Notice { square, result: MoveResult::WrongTurn, turn }),
        g.after_lift(square).tracker == g.tracker,
        g.after_lift(square).squares == g.squares,
        board::piece_on(g.after_lift(square).position, other) == board::piece_on(g.position, other),
        board::one_per_square(g.position) ==> g.after_lift(square) == g,
{
    let left = board::cleared(g.position, square);
    board::law_placing_a_piece(left, piece, square, other);
    board::law_clearing_a_square(g.position, square, other);
    if board::one_per_square(g.position) {
        law_wrong_turn_changes_nothing(g, square);
    }
}

/// A lift from a square that shows no piece is no event.
pub proof fn law_nothing_to_lift(g: GameModel, square: u8)
    requires
        forall|piece: Piece| !g.position.contains((piece, square)),
    ensures
        g.lift_notice(square) is None,
        g.after_lift(square) == g,
{
    board::law_position_shows_what_stands_there(g.position, square);
}

/// A piece of the side to move, lifted between two moves or in place of a held piece, is told as
/// lifted and leaves the board; every other square keeps what it holds.
pub proof fn law_an_own_piece_leaves_the_board(
    g: GameModel,
    square: u8,
    piece: Piece,
    other: Piece,
    at: u8,
)
    requires
        g.tracker.game_state == tracker::GameState::WaitingForMove || g.tracker.game_state
            == tracker::GameState::PieceLifted,
        board::piece_on(g.position, square) == Some(piece),
        piece.color == g.tracker.current_turn,
    ensures
        g.lift_notice(square) == Some(
            Notice {
                square,
                result: MoveResult::PieceLifted(square, piece),
                turn: g.tracker.current_turn,
            },
        ),
        g.after_lift(square).position.contains((other, at)) <==> g.position.contains((other, at))
            && at != square,
        g.after_lift(square).tracker.lifted_square == Some(square),
        g.after_lift(square).tracker.lifted_piece == Some(piece),
        g.after_lift(square).tracker.game_state == tracker::GameState::PieceLifted,
        g.after_lift(square).tracker.current_turn == g.tracker.current_turn,
        g.after_lift(square).squares == g.squares,
{
}

/// A piece of the opponent, lifted while a piece is held, is told as captured and leaves the board;
/// every other square keeps what it holds.
pub proof fn law_a_captured_piece_leaves_the_board(
    g: GameModel,
    square: u8,
    piece: Piece,
    other: Piece,
    at: u8,
)
    requires
        g.tracker.game_state == tracker::GameState::PieceLifted,
        board::piece_on(g.position, square) == Some(piece),
        piece.color != g.tracker.current_turn,
    ensures
        g.lift_notice(square) == Some(
            Notice {
                square,
                result: MoveResult::PieceCaptured(square, piece),
                turn: g.tracker.current_turn,
            },
        ),
        g.after_lift(square).position.contains((other, at)) <==> g.position.contains((other, at))
            && at != square,
        g.after_lift(square).tracker.captured_square == Some(square),
        g.after_lift(square).tracker.captured_piece == Some(piece),
        g.after_lift(square).tracker.lifted_square == g.tracker.lifted_square,
        g.after_lift(square).tracker.lifted_piece == g.tracker.lifted_piece,
        g.after_lift(square).tracker.game_state == tracker::GameState::WaitingForPlacement,
        g.after_lift(square).tracker.current_turn == g.tracker.current_turn,
        g.after_lift(square).squares == g.squares,
{
}

/// A piece that is lifted at any other stage, such as while a placement or a queen is awaited, is
/// not told and leaves the board, but the move goes on as it stood.
pub proof fn law_a_lift_at_another_stage_is_not_told(
    g: GameModel,
    square: u8,
    piece: Piece,
    other: Piece,
    at: u8,
)
    requires
        g.tracker.game_state != tracker::GameState::WaitingForMove,
        g.tracker.game_state != tracker::GameState::PieceLifted,
        board::piece_on(g.position, square) == Some(piece),
    ensures
        g.lift_notice(square) is None,
        g.after_lift(square).tracker == g.tracker,
        g.after_lift(square).squares == g.squares,
        g.after_lift(square).position.contains((other, at)) <==> g.position.contains((other, at))
            && at != square,
{
}

/// A placement is told with its square and with what the tracker makes of it; the side to move is
/// another exactly when that completes a move or a promotion. Only then does the board change: the
/// piece stands on its new square, its old square is empty, and so is the new one of what it
/// captured.
pub proof fn law_what_a_placement_does(g: GameModel, square: u8, other: Piece, at: u8)
    ensures
        ({
            let notice = g.place_notice(square);
            let after = g.after_place(square);
            &&& notice.square == square
            &&& notice.result == g.tracker.place_result(square)
            &&& notice.turn == after.tracker.current_turn
            &&& notice.turn != g.tracker.current_turn <==> notice.result is MoveCompleted
                || notice.result is PromotionCompleted
            &&& after.squares == g.squares
            &&& after.tracker == g.tracker.after_place(square)
            &&& match notice.result {
                MoveResult::MoveCompleted(from, to, piece, captured)
                | MoveResult::PromotionCompleted(from, to, piece, captured) => {
                    &&& to == square
                    &&& after.position.contains((piece, to))
                    &&& (other, at) != (piece, to) ==> (after.position.contains((other, at)) <==> {
                        &&& g.position.contains((other, at))
                        &&& at != from
                        &&& at != to || captured is None
                    })
                },
                _ => after.position == g.position,
            }
        }),
{
}

/// A knight, bishop, rook, queen or king that is put down stands where it was put down, as what it
/// was when it was lifted; no other piece appears anywhere, and the other side is to move.
pub proof fn law_a_placed_piece_keeps_its_kind(
    g: GameModel,
    from: u8,
    piece: Piece,
    to: u8,
    other: Piece,
    at: u8,
)
    requires
        g.tracker.game_state == tracker::GameState::PieceLifted || (g.tracker.game_state
            == tracker::GameState::WaitingForPlacement && g.tracker.captured_square == Some(to)
            && g.tracker.captured_piece is Some),
        g.tracker.lifted_square == Some(from),
        g.tracker.lifted_piece == Some(piece),
        piece.piece_type != PieceType::Pawn,
    ensures
        g.place_notice(to).result == MoveResult::MoveCompleted(
            from,
            to,
            piece,
            if g.tracker.game_state == tracker::GameState::PieceLifted {
                None
            } else {
                g.tracker.captured_piece
            },
        ),
        g.place_notice(to).turn != g.tracker.current_turn,
        g.after_place(to).position.contains((piece, to)),
        (other, at) != (piece, to) && g.after_place(to).position.contains((other, at))
            ==> g.position.contains((other, at)),
{
}

/// A reading goes to the sensor of its square and to no other. Where it confirms a change to empty,
/// the game takes the piece of that square up; where it confirms a change to occupied, it puts one
/// down there; any other reading moves no piece and is not told.
pub proof fn law_what_a_reading_does(
    g: GameModel,
    signal_pin: u8,
    channel: usize,
    square: u8,
    reading: bool,
    other: int,
)
    requires
        g.squares.len() == 64,
        squares::sensed_square(signal_pin, channel) == Some(square),
        0 <= other < 64,
    ensures
        ({
            let after = g.after_reading(signal_pin, channel, reading);
            let told = g.reading_notice(signal_pin, channel, reading);
            let changed = after.squares[square as int].confirmed_state
                != g.squares[square as int].confirmed_state;
            &&& square < 64
            &&& after.squares.len() == 64
            &&& after.squares[square as int] == g.squares[square as int].after(reading)
            &&& other != square ==> after.squares[other] == g.squares[other]
            &&& !changed ==> told is None && after.position == g.position && after.tracker
                == g.tracker
            &&& changed && reading ==> told == g.lift_notice(square) && after.position
                == g.after_lift(square).position && after.tracker == g.after_lift(square).tracker
            &&& changed && !reading ==> told == Some(g.place_notice(square)) && after.position
                == g.after_place(square).position && after.tracker == g.after_place(square).tracker
        }),
{
    squares::law_every_sensor_has_a_square(signal_pin, channel);
    sensor::law_readings_are_counted(g.squares[square as int], reading);
}

/// What no sensor reads is no event.
pub proof fn law_unknown_sensors_are_passed_over(
    g: GameModel,
    signal_pin: u8,
    channel: usize,
    reading: bool,
)
    requires
        signal_pin == 0 || signal_pin > 4 || channel >= 16,
    ensures
        g.after_reading(signal_pin, channel, reading) == g,
        g.reading_notice(signal_pin, channel, reading) is None,
{
}

/// The readings of a channel are the readings of its four pins, taken in one after the other from
/// the first pin to the fourth, and told each in its place: this holds of every channel.
pub proof fn law_a_channel_is_read_pin_by_pin(g: GameModel, channel: usize, readings: Seq<bool>)
    requires
        readings.len() == 4,
    ensures
        ({
            let first = g.after_reading(1, channel, readings[0]);
            let second = first.after_reading(2, channel, readings[1]);
            let third = second.after_reading(3, channel, readings[2]);
            let notices = g.channel_notices(channel, readings);
            &&& g.after_channel(channel, readings) == third.after_reading(4, channel, readings[3])
            &&& notices.len() == 4
            &&& notices[0] == g.reading_notice(1, channel, readings[0])
            &&& notices[1] == first.reading_notice(2, channel, readings[1])
            &&& notices[2] == second.reading_notice(3, channel, readings[2])
            &&& notices[3] == third.reading_notice(4, channel, readings[3])
        }),
{
    lemma_channel_step(g, channel, readings, 0);
    lemma_channel_step(g, channel, readings, 1);
    lemma_channel_step(g, channel, readings, 2);
    lemma_channel_step(g, channel, readings, 3);
    assert(readings.take(0) =~= Seq::<bool>::empty());
    assert(readings.take(4) =~= readings);
    assert(g.after_channel(channel, readings.take(0)) == g);
}

/// One more pin of a channel.
proof fn lemma_channel_step(g: GameModel, channel: usize, readings: Seq<bool>, i: int)
    requires
        readings.len() == 4,
        0 <= i < 4,
    ensures
        g.after_channel(channel, readings.take(i + 1)) == g.after_channel(
            channel,
            readings.take(i),
        ).after_reading((i + 1) as u8, channel, readings[i]),
{
    assert(readings.take(i + 1).drop_last() =~= readings.take(i));
    assert(readings.take(i + 1).last() == readings[i]);
}

/// Every square of the board is heard: when its channel is read, its sensor takes exactly the
/// reading of its pin in, on the game as the pins before left it, and what that means is told in
/// the place of that pin.
pub proof fn law_every_square_is_heard(g: GameModel, square: u8, readings: Seq<bool>)
    requires
        g.squares.len() == 64,
        square < 64,
        readings.len() == 4,
    ensures
        ({
            let pin = squares::pin_of(square);
            let channel = squares::channel_of(square);
            let i = pin - 1;
            let before = g.after_channel(channel, readings.take(i));
            &&& 1 <= pin <= 4
            &&& channel < 16
            &&& squares::sensed_square(pin, channel) == Some(square)
            &&& g.after_channel(channel, readings.take(i + 1)) == before.after_reading(
                pin,
                channel,
                readings[i],
            )
            &&& g.channel_notices(channel, readings)[i] == before.reading_notice(
                pin,
                channel,
                readings[i],
            )
            &&& before.squares[square as int] == g.squares[square as int]
            &&& g.after_channel(channel, readings).squares[square as int]
                == g.squares[square as int].after(readings[i])
        }),
{
    let pin = squares::pin_of(square);
    let channel = squares::channel_of(square);
    squares::law_every_square_has_one_sensor(square, pin, channel);
    lemma_channel_step(g, channel, readings, pin - 1);
    lemma_pins_reach_their_squares(g, square, readings, pin - 1);
    lemma_pins_reach_their_squares(g, square, readings, 4);
    assert(readings.take(4) =~= readings);
}

/// The first `k` pins of a square's channel touch the sensor of that square exactly when its own
/// pin is among them.
proof fn lemma_pins_reach_their_squares(g: GameModel, square: u8, readings: Seq<bool>, k: int)
    requires
        g.squares.len() == 64,
        square < 64,
        readings.len() == 4,
        0 <= k <= 4,
    ensures
        ({
            let i = squares::pin_of(square) - 1;
            let read = g.after_channel(squares::channel_of(square), readings.take(k));
            &&& read.squares.len() == 64
            &&& read.squares[square as int] == if k > i {
                g.squares[square as int].after(readings[i])
            } else {
                g.squares[square as int]
            }
        }),
    decreases k,
{
    let channel = squares::channel_of(square);
    if k == 0 {
        assert(readings.take(0) =~= Seq::<bool>::empty());
    } else {
        lemma_pins_reach_their_squares(g, square, readings, k - 1);
        lemma_channel_step(g, channel, readings, k - 1);
        squares::law_every_square_has_one_sensor(square, k as u8, channel);
        squares::law_every_sensor_has_a_square(k as u8, channel);
    }
}

impl GameModel {
    /// The game after the four pins read the same things `n` times on a channel.
    pub open spec fn after_scans(self, channel: usize, readings: Seq<bool>, n: nat) -> GameModel
        decreases n,
    {
        if n == 0 {
            self
        } else {
            self.after_scans(channel, readings, (n - 1) as nat).after_channel(channel, readings)
        }
    }
}

/// Whether on the channel of `square` every other square reads what is known of it.
pub open spec fn others_are_steady(g: GameModel, square: u8, readings: Seq<bool>) -> bool {
    forall|other: u8|
        #![trigger g.squares[other as int]]
        other < 64 && other != square && squares::channel_of(other) == squares::channel_of(square)
            ==> readings[squares::pin_of(other) - 1] == g.squares[other as int].confirmed_state
}

/// Four scans of a channel on which one square reads otherwise than is known of it move no piece
/// and tell nothing. The fifth takes the piece of that square up or puts one down on it, and tells
/// it in the place of that square's pin and nothing in the others. This holds of all squares.
pub proof fn law_five_scans_make_an_event(g: GameModel, square: u8, readings: Seq<bool>)
    requires
        g.squares.len() == 64,
        square < 64,
        readings.len() == 4,
        readings[squares::pin_of(square) - 1] != g.squares[square as int].confirmed_state,
        readings[squares::pin_of(square) - 1] != g.squares[square as int].last_reading,
        others_are_steady(g, square, readings),
    ensures
        ({
            let i = squares::pin_of(square) - 1;
            let channel = squares::channel_of(square);
            let fourth = g.after_scans(channel, readings, 4);
            let fifth = g.after_scans(channel, readings, 5);
            &&& forall|n: nat, k: int|
                n < 4 && 0 <= k < 4 ==> (#[trigger] g.after_scans(
                    channel,
                    readings,
                    n,
                ).channel_notices(channel, readings)[k]) is None
            &&& fourth.position == g.position
            &&& fourth.tracker == g.tracker
            &&& forall|k: int|
                0 <= k < 4 && k != i ==> (#[trigger] fourth.channel_notices(
                    channel,
                    readings,
                )[k]) is None
            &&& readings[i] ==> {
                &&& fifth.position == g.after_lift(square).position
                &&& fifth.tracker == g.after_lift(square).tracker
                &&& fourth.channel_notices(channel, readings)[i] == g.lift_notice(square)
            }
            &&& !readings[i] ==> {
                &&& fifth.position == g.after_place(square).position
                &&& fifth.tracker == g.after_place(square).tracker
                &&& fourth.channel_notices(channel, readings)[i] == Some(g.place_notice(square))
            }
        }),
{
    let i = squares::pin_of(square) - 1;
    let channel = squares::channel_of(square);
    assert forall|n: nat, k: int| n < 4 && 0 <= k < 4 implies (#[trigger] g.after_scans(
        channel,
        readings,
        n,
    ).channel_notices(channel, readings)[k]) is None by {
        lemma_scans_before_the_fifth(g, square, readings, n);
        lemma_scan(g.after_scans(channel, readings, n), square, readings, k);
    }
    lemma_scans_before_the_fifth(g, square, readings, 4);
    let fourth = g.after_scans(channel, readings, 4);
    assert forall|k: int| 0 <= k < 4 && k != i implies (#[trigger] fourth.channel_notices(
        channel,
        readings,
    )[k]) is None by {
        lemma_scan(fourth, square, readings, k);
    }
    squares::law_every_square_has_one_sensor(square, squares::pin_of(square), channel);
    lemma_scan(fourth, square, readings, i);
    lemma_scan(fourth, square, readings, 4);
    assert(readings.take(4) =~= readings);
    assert(g.after_scans(channel, readings, 5) == fourth.after_channel(channel, readings));
}

/// The squares that the pins read on the channel of a square.
proof fn lemma_square_of_pin(square: u8, k: int) -> (other: u8)
    requires
        square < 64,
        0 <= k < 4,
    ensures
        other < 64,
        squares::sensed_square((k + 1) as u8, squares::channel_of(square)) == Some(other),
        squares::pin_of(other) == k + 1,
        squares::channel_of(other) == squares::channel_of(square),
        other == square <==> squares::pin_of(square) == k + 1,
{
    let channel = squares::channel_of(square);
    let pin = (k + 1) as u8;
    let other = squares::sensed_square(pin, channel).unwrap();
    squares::law_every_sensor_has_a_square(pin, channel);
    squares::law_every_square_has_one_sensor(other, pin, channel);
    squares::law_every_square_has_one_sensor(square, pin, channel);
    other
}

/// What the first `k` pins of one scan do where only one square may read otherwise than is known of
/// it, and what the next pin then tells.
proof fn lemma_scan(g: GameModel, square: u8, readings: Seq<bool>, k: int)
    requires
        g.squares.len() == 64,
        square < 64,
        readings.len() == 4,
        others_are_steady(g, square, readings),
        0 <= k <= 4,
    ensures
        ({
            let i = squares::pin_of(square) - 1;
            let channel = squares::channel_of(square);
            let read = g.after_channel(channel, readings.take(k));
            let changes = g.squares[square as int].changes_on(readings[i]);
            &&& read.squares.len() == 64
            &&& read.squares[square as int] == if k > i {
                g.squares[square as int].after(readings[i])
            } else {
                g.squares[square as int]
            }
            &&& forall|o: u8|
                o < 64 && o != square ==> (#[trigger] read.squares[o as int]).confirmed_state
                    == g.squares[o as int].confirmed_state
            &&& k <= i || !changes ==> read.position == g.position && read.tracker == g.tracker
            &&& k > i && changes && readings[i] ==> read.position == g.after_lift(square).position
                && read.tracker == g.after_lift(square).tracker
            &&& k > i && changes && !readings[i] ==> read.position == g.after_place(square).position
                && read.tracker == g.after_place(square).tracker
            &&& k < 4 && (k != i || !changes) ==> g.channel_notices(channel, readings)[k] is None
            &&& k == i && changes && readings[i] ==> g.channel_notices(channel, readings)[k]
                == g.lift_notice(square)
            &&& k == i && changes && !readings[i] ==> g.channel_notices(channel, readings)[k]
                == Some(g.place_notice(square))
        }),
    decreases k,
{
    let i = squares::pin_of(square) - 1;
    let channel = squares::channel_of(square);
    squares::law_every_square_has_one_sensor(square, squares::pin_of(square), channel);
    if k == 0 {
        assert(readings.take(0) =~= Seq::<bool>::empty());
        assert(g.after_channel(channel, readings.take(0)) == g);
    } else {
        lemma_scan(g, square, readings, k - 1);
        lemma_channel_step(g, channel, readings, k - 1);
        let before = g.after_channel(channel, readings.take(k - 1));
        let other = lemma_square_of_pin(square, k - 1);
        if other != square {
            assert(before.squares[other as int].confirmed_state
                == g.squares[other as int].confirmed_state);
            law_steady_readings_are_silent(before, k as u8, channel, readings[k - 1]);
        }
    }
    if k < 4 {
        let read = g.after_channel(channel, readings.take(k));
        let other = lemma_square_of_pin(square, k);
        if other != square {
            assert(read.squares[other as int].confirmed_state
                == g.squares[other as int].confirmed_state);
        }
    }
}

/// What fewer than five scans do: the square counts its readings.
proof fn lemma_scans_before_the_fifth(g: GameModel, square: u8, readings: Seq<bool>, n: nat)
    requires
        g.squares.len() == 64,
        square < 64,
        readings.len() == 4,
        readings[squares::pin_of(square) - 1] != g.squares[square as int].confirmed_state,
        readings[squares::pin_of(square) - 1] != g.squares[square as int].last_reading,
        others_are_steady(g, square, readings),
        n < 5,
    ensures
        ({
            let i = squares::pin_of(square) - 1;
            let held = g.after_scans(squares::channel_of(square), readings, n);
            let s = held.squares[square as int];
            &&& held.squares.len() == 64
            &&& held.position == g.position
            &&& held.tracker == g.tracker
            &&& others_are_steady(held, square, readings)
            &&& s.confirmed_state != readings[i]
            &&& if n == 0 {
                s.last_reading != readings[i]
            } else {
                s.last_reading == readings[i] && s.consecutive_count == n
            }
        }),
    decreases n,
{
    if n > 0 {
        let channel = squares::channel_of(square);
        let before = g.after_scans(channel, readings, (n - 1) as nat);
        lemma_scans_before_the_fifth(g, square, readings, (n - 1) as nat);
        lemma_scan(before, square, readings, 4);
        squares::law_every_square_has_one_sensor(square, squares::pin_of(square), channel);
        assert(readings.take(4) =~= readings);
        let held = before.after_channel(channel, readings);
        assert forall|o: u8|
            #![trigger held.squares[o as int]]
            o < 64 && o != square && squares::channel_of(o) == channel implies readings[squares::pin_of(
            o,
        ) - 1] == held.squares[o as int].confirmed_state by {
            assert(held.squares[o as int].confirmed_state
                == before.squares[o as int].confirmed_state);
        }
    }
}

/// A game starts with white to move, nothing in hand, and every sensor at rest: empty on the four
/// rows in the middle, occupied on the others.
pub proof fn law_how_a_game_starts(square: u8)
    requires
        square < 64,
    ensures
        GameModel::start().tracker.current_turn == Color::White,
        GameModel::start().tracker.game_state == tracker::GameState::WaitingForMove,
        GameModel::start().tracker.lifted_piece is None,
        GameModel::start().squares.len() == 64,
        GameModel::start().squares[square as int].confirmed_state <==> 16 <= square < 48,
        GameModel::start().squares[square as int].last_reading <==> 16 <= square < 48,
        GameModel::start().squares[square as int].consecutive_count == 5,
        board::piece_on(GameModel::start().position, square) == board::starting_piece(square),
{
    assert(square as int as u8 == square);
    board::law_one_piece_per_square(
        board::starting_position(),
        Piece { piece_type: PieceType::Pawn, color: Color::White },
        square,
    );
    board::law_position_shows_what_stands_there(board::starting_position(), square);
    if let Some(piece) = board::starting_piece(square) {
        assert(board::starting_position().contains((piece, square)));
    }
}

} // verus!
