//! The move tracker: from lifted and placed pieces to moves.
//!
//! A move starts when the side to move lifts one of its pieces and ends when that piece is put
//! down again. An opponent's piece lifted in between is captured, and the move then ends on its
//! square. A pawn that reaches the far row is exchanged for a queen before the turn passes. A
//! timeout ends the wait for a capture, after which the move can only be an ordinary one.

use crate::piece::{Color, Piece, PieceType};
use vstd::prelude::*;

verus! {

/// The number of ticks that a lifted piece may be held while a capture can still follow.
pub const CAPTURE_TICKS: u32 = 100;

/// The stage that a move has reached.
#[derive(Debug, Clone, Copy, PartialEq, Eq, Structural)]
pub enum GameState {
    WaitingForMove,
    PieceLifted,
    WaitingForCapture,
    WaitingForPlacement,
    WaitingForPromotion,
    OpponentTurn,
}

/// What the tracker makes of one event.
#[derive(Debug, Clone, Copy, PartialEq, Eq, Structural)]
pub enum MoveResult {
    /// A piece of the side to move left its square.
    PieceLifted(u8, Piece),
    /// A piece of the opponent left its square and is captured.
    PieceCaptured(u8, Piece),
    /// A move is complete: from, to, the piece, the captured piece.
    MoveCompleted(u8, u8, Piece, Option<Piece>),
    /// A pawn reached the far row: from, to.
    PawnPromoted(u8, u8),
    /// A pawn reached the far row by a capture: from, to, the captured piece.
    PawnPromotedWithCapture(u8, u8, Piece),
    /// A promotion is complete: from, to, the new piece, the captured piece.
    PromotionCompleted(u8, u8, Piece, Option<Piece>),
    /// The move in progress was called off.
    MoveCancelled,
    /// No capture followed in time.
    TimeoutReached,
    /// The piece belongs to the side that is not to move.
    WrongTurn,
    /// The event makes no sense at this stage.
    InvalidAction,
}

/// Follows one move from the lifted piece to the placed one.
#[derive(Debug)]
pub struct MoveTracker {
    pub current_turn: Color,
    pub game_state: GameState,
    pub lifted_square: Option<u8>,
    pub lifted_piece: Option<Piece>,
    pub captured_square: Option<u8>,
    pub captured_piece: Option<Piece>,
    pub promotion_square: Option<u8>,
    pub capture_timeout: u32,
}

/// Whether a piece that comes down on `to` is a pawn on its far row.
pub open spec fn promotes(to: u8, piece: Piece) -> bool {
    &&& piece.piece_type == PieceType::Pawn
    &&& match piece.color {
        Color::White => to >= 56,
        Color::Black => to <= 7,
    }
}

/// What it means that `piece`, lifted from `from`, comes down on `to` after `captured` was taken.
pub open spec fn settled(from: u8, to: u8, piece: Piece, captured: Option<Piece>) -> MoveResult {
    if !promotes(to, piece) {
        MoveResult::MoveCompleted(from, to, piece, captured)
    } else {
        match captured {
            None => MoveResult::PawnPromoted(from, to),
            Some(taken) => MoveResult::PawnPromotedWithCapture(from, to, taken),
        }
    }
}

/// Whether a result hands the turn to the other side.
pub open spec fn completes(r: MoveResult) -> bool {
    r is MoveCompleted || r is PromotionCompleted
}

/// Whether a result turns the event down.
pub open spec fn refuses(r: MoveResult) -> bool {
    r is WrongTurn || r is InvalidAction
}

impl MoveTracker {
    /// The tracker between two moves, with `turn` to move.
    pub open spec fn idle(turn: Color) -> MoveTracker {
        MoveTracker {
            current_turn: turn,
            game_state: GameState::WaitingForMove,
            lifted_square: None,
            lifted_piece: None,
            captured_square: None,
            captured_piece: None,
            promotion_square: None,
            capture_timeout: 0,
        }
    }

    /// What holds of a tracker at every stage of a game.
    pub open spec fn wf(self) -> bool {
        &&& self.lifted_square is Some <==> self.lifted_piece is Some
        &&& self.captured_square is Some <==> self.captured_piece is Some
        &&& self.lifted_piece matches Some(p) ==> p.color == self.current_turn
        &&& self.captured_piece matches Some(p) ==> p.color != self.current_turn
        &&& self.captured_piece is Some ==> self.capture_timeout == 0
        &&& match self.game_state {
            GameState::WaitingForMove => self == Self::idle(self.current_turn),
            GameState::PieceLifted => {
                &&& self.lifted_piece is Some
                &&& self.captured_piece is None
                &&& self.promotion_square is None
                &&& self.capture_timeout <= CAPTURE_TICKS
            },
            GameState::WaitingForPlacement => {
                &&& self.lifted_piece is Some
                &&& self.promotion_square is None
                &&& self.captured_piece is None ==> self.capture_timeout == CAPTURE_TICKS + 1
            },
            GameState::WaitingForPromotion => {
                &&& self.lifted_piece matches Some(pawn)
                &&& self.promotion_square matches Some(to)
                &&& promotes(to, pawn)
                &&& self.capture_timeout <= CAPTURE_TICKS + 1
            },
            GameState::WaitingForCapture => false,
            GameState::OpponentTurn => false,
        }
    }

    /// What it means that `piece` leaves `square`.
    pub open spec fn lift_result(self, square: u8, piece: Piece) -> MoveResult {
        match self.game_state {
            GameState::WaitingForMove => if piece.color == self.current_turn {
                MoveResult::PieceLifted(square, piece)
            } else {
                MoveResult::WrongTurn
            },
            GameState::PieceLifted => if piece.color == self.current_turn {
                MoveResult::PieceLifted(square, piece)
            } else {
                MoveResult::PieceCaptured(square, piece)
            },
            _ => MoveResult::InvalidAction,
        }
    }

    /// The tracker after `piece` left `square`. A second piece of the side to move takes the place
    /// of the first, and leaves the count of ticks as it is.
    pub open spec fn after_lift(self, square: u8, piece: Piece) -> MoveTracker {
        match self.lift_result(square, piece) {
            MoveResult::PieceLifted(..) => MoveTracker {
                game_state: GameState::PieceLifted,
                lifted_square: Some(square),
                lifted_piece: Some(piece),
                capture_timeout: if self.game_state == GameState::WaitingForMove {
                    0
                } else {
                    self.capture_timeout
                },
                ..self
            },
            MoveResult::PieceCaptured(..) => MoveTracker {
                game_state: GameState::WaitingForPlacement,
                captured_square: Some(square),
                captured_piece: Some(piece),
                capture_timeout: 0,
                ..self
            },
            _ => self,
        }
    }

    /// What it means that a piece comes down on `square`.
    pub open spec fn place_result(self, square: u8) -> MoveResult {
        match (self.game_state, self.lifted_square, self.lifted_piece) {
            (GameState::PieceLifted, Some(from), Some(piece)) => settled(from, square, piece, None),
            (GameState::WaitingForPlacement, Some(from), Some(piece)) => match (
                self.captured_square,
                self.captured_piece,
            ) {
                (Some(at), Some(taken)) if square == at => settled(
                    from,
                    square,
                    piece,
                    Some(taken),
                ),
                (None, None) => settled(from, square, piece, None),
                _ => MoveResult::InvalidAction,
            },
            (GameState::WaitingForPromotion, Some(from), _) => if self.promotion_square == Some(
                square,
            ) {
                MoveResult::PromotionCompleted(
                    from,
                    square,
                    Piece { piece_type: PieceType::Queen, color: self.current_turn },
                    self.captured_piece,
                )
            } else {
                MoveResult::InvalidAction
            },
            _ => MoveResult::InvalidAction,
        }
    }

    /// The tracker after a piece came down on `square`.
    pub open spec fn after_place(self, square: u8) -> MoveTracker {
        let r = self.place_result(square);
        if completes(r) {
            Self::idle(self.current_turn.other())
        } else if refuses(r) {
            self
        } else {
            MoveTracker {
                game_state: GameState::WaitingForPromotion,
                promotion_square: Some(square),
                ..self
            }
        }
    }

    /// Whether the next tick ends the wait for a capture.
    pub open spec fn expires(self) -> bool {
        self.game_state == GameState::PieceLifted && self.capture_timeout >= CAPTURE_TICKS
    }

    /// The tracker after one tick.
    pub open spec fn after_tick(self) -> MoveTracker {
        if self.game_state == GameState::PieceLifted {
            MoveTracker {
                game_state: if self.expires() {
                    GameState::WaitingForPlacement
                } else {
                    GameState::PieceLifted
                },
                capture_timeout: (self.capture_timeout + 1) as u32,
                ..self
            }
        } else {
            self
        }
    }

    /// The tracker after `n` ticks.
    pub open spec fn after_ticks(self, n: nat) -> MoveTracker
        decreases n,
    {
        if n == 0 {
            self
        } else {
            self.after_ticks((n - 1) as nat).after_tick()
        }
    }

    /// Returns the tracker at the start of a game: white moves first.
    pub fn new() -> (r: Self)
        ensures
            r == Self::idle(Color::White),
            r.wf(),
    {
        MoveTracker {
            current_turn: Color::White,
            game_state: GameState::WaitingForMove,
            lifted_square: None,
            lifted_piece: None,
            captured_square: None,
            captured_piece: None,
            promotion_square: None,
            capture_timeout: 0,
        }
    }

    /// Tells whether a piece that comes down on `to_square` is a pawn on its far row.
    pub fn is_promotion_move(&self, to_square: u8, piece: Piece) -> (r: bool)
        ensures
            r == promotes(to_square, piece),
    {
        if piece.piece_type != PieceType::Pawn {
            return false;
        }
        match piece.color {
            Color::White => to_square >= 56,
            Color::Black => to_square <= 7,
        }
    }

    /// Records that `piece` left `square`.
    pub fn piece_lifted(&mut self, square: u8, piece: Piece) -> (r: MoveResult)
        ensures
            r == old(self).lift_result(square, piece),
            *final(self) == old(self).after_lift(square, piece),
            old(self).wf() ==> final(self).wf(),
    {
        match self.game_state {
            GameState::WaitingForMove => {
                if piece.color == self.current_turn {
                    self.lifted_square = Some(square);
                    self.lifted_piece = Some(piece);
                    self.game_state = GameState::PieceLifted;
                    self.capture_timeout = 0;
                    MoveResult::PieceLifted(square, piece)
                } else {
                    MoveResult::WrongTurn
                }
            },
            GameState::PieceLifted => {
                if piece.color != self.current_turn {
                    self.captured_square = Some(square);
                    self.captured_piece = Some(piece);
                    self.game_state = GameState::WaitingForPlacement;
                    self.capture_timeout = 0;
                    MoveResult::PieceCaptured(square, piece)
                } else {
                    self.lifted_square = Some(square);
                    self.lifted_piece = Some(piece);
                    MoveResult::PieceLifted(square, piece)
                }
            },
            _ => MoveResult::InvalidAction,
        }
    }

    /// Brings the lifted piece down on `square` after `captured` was taken: the move is complete,
    /// unless a pawn has to be exchanged first.
    fn settle(&mut self, from: u8, square: u8, piece: Piece, captured: Option<Piece>) -> (r:
        MoveResult)
        ensures
            r == settled(from, square, piece, captured),
            *final(self) == if promotes(square, piece) {
                (MoveTracker {
                    game_state: GameState::WaitingForPromotion,
                    promotion_square: Some(square),
                    ..*old(self)
                })
            } else {
                Self::idle(old(self).current_turn.other())
            },
    {
        if self.is_promotion_move(square, piece) {
            self.promotion_square = Some(square);
            self.game_state = GameState::WaitingForPromotion;
            match captured {
                None => MoveResult::PawnPromoted(from, square),
                Some(taken) => MoveResult::PawnPromotedWithCapture(from, square, taken),
            }
        } else {
            self.complete_move();
            MoveResult::MoveCompleted(from, square, piece, captured)
        }
    }

    /// Records that a piece came down on `square`, and returns the move that this makes.
    ///
    /// Once the wait for a capture is over, the lifted piece may come down anywhere, as in a move
    /// without a capture.
    pub fn piece_placed(&mut self, square: u8) -> (r: MoveResult)
        ensures
            r == old(self).place_result(square),
            *final(self) == old(self).after_place(square),
            old(self).wf() ==> final(self).wf(),
    {
        match self.game_state {
            GameState::PieceLifted => {
                if let (Some(from_square), Some(piece)) = (self.lifted_square, self.lifted_piece) {
                    self.settle(from_square, square, piece, None)
                } else {
                    MoveResult::InvalidAction
                }
            },
            GameState::WaitingForPlacement => {
                if let (Some(from_square), Some(piece)) = (self.lifted_square, self.lifted_piece) {
                    match (self.captured_square, self.captured_piece) {
                        (Some(captured_sq), Some(captured_p)) => {
                            if square == captured_sq {
                                self.settle(from_square, square, piece, Some(captured_p))
                            } else {
                                MoveResult::InvalidAction
                            }
                        },
                        (None, None) => self.settle(from_square, square, piece, None),
                        _ => MoveResult::InvalidAction,
                    }
                } else {
                    MoveResult::InvalidAction
                }
            },
            GameState::WaitingForPromotion => {
                if let (Some(from_square), Some(promotion_sq)) = (
                    self.lifted_square,
                    self.promotion_square,
                ) {
                    if square == promotion_sq {
                        let queen = Piece {
                            piece_type: PieceType::Queen,
                            color: self.current_turn,
                        };
                        let captured = self.captured_piece;
                        self.complete_move();
                        MoveResult::PromotionCompleted(from_square, square, queen, captured)
                    } else {
                        MoveResult::InvalidAction
                    }
                } else {
                    MoveResult::InvalidAction
                }
            },
            _ => MoveResult::InvalidAction,
        }
    }

    /// Ends the move and passes the turn.
    pub fn complete_move(&mut self)
        ensures
            *final(self) == Self::idle(old(self).current_turn.other()),
            final(self).wf(),
    {
        self.current_turn = self.current_turn.opposite();
        self.game_state = GameState::WaitingForMove;
        self.lifted_square = None;
        self.lifted_piece = None;
        self.captured_square = None;
        self.captured_piece = None;
        self.promotion_square = None;
        self.capture_timeout = 0;
    }

    /// Counts one tick while a capture can still follow, and tells when that wait is over.
    pub fn update_timeout(&mut self) -> (r: Option<MoveResult>)
        requires
            old(self).game_state == GameState::PieceLifted ==> old(self).capture_timeout < u32::MAX,
        ensures
            r == if old(self).expires() {
                Some(MoveResult::TimeoutReached)
            } else {
                None
            },
            *final(self) == old(self).after_tick(),
            old(self).wf() ==> final(self).wf(),
    {
        if self.game_state == GameState::PieceLifted {
            self.capture_timeout += 1;
            if self.capture_timeout > CAPTURE_TICKS {
                self.game_state = GameState::WaitingForPlacement;
                return Some(MoveResult::TimeoutReached);
            }
        }
        None
    }

    /// Calls off the move in progress; the same side is to move.
    pub fn cancel_move(&mut self) -> (r: MoveResult)
        ensures
            r == MoveResult::MoveCancelled,
            *final(self) == Self::idle(old(self).current_turn),
            final(self).wf(),
    {
        self.game_state = GameState::WaitingForMove;
        self.lifted_square = None;
        self.lifted_piece = None;
        self.captured_square = None;
        self.captured_piece = None;
        self.promotion_square = None;
        self.capture_timeout = 0;
        MoveResult::MoveCancelled
    }

    /// Returns the side to move.
    pub fn get_current_turn(&self) -> (r: Color)
        ensures
            r == self.current_turn,
    {
        self.current_turn
    }

    /// Returns the stage that the move has reached.
    pub fn get_game_state(&self) -> (r: GameState)
        ensures
            r == self.game_state,
    {
        self.game_state
    }
}

/// An event that the tracker turns down leaves it exactly as it was.
pub proof fn law_refused_events_change_nothing(t: MoveTracker, square: u8, piece: Piece)
    ensures
        refuses(t.lift_result(square, piece)) ==> t.after_lift(square, piece) == t,
        refuses(t.place_result(square)) ==> t.after_place(square) == t,
{
}

/// The turn passes to the other side exactly when a placement completes a move; lifting a piece
/// and the passing of time never change whose turn it is.
pub proof fn law_turn_passes_with_the_completed_move(t: MoveTracker, square: u8, piece: Piece)
    ensures
        t.after_place(square).current_turn == if completes(t.place_result(square)) {
            t.current_turn.other()
        } else {
            t.current_turn
        },
        t.after_lift(square, piece).current_turn == t.current_turn,
        t.after_tick().current_turn == t.current_turn,
{
}

/// Only the side to move can lift a piece to start a move.
pub proof fn law_only_the_side_to_move_starts_a_move(turn: Color, square: u8, piece: Piece)
    ensures
        MoveTracker::idle(turn).lift_result(square, piece) is PieceLifted <==> piece.color == turn,
        MoveTracker::idle(turn).lift_result(square, piece) is WrongTurn <==> piece.color != turn,
{
}

/// A piece lifted from `from` and put down on `to` is reported as the move from `from` to `to` of
/// that piece; unless a pawn is to be exchanged, the turn passes.
pub proof fn law_lift_and_place_make_the_move(turn: Color, from: u8, to: u8, piece: Piece)
    requires
        piece.color == turn,
    ensures
        ({
            let held = MoveTracker::idle(turn).after_lift(from, piece);
            &&& held.place_result(to) == settled(from, to, piece, None)
            &&& !promotes(to, piece) ==> held.after_place(to) == MoveTracker::idle(turn.other())
        }),
{
}

/// A piece of the opponent lifted during a move is captured: the move can end only on its square,
/// and is then reported with the captured piece.
pub proof fn law_capture_ends_on_the_captured_square(
    turn: Color,
    from: u8,
    piece: Piece,
    at: u8,
    taken: Piece,
    to: u8,
)
    requires
        piece.color == turn,
        taken.color != turn,
    ensures
        ({
            let held = MoveTracker::idle(turn).after_lift(from, piece);
            let capturing = held.after_lift(at, taken);
            &&& held.lift_result(at, taken) == MoveResult::PieceCaptured(at, taken)
            &&& capturing.place_result(at) == settled(from, at, piece, Some(taken))
            &&& to != at ==> capturing.place_result(to) is InvalidAction
            &&& !promotes(at, piece) ==> capturing.after_place(at) == MoveTracker::idle(
                turn.other(),
            )
        }),
{
}

/// A side that holds a piece and lifts a second one of its own plays that one: the first is
/// forgotten.
pub proof fn law_last_lifted_piece_is_played(t: MoveTracker, square: u8, piece: Piece, to: u8)
    requires
        t.wf(),
        t.game_state == GameState::PieceLifted,
        piece.color == t.current_turn,
    ensures
        t.lift_result(square, piece) == MoveResult::PieceLifted(square, piece),
        t.after_lift(square, piece).place_result(to) == settled(square, to, piece, None),
{
}

/// A pawn on its far row holds the turn until a queen stands on that very square; the promotion
/// then reports where the pawn came from, a queen of its side, and what it captured.
pub proof fn law_promotion_waits_for_the_queen(t: MoveTracker, to: u8, square: u8, piece: Piece)
    requires
        t.wf(),
        t.place_result(to) is PawnPromoted || t.place_result(to) is PawnPromotedWithCapture,
    ensures
        ({
            let pending = t.after_place(to);
            &&& pending.current_turn == t.current_turn
            &&& pending.lift_result(square, piece) is InvalidAction
            &&& square != to ==> pending.place_result(square) is InvalidAction
            &&& pending.place_result(to) == MoveResult::PromotionCompleted(
                t.lifted_square.unwrap(),
                to,
                Piece { piece_type: PieceType::Queen, color: t.current_turn },
                t.captured_piece,
            )
            &&& pending.after_place(to) == MoveTracker::idle(t.current_turn.other())
        }),
{
}

/// However long a piece is held, a placement means what it would have meant at once: the timeout
/// takes the chance to capture away, but never the move.
pub proof fn law_waiting_never_spoils_a_placement(t: MoveTracker, n: nat, square: u8)
    requires
        t.wf(),
    ensures
        t.after_ticks(n).wf(),
        t.after_ticks(n).current_turn == t.current_turn,
        t.after_ticks(n).place_result(square) == t.place_result(square),
        completes(t.place_result(square)) ==> t.after_ticks(n).after_place(square)
            == t.after_place(square),
    decreases n,
{
    if n > 0 {
        law_waiting_never_spoils_a_placement(t, (n - 1) as nat, square);
    }
}

/// From the lifting of a piece on, the wait for a capture lasts for the fixed number of ticks and
/// ends with the next: until then an opponent's piece can be captured, from then on it cannot.
pub proof fn law_capture_window(
    turn: Color,
    from: u8,
    piece: Piece,
    n: nat,
    at: u8,
    taken: Piece,
)
    requires
        piece.color == turn,
        taken.color != turn,
    ensures
        ({
            let held = MoveTracker::idle(turn).after_lift(from, piece);
            &&& held.after_ticks(n).expires() <==> n == CAPTURE_TICKS
            &&& n <= CAPTURE_TICKS ==> held.after_ticks(n).lift_result(at, taken)
                == MoveResult::PieceCaptured(at, taken)
            &&& n > CAPTURE_TICKS ==> held.after_ticks(n).lift_result(at, taken) is InvalidAction
        }),
{
    lemma_ticks_of_a_held_piece(turn, from, piece, n);
}

/// What `n` ticks do to a tracker that holds a freshly lifted piece.
proof fn lemma_ticks_of_a_held_piece(turn: Color, from: u8, piece: Piece, n: nat)
    requires
        piece.color == turn,
    ensures
        ({
            let held = MoveTracker::idle(turn).after_lift(from, piece);
            held.after_ticks(n) == if n <= CAPTURE_TICKS {
                (MoveTracker { capture_timeout: n as u32, ..held })
            } else {
                (MoveTracker {
                    game_state: GameState::WaitingForPlacement,
                    capture_timeout: (CAPTURE_TICKS + 1) as u32,
                    ..held
                })
            }
        }),
    decreases n,
{
    if n > 0 {
        lemma_ticks_of_a_held_piece(turn, from, piece, (n - 1) as nat);
    }
}

/// A game never gets stuck: at every stage the side to move can lift a piece of its own or put a
/// piece down somewhere and be understood, and what it is told then leads on.
pub proof fn law_game_never_gets_stuck(t: MoveTracker)
    requires
        t.wf(),
    ensures
        t.game_state == GameState::WaitingForMove ==> forall|square: u8, piece: Piece|
            piece.color == t.current_turn ==> t.lift_result(square, piece)
                == MoveResult::PieceLifted(square, piece),
        t.game_state != GameState::WaitingForMove ==> exists|square: u8|
            !refuses(t.place_result(square)) && t.after_place(square) != t,
{
    if t.game_state != GameState::WaitingForMove {
        let square: u8 = match (t.promotion_square, t.captured_square) {
            (Some(s), _) => s,
            (None, Some(s)) => s,
            (None, None) => 0,
        };
        assert(!refuses(t.place_result(square)) && t.after_place(square) != t);
    }
}

/// Only a pawn promotes, and only on the row farthest from its own side; the other five kinds never
/// do.
pub proof fn law_only_pawns_promote_on_the_far_row(to: u8, piece: Piece)
    ensures
        promotes(to, piece) ==> piece.piece_type == PieceType::Pawn,
        piece.piece_type == PieceType::Pawn && piece.color == Color::White ==> (promotes(to, piece)
            <==> to / 8 >= 7),
        piece.piece_type == PieceType::Pawn && piece.color == Color::Black ==> (promotes(to, piece)
            <==> to / 8 == 0),
{
}

/// A tracker that tells of a promotion holds a pawn, lifted from the square that it names and put
/// down on the far row of its side.
pub proof fn law_a_promotion_is_of_a_held_pawn(t: MoveTracker, to: u8)
    ensures
        t.place_result(to) matches MoveResult::PawnPromoted(from, at) ==> {
            &&& at == to
            &&& t.lifted_square == Some(from)
            &&& t.lifted_piece matches Some(pawn)
            &&& pawn.piece_type == PieceType::Pawn
            &&& to / 8 >= 7 || to / 8 == 0
            &&& pawn.color == Color::White <==> to / 8 >= 7
        },
        t.place_result(to) matches MoveResult::PawnPromotedWithCapture(from, at, taken) ==> {
            &&& at == to
            &&& t.lifted_square == Some(from)
            &&& t.captured_square == Some(to)
            &&& t.captured_piece == Some(taken)
            &&& t.lifted_piece matches Some(pawn)
            &&& pawn.piece_type == PieceType::Pawn
            &&& to / 8 >= 7 || to / 8 == 0
            &&& pawn.color == Color::White <==> to / 8 >= 7
        },
{
}

/// A knight, bishop, rook, queen or king keeps its kind wherever it comes down: the move is told
/// with that piece and is complete at once. It is told without a capture where nothing was
/// captured, and with the captured piece where it comes down on that piece's square.
pub proof fn law_other_kinds_complete_their_move(t: MoveTracker, from: u8, to: u8, piece: Piece)
    requires
        t.lifted_square == Some(from),
        t.lifted_piece == Some(piece),
        piece.piece_type != PieceType::Pawn,
        t.game_state == GameState::PieceLifted || t.game_state == GameState::WaitingForPlacement,
    ensures
        t.game_state == GameState::PieceLifted ==> t.place_result(to) == MoveResult::MoveCompleted(
            from,
            to,
            piece,
            None,
        ),
        t.game_state == GameState::WaitingForPlacement && t.captured_square is None
            && t.captured_piece is None ==> t.place_result(to) == MoveResult::MoveCompleted(
            from,
            to,
            piece,
            None,
        ),
        t.game_state == GameState::WaitingForPlacement && t.captured_square == Some(to)
            && t.captured_piece is Some ==> t.place_result(to) == MoveResult::MoveCompleted(
            from,
            to,
            piece,
            t.captured_piece,
        ),
{
}

/// A pawn that comes down completes its move anywhere but on its far row; there it promotes, with
/// what it captured if it captured.
pub proof fn law_pawns_complete_or_promote(t: MoveTracker, from: u8, to: u8, piece: Piece)
    requires
        t.lifted_square == Some(from),
        t.lifted_piece == Some(piece),
        piece.piece_type == PieceType::Pawn,
    ensures
        ({
            let far = if piece.color == Color::White {
                to / 8 >= 7
            } else {
                to / 8 == 0
            };
            let open = t.game_state == GameState::PieceLifted || (t.game_state
                == GameState::WaitingForPlacement && t.captured_square is None
                && t.captured_piece is None);
            &&& open && far ==> t.place_result(to) == MoveResult::PawnPromoted(from, to)
            &&& open && !far ==> t.place_result(to) == MoveResult::MoveCompleted(
                from,
                to,
                piece,
                None,
            )
            &&& t.game_state == GameState::WaitingForPlacement && t.captured_square == Some(to) ==> (
            t.captured_piece matches Some(taken) ==> t.place_result(to) == if far {
                MoveResult::PawnPromotedWithCapture(from, to, taken)
            } else {
                MoveResult::MoveCompleted(from, to, piece, Some(taken))
            })
        }),
{
}

/// A piece comes down to some purpose only while one is held or a queen is awaited, after a capture
/// only on the captured square, and for a queen only on the pawn's square.
pub proof fn law_where_a_placement_is_refused(t: MoveTracker, square: u8)
    requires
        t.wf(),
    ensures
        t.place_result(square) == MoveResult::InvalidAction <==> {
            ||| t.game_state == GameState::WaitingForMove
            ||| t.game_state == GameState::WaitingForPlacement && t.captured_square is Some
                && t.captured_square != Some(square)
            ||| t.game_state == GameState::WaitingForPromotion && t.promotion_square != Some(square)
        },
{
}

/// While a queen is awaited, a piece on the pawn's square is that queen, of the side to move; it
/// comes from the pawn's square and carries what the pawn captured.
pub proof fn law_the_awaited_queen(t: MoveTracker, from: u8, to: u8)
    requires
        t.game_state == GameState::WaitingForPromotion,
        t.lifted_square == Some(from),
        t.promotion_square == Some(to),
    ensures
        t.place_result(to) matches MoveResult::PromotionCompleted(start, at, queen, captured) && {
            &&& start == from
            &&& at == to
            &&& queen.piece_type == PieceType::Queen
            &&& queen.color == t.current_turn
            &&& captured == t.captured_piece
        },
        t.after_place(to).current_turn != t.current_turn,
        t.after_place(to).game_state == GameState::WaitingForMove,
{
}

/// What a placement leaves behind: a complete move leaves nothing in hand and the other side to
/// move; a promotion leaves everything in hand and remembers the square; a refusal leaves all.
pub proof fn law_what_a_placement_leaves(t: MoveTracker, square: u8)
    ensures
        ({
            let after = t.after_place(square);
            match t.place_result(square) {
                MoveResult::MoveCompleted(..) | MoveResult::PromotionCompleted(..) => {
                    &&& after.current_turn != t.current_turn
                    &&& after.game_state == GameState::WaitingForMove
                    &&& after.lifted_square is None
                    &&& after.lifted_piece is None
                    &&& after.captured_square is None
                    &&& after.captured_piece is None
                    &&& after.promotion_square is None
                    &&& after.capture_timeout == 0
                },
                MoveResult::PawnPromoted(..) | MoveResult::PawnPromotedWithCapture(..) => {
                    &&& after.current_turn == t.current_turn
                    &&& after.game_state == GameState::WaitingForPromotion
                    &&& after.promotion_square == Some(square)
                    &&& after.lifted_square == t.lifted_square
                    &&& after.lifted_piece == t.lifted_piece
                    &&& after.captured_square == t.captured_square
                    &&& after.captured_piece == t.captured_piece
                    &&& after.capture_timeout == t.capture_timeout
                },
                other => other == MoveResult::InvalidAction && after == t,
            }
        }),
{
}

/// Between two moves nothing is in hand, nothing is awaited and no time has passed.
pub proof fn law_nothing_is_held_between_moves(turn: Color)
    ensures
        ({
            let t = MoveTracker::idle(turn);
            &&& t.current_turn == turn
            &&& t.game_state == GameState::WaitingForMove
            &&& t.lifted_square is None
            &&& t.lifted_piece is None
            &&& t.captured_square is None
            &&& t.captured_piece is None
            &&& t.promotion_square is None
            &&& t.capture_timeout == 0
        }),
{
}

/// A piece of the side to move can be lifted between moves and in place of a held piece, and at no
/// other stage. It is then the piece in hand; all else stays, the count of ticks too.
pub proof fn law_lifting_an_own_piece(t: MoveTracker, square: u8, piece: Piece)
    requires
        piece.color == t.current_turn,
    ensures
        ({
            let after = t.after_lift(square, piece);
            if t.game_state == GameState::WaitingForMove || t.game_state == GameState::PieceLifted {
                &&& t.lift_result(square, piece) == MoveResult::PieceLifted(square, piece)
                &&& after.game_state == GameState::PieceLifted
                &&& after.lifted_square == Some(square)
                &&& after.lifted_piece == Some(piece)
                &&& after.current_turn == t.current_turn
                &&& after.captured_square == t.captured_square
                &&& after.captured_piece == t.captured_piece
                &&& after.promotion_square == t.promotion_square
                &&& t.game_state == GameState::WaitingForMove ==> after.capture_timeout == 0
                &&& t.game_state == GameState::PieceLifted ==> after.capture_timeout
                    == t.capture_timeout
            } else {
                t.lift_result(square, piece) == MoveResult::InvalidAction && after == t
            }
        }),
{
}

/// A piece of the opponent can be lifted while a piece is held, and is then captured: it is
/// remembered with its square, the piece in hand stays in hand and comes down next. Between moves
/// it is the wrong turn, and at any other stage it makes no sense.
pub proof fn law_lifting_an_opponents_piece(t: MoveTracker, square: u8, piece: Piece)
    requires
        piece.color != t.current_turn,
    ensures
        ({
            let after = t.after_lift(square, piece);
            if t.game_state == GameState::PieceLifted {
                &&& t.lift_result(square, piece) == MoveResult::PieceCaptured(square, piece)
                &&& after.game_state == GameState::WaitingForPlacement
                &&& after.captured_square == Some(square)
                &&& after.captured_piece == Some(piece)
                &&& after.current_turn == t.current_turn
                &&& after.lifted_square == t.lifted_square
                &&& after.lifted_piece == t.lifted_piece
                &&& after.promotion_square == t.promotion_square
                &&& after.capture_timeout == 0
            } else if t.game_state == GameState::WaitingForMove {
                t.lift_result(square, piece) == MoveResult::WrongTurn && after == t
            } else {
                t.lift_result(square, piece) == MoveResult::InvalidAction && after == t
            }
        }),
{
}

/// A change of mind keeps the capture open: after a second piece of its own, the side to move can
/// still lift a piece of the opponent, and the second piece then captures it. A knight, bishop,
/// rook, queen or king completes the move; a pawn does unless it stands on its far row.
pub proof fn law_a_change_of_mind_keeps_the_capture_open(
    t: MoveTracker,
    second: u8,
    piece: Piece,
    at: u8,
    taken: Piece,
)
    requires
        t.game_state == GameState::PieceLifted,
        piece.color == t.current_turn,
        taken.color != t.current_turn,
    ensures
        ({
            let held = t.after_lift(second, piece);
            let capturing = held.after_lift(at, taken);
            let far = if piece.color == Color::White {
                at / 8 >= 7
            } else {
                at / 8 == 0
            };
            &&& held.lift_result(at, taken) == MoveResult::PieceCaptured(at, taken)
            &&& piece.piece_type != PieceType::Pawn || !far ==> capturing.place_result(at)
                == MoveResult::MoveCompleted(second, at, piece, Some(taken))
            &&& piece.piece_type == PieceType::Pawn && far ==> capturing.place_result(at)
                == MoveResult::PawnPromotedWithCapture(second, at, taken)
        }),
{
}

/// Only ticks bring the end of the wait for a capture nearer: a second piece of its own, lifted at
/// any moment while the first is held, neither shortens the wait nor prolongs it.
pub proof fn law_a_change_of_mind_keeps_the_clock(
    t: MoveTracker,
    square: u8,
    piece: Piece,
    n: nat,
)
    requires
        t.game_state == GameState::PieceLifted,
        t.capture_timeout <= 100,
        piece.color == t.current_turn,
    ensures
        t.after_lift(square, piece).after_ticks(n).expires() <==> t.after_ticks(n).expires(),
        t.after_lift(square, piece).after_ticks(n).game_state == t.after_ticks(n).game_state,
        t.after_lift(square, piece).after_ticks(n).capture_timeout == t.after_ticks(
            n,
        ).capture_timeout,
        t.after_ticks(n).capture_timeout <= 101,
    decreases n,
{
    if n > 0 {
        law_a_change_of_mind_keeps_the_clock(t, square, piece, (n - 1) as nat);
    }
}

/// Time counts only while a piece is held and no capture has been made: each tick then adds one,
/// and the tick after the hundredth ends the wait. Nothing in hand changes.
pub proof fn law_one_tick(t: MoveTracker)
    requires
        t.game_state == GameState::PieceLifted ==> t.capture_timeout < u32::MAX,
    ensures
        ({
            let after = t.after_tick();
            if t.game_state == GameState::PieceLifted {
                &&& after.capture_timeout == t.capture_timeout + 1
                &&& t.expires() <==> after.capture_timeout > 100
                &&& t.expires() ==> after.game_state == GameState::WaitingForPlacement
                &&& !t.expires() ==> after.game_state == GameState::PieceLifted
                &&& after.current_turn == t.current_turn
                &&& after.lifted_square == t.lifted_square
                &&& after.lifted_piece == t.lifted_piece
                &&& after.captured_square == t.captured_square
                &&& after.captured_piece == t.captured_piece
                &&& after.promotion_square == t.promotion_square
            } else {
                !t.expires() && after == t
            }
        }),
{
}

/// Of all trackers, at whatever stage and whatever they hold: a placement is understood while a piece
/// is held and nothing or exactly this square is to be captured, and while a queen is awaited on
/// exactly this square. Everything else makes no sense.
pub proof fn law_which_placements_are_understood(t: MoveTracker, square: u8)
    ensures
        t.place_result(square) != MoveResult::InvalidAction <==> {
            ||| t.game_state == GameState::PieceLifted && t.lifted_square is Some
                && t.lifted_piece is Some
            ||| t.game_state == GameState::WaitingForPlacement && t.lifted_square is Some
                && t.lifted_piece is Some && t.captured_square is None && t.captured_piece is None
            ||| t.game_state == GameState::WaitingForPlacement && t.lifted_square is Some
                && t.lifted_piece is Some && t.captured_square == Some(square)
                && t.captured_piece is Some
            ||| t.game_state == GameState::WaitingForPromotion && t.lifted_square is Some
                && t.promotion_square == Some(square)
        },
{
}

} // verus!
