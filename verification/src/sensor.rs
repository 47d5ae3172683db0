//! The sensors under the squares, and the filter that keeps their glitches out.
//!
//! A sensor reads `false` while a piece stands on its square and `true` while the square is empty.
//! A square changes its confirmed state only after five readings in a row that agree.

use crate::board;
use vstd::prelude::*;

verus! {

/// The number of readings in a row that confirm a state.
pub const CONFIRMING_READINGS: u8 = 5;

/// What is known of one square.
#[derive(Debug, Clone, Copy, PartialEq, Eq, Structural)]
pub struct SquareState {
    pub confirmed_state: bool,
    pub consecutive_count: u8,
    pub last_reading: bool,
}

impl SquareState {
    /// The square at rest in a state.
    pub open spec fn resting(state: bool) -> SquareState {
        SquareState {
            confirmed_state: state,
            consecutive_count: CONFIRMING_READINGS,
            last_reading: state,
        }
    }

    /// The number of equal readings in a row once `reading` has come in; the count stops at 255.
    pub open spec fn count_with(self, reading: bool) -> int {
        if reading != self.last_reading {
            1
        } else if self.consecutive_count < 255 {
            self.consecutive_count + 1
        } else {
            255
        }
    }

    /// Whether `reading` changes the confirmed state.
    pub open spec fn changes_on(self, reading: bool) -> bool {
        self.count_with(reading) >= CONFIRMING_READINGS && reading != self.confirmed_state
    }

    /// The square once `reading` has come in.
    pub open spec fn after(self, reading: bool) -> SquareState {
        SquareState {
            confirmed_state: if self.changes_on(reading) {
                reading
            } else {
                self.confirmed_state
            },
            consecutive_count: self.count_with(reading) as u8,
            last_reading: reading,
        }
    }

    /// The square once a whole sequence of readings has come in.
    pub open spec fn after_all(self, readings: Seq<bool>) -> SquareState
        decreases readings.len(),
    {
        if readings.len() == 0 {
            self
        } else {
            self.after_all(readings.drop_last()).after(readings.last())
        }
    }

    /// Returns a square at rest in `initial_state`.
    pub fn new(initial_state: bool) -> (r: Self)
        ensures
            r == Self::resting(initial_state),
    {
        SquareState {
            confirmed_state: initial_state,
            consecutive_count: CONFIRMING_READINGS,
            last_reading: initial_state,
        }
    }

    /// Takes a reading in and tells whether it changed the confirmed state.
    pub fn update(&mut self, new_reading: bool) -> (r: bool)
        ensures
            r == old(self).changes_on(new_reading),
            *final(self) == old(self).after(new_reading),
    {
        if new_reading == self.last_reading {
            if self.consecutive_count < 255 {
                self.consecutive_count += 1;
            }
        } else {
            self.consecutive_count = 1;
            self.last_reading = new_reading;
        }
        if self.consecutive_count >= CONFIRMING_READINGS && new_reading != self.confirmed_state {
            self.confirmed_state = new_reading;
            return true;
        }
        false
    }
}

/// Returns the squares at the start of a game: each at rest, empty where no piece starts.
pub fn init_square_states() -> (r: [SquareState; 64])
    ensures
        forall|i: u8|
            i < 64 ==> #[trigger] r@[i as int] == SquareState::resting(board::starting_piece(i) is None),
{
    [
        // Row 1
        SquareState::new(false), SquareState::new(false), SquareState::new(false), SquareState::new(false),
        SquareState::new(false), SquareState::new(false), SquareState::new(false), SquareState::new(false),
        // Row 2
        SquareState::new(false), SquareState::new(false), SquareState::new(false), SquareState::new(false),
        SquareState::new(false), SquareState::new(false), SquareState::new(false), SquareState::new(false),
        // Rows 3 to 6
        SquareState::new(true), SquareState::new(true), SquareState::new(true), SquareState::new(true),
        SquareState::new(true), SquareState::new(true), SquareState::new(true), SquareState::new(true),
        SquareState::new(true), SquareState::new(true), SquareState::new(true), SquareState::new(true),
        SquareState::new(true), SquareState::new(true), SquareState::new(true), SquareState::new(true),
        SquareState::new(true), SquareState::new(true), SquareState::new(true), SquareState::new(true),
        SquareState::new(true), SquareState::new(true), SquareState::new(true), SquareState::new(true),
        SquareState::new(true), SquareState::new(true), SquareState::new(true), SquareState::new(true),
        SquareState::new(true), SquareState::new(true), SquareState::new(true), SquareState::new(true),
        // Row 7
        SquareState::new(false), SquareState::new(false), SquareState::new(false), SquareState::new(false),
        SquareState::new(false), SquareState::new(false), SquareState::new(false), SquareState::new(false),
        // Row 8
        SquareState::new(false), SquareState::new(false), SquareState::new(false), SquareState::new(false),
        SquareState::new(false), SquareState::new(false), SquareState::new(false), SquareState::new(false),
    ]
}

/// Whether the last `n` of the readings are all `value`.
pub open spec fn last_all(readings: Seq<bool>, n: int, value: bool) -> bool {
    &&& readings.len() >= n
    &&& forall|i: int| readings.len() - n <= i < readings.len() ==> readings[i] == value
}

/// What holds of a square that was at rest in `initial` before `readings` came in: either nothing
/// but `initial` was read, or the count is the length of the last run of equal readings.
spec fn tells_the_run(initial: bool, readings: Seq<bool>, s: SquareState) -> bool {
    let count = s.consecutive_count as int;
    if last_all(readings, readings.len() as int, initial) {
        s.confirmed_state == initial && s.last_reading == initial && count >= CONFIRMING_READINGS
    } else {
        &&& s.last_reading == readings.last()
        &&& 1 <= count
        &&& last_all(readings, count, s.last_reading)
        &&& count < 255 ==> !last_all(readings, count + 1, s.last_reading)
    }
}

/// The count of a square always tells the length of the last run.
proof fn lemma_tells_the_run(initial: bool, readings: Seq<bool>)
    ensures
        tells_the_run(initial, readings, SquareState::resting(initial).after_all(readings)),
    decreases readings.len(),
{
    if readings.len() > 0 {
        let before = readings.drop_last();
        let s = SquareState::resting(initial).after_all(before);
        let reading = readings.last();
        lemma_tells_the_run(initial, before);
        let t = s.after(reading);
        let n = readings.len() as int;
        assert(forall|i: int|
            #![trigger readings[i]]
            #![trigger before[i]]
            0 <= i < n - 1 ==> readings[i] == before[i]);
        if last_all(readings, n, initial) {
            assert(last_all(before, n - 1, initial));
        } else if last_all(before, n - 1, initial) {
            assert(reading != initial);
            assert(n >= 2 ==> readings[n - 2] == before[n - 2]);
            assert(!last_all(readings, 2, reading));
        } else {
            let count = s.consecutive_count as int;
            if reading == s.last_reading {
                assert(last_all(readings, t.consecutive_count as int, reading));
                if count < 254 {
                    assert(!last_all(before, count + 1, reading));
                    assert(last_all(readings, count + 2, reading) ==> last_all(
                        before,
                        count + 1,
                        reading,
                    ));
                }
            } else {
                assert(readings[n - 2] == before[n - 2]);
                assert(!last_all(readings, 2, reading));
            }
        }
    }
}

/// A reading changes the confirmed state of a square exactly when it differs from that state and
/// is the fifth in a row to do so, whatever was read before.
pub proof fn law_five_equal_readings_change_the_state(
    initial: bool,
    readings: Seq<bool>,
    reading: bool,
)
    ensures
        ({
            let s = SquareState::resting(initial).after_all(readings);
            s.changes_on(reading) <==> reading != s.confirmed_state && last_all(
                readings.push(reading),
                CONFIRMING_READINGS as int,
                reading,
            )
        }),
{
    let s = SquareState::resting(initial).after_all(readings);
    let all = readings.push(reading);
    assert(all.drop_last() =~= readings);
    assert(SquareState::resting(initial).after_all(all) == s.after(reading));
    lemma_tells_the_run(initial, readings);
    lemma_tells_the_run(initial, all);
    if reading != s.confirmed_state {
        let count = s.count_with(reading);
        assert(!last_all(all, all.len() as int, initial)) by {
            if last_all(all, all.len() as int, initial) {
                assert(last_all(readings, readings.len() as int, initial)) by {
                    assert(forall|i: int| 0 <= i < readings.len() ==> readings[i] == all[i]);
                }
                assert(all[all.len() - 1] == initial);
            }
        }
        assert(last_all(all, count, reading));
        if count >= CONFIRMING_READINGS {
            assert(last_all(all, CONFIRMING_READINGS as int, reading));
        } else {
            assert(!last_all(all, count + 1, reading));
            assert(last_all(all, CONFIRMING_READINGS as int, reading) ==> last_all(
                all,
                count + 1,
                reading,
            ));
        }
    }
}

/// Once five readings in a row agree, they are the confirmed state.
pub proof fn law_five_equal_readings_settle_the_state(
    initial: bool,
    readings: Seq<bool>,
    value: bool,
)
    requires
        last_all(readings, CONFIRMING_READINGS as int, value),
    ensures
        SquareState::resting(initial).after_all(readings).confirmed_state == value,
{
    let before = readings.drop_last();
    assert(before.push(readings.last()) =~= readings);
    assert(readings.last() == value);
    law_five_equal_readings_change_the_state(initial, before, value);
}

/// Fewer than five readings that disagree with the confirmed state never change it: from a square
/// whose latest reading was its confirmed state, four readings of anything leave that state.
pub proof fn law_short_glitches_are_ignored(s: SquareState, glitch: Seq<bool>)
    requires
        s.last_reading == s.confirmed_state,
        glitch.len() < CONFIRMING_READINGS,
    ensures
        s.after_all(glitch).confirmed_state == s.confirmed_state,
{
    lemma_glitch(s, glitch);
}

/// While a glitch lasts, the count of readings that disagree is at most its length.
proof fn lemma_glitch(s: SquareState, glitch: Seq<bool>)
    requires
        s.last_reading == s.confirmed_state,
        glitch.len() < CONFIRMING_READINGS,
    ensures
        ({
            let t = s.after_all(glitch);
            &&& t.confirmed_state == s.confirmed_state
            &&& t.last_reading != s.confirmed_state ==> t.consecutive_count <= glitch.len()
        }),
    decreases glitch.len(),
{
    if glitch.len() > 0 {
        lemma_glitch(s, glitch.drop_last());
    }
}

/// One more reading: where it ends a run of five, it is the confirmed state; where it does not, the
/// confirmed state stays. It is told exactly when the confirmed state becomes another.
pub proof fn law_one_more_reading(initial: bool, readings: Seq<bool>, reading: bool)
    ensures
        ({
            let before = SquareState::resting(initial).after_all(readings);
            let after = SquareState::resting(initial).after_all(readings.push(reading));
            &&& last_all(readings.push(reading), 5, reading) ==> after.confirmed_state == reading
            &&& !last_all(readings.push(reading), 5, reading) ==> after.confirmed_state
                == before.confirmed_state
            &&& before.changes_on(reading) <==> before.confirmed_state != after.confirmed_state
            &&& after == before.after(reading)
            &&& after.last_reading == reading
        }),
{
    let all = readings.push(reading);
    assert(all.drop_last() =~= readings);
    law_five_equal_readings_change_the_state(initial, readings, reading);
}

/// A square at rest holds its state as though five readings had just confirmed it.
pub proof fn law_a_square_at_rest(state: bool)
    ensures
        SquareState::resting(state).confirmed_state == state,
        SquareState::resting(state).last_reading == state,
        SquareState::resting(state).consecutive_count == 5,
{
}

/// A reading that repeats the one before counts one more, up to the limit of a byte; any other
/// starts the count anew. It changes the state exactly when it differs from the state and at least
/// four before it were the same.
pub proof fn law_readings_are_counted(s: SquareState, reading: bool)
    ensures
        s.changes_on(reading) <==> reading != s.confirmed_state && reading == s.last_reading
            && s.consecutive_count >= 4,
        reading == s.last_reading && s.consecutive_count < 255 ==> s.after(
            reading,
        ).consecutive_count == s.consecutive_count + 1,
        reading == s.last_reading && s.consecutive_count == 255 ==> s.after(
            reading,
        ).consecutive_count == 255,
        reading != s.last_reading ==> s.after(reading).consecutive_count == 1,
        s.after(reading).last_reading == reading,
        s.after(reading).confirmed_state != s.confirmed_state <==> s.changes_on(reading),
{
}

} // verus!
