//! The squares: their names, and the sensors that watch them.
//!
//! Four multiplexers with sixteen channels each watch two rows of the board. The channel is
//! selected for all four at once by four control lines; each has a signal pin of its own.

use vstd::prelude::*;

verus! {

/// The names of the squares, in the order of their numbers.
pub const SQUARE_NAMES: [&'static str; 64] = [
    "H1", "G1", "F1", "E1", "D1", "C1", "B1", "A1",
    "H2", "G2", "F2", "E2", "D2", "C2", "B2", "A2",
    "H3", "G3", "F3", "E3", "D3", "C3", "B3", "A3",
    "H4", "G4", "F4", "E4", "D4", "C4", "B4", "A4",
    "H5", "G5", "F5", "E5", "D5", "C5", "B5", "A5",
    "H6", "G6", "F6", "E6", "D6", "C6", "B6", "A6",
    "H7", "G7", "F7", "E7", "D7", "C7", "B7", "A7",
    "H8", "G8", "F8", "E8", "D8", "C8", "B8", "A8",
];

/// The levels of the four control lines for each channel.
pub const MUX_CHANNELS: [[u8; 4]; 16] = [
    [0, 0, 0, 0], [1, 0, 0, 0], [0, 1, 0, 0], [1, 1, 0, 0],
    [0, 0, 1, 0], [1, 0, 1, 0], [0, 1, 1, 0], [1, 1, 1, 0],
    [0, 0, 0, 1], [1, 0, 0, 1], [0, 1, 0, 1], [1, 1, 0, 1],
    [0, 0, 1, 1], [1, 0, 1, 1], [0, 1, 1, 1], [1, 1, 1, 1],
];

/// The name of a square: the letter of its file, from H down to A, and the digit of its row.
pub open spec fn square_label(square: u8) -> Seq<char> {
    seq![('H' as int - square as int % 8) as char, ('1' as int + square as int / 8) as char]
}

/// The row, counted from 0, that a signal pin reads on a channel: the upper of its two rows on the
/// first eight channels, the lower on the others.
pub open spec fn sensed_row(signal_pin: u8, channel: usize) -> int {
    if channel < 8 {
        9 - 2 * signal_pin
    } else {
        8 - 2 * signal_pin
    }
}

/// The square that a signal pin reads on a channel.
pub open spec fn sensed_square(signal_pin: u8, channel: usize) -> Option<u8> {
    if 1 <= signal_pin <= 4 && channel < 16 {
        Some((8 * sensed_row(signal_pin, channel) + channel as int % 8) as u8)
    } else {
        None
    }
}

/// Returns the name of a square, such as "E4".
pub fn square_name(square: u8) -> (r: &'static str)
    requires
        square < 64,
    ensures
        r@ == square_label(square),
{
    proof {
        lemma_square_names(square);
    }
    SQUARE_NAMES[square as usize]
}

/// Returns the square that a signal pin reads on a channel, if it reads one.
pub fn get_square_index(signal_pin: u8, channel: usize) -> (r: Option<u8>)
    ensures
        r == sensed_square(signal_pin, channel),
{
    let square_idx: usize = match signal_pin {
        1 => {
            if channel < 8 {
                56 + channel
            } else if channel < 16 {
                48 + (channel - 8)
            } else {
                return None;
            }
        },
        2 => {
            if channel < 8 {
                40 + channel
            } else if channel < 16 {
                32 + (channel - 8)
            } else {
                return None;
            }
        },
        3 => {
            if channel < 8 {
                24 + channel
            } else if channel < 16 {
                16 + (channel - 8)
            } else {
                return None;
            }
        },
        4 => {
            if channel < 8 {
                8 + channel
            } else if channel < 16 {
                channel - 8
            } else {
                return None;
            }
        },
        _ => return None,
    };
    if square_idx < 64 {
        Some(square_idx as u8)
    } else {
        None
    }
}

/// Whether control line `line` is high when `channel` is selected: the lines spell the number of
/// the channel in binary, the lowest digit on line 0.
pub open spec fn line_is_high(channel: int, line: int) -> bool {
    if line == 0 {
        channel % 2 == 1
    } else if line == 1 {
        channel / 2 % 2 == 1
    } else if line == 2 {
        channel / 4 % 2 == 1
    } else {
        channel / 8 % 2 == 1
    }
}

/// Returns the levels of the four control lines that select a channel, high as `true`.
pub fn channel_levels(channel: usize) -> (r: [bool; 4])
    requires
        channel < 16,
    ensures
        r@ == Seq::new(4, |line: int| line_is_high(channel as int, line)),
{
    let lines: [u8; 4] = MUX_CHANNELS[channel];
    [lines[0] == 1, lines[1] == 1, lines[2] == 1, lines[3] == 1]
}

/// The table of names spells out the label of each square.
proof fn lemma_square_names(square: u8)
    requires
        square < 64,
    ensures
        SQUARE_NAMES@[square as int]@ == square_label(square),
{
    reveal_strlit("H1");
    reveal_strlit("G1");
    reveal_strlit("F1");
    reveal_strlit("E1");
    reveal_strlit("D1");
    reveal_strlit("C1");
    reveal_strlit("B1");
    reveal_strlit("A1");
    reveal_strlit("H2");
    reveal_strlit("G2");
    reveal_strlit("F2");
    reveal_strlit("E2");
    reveal_strlit("D2");
    reveal_strlit("C2");
    reveal_strlit("B2");
    reveal_strlit("A2");
    reveal_strlit("H3");
    reveal_strlit("G3");
    reveal_strlit("F3");
    reveal_strlit("E3");
    reveal_strlit("D3");
    reveal_strlit("C3");
    reveal_strlit("B3");
    reveal_strlit("A3");
    reveal_strlit("H4");
    reveal_strlit("G4");
    reveal_strlit("F4");
    reveal_strlit("E4");
    reveal_strlit("D4");
    reveal_strlit("C4");
    reveal_strlit("B4");
    reveal_strlit("A4");
    reveal_strlit("H5");
    reveal_strlit("G5");
    reveal_strlit("F5");
    reveal_strlit("E5");
    reveal_strlit("D5");
    reveal_strlit("C5");
    reveal_strlit("B5");
    reveal_strlit("A5");
    reveal_strlit("H6");
    reveal_strlit("G6");
    reveal_strlit("F6");
    reveal_strlit("E6");
    reveal_strlit("D6");
    reveal_strlit("C6");
    reveal_strlit("B6");
    reveal_strlit("A6");
    reveal_strlit("H7");
    reveal_strlit("G7");
    reveal_strlit("F7");
    reveal_strlit("E7");
    reveal_strlit("D7");
    reveal_strlit("C7");
    reveal_strlit("B7");
    reveal_strlit("A7");
    reveal_strlit("H8");
    reveal_strlit("G8");
    reveal_strlit("F8");
    reveal_strlit("E8");
    reveal_strlit("D8");
    reveal_strlit("C8");
    reveal_strlit("B8");
    reveal_strlit("A8");
}

/// Different squares have different names.
pub proof fn law_names_tell_squares_apart(a: u8, b: u8)
    requires
        a < 64,
        b < 64,
    ensures
        square_label(a) == square_label(b) <==> a == b,
{
    if square_label(a) == square_label(b) {
        assert(square_label(a)[0] == square_label(b)[0]);
        assert(square_label(a)[1] == square_label(b)[1]);
        assert(a as int % 8 == b as int % 8);
        assert(a as int / 8 == b as int / 8);
    }
}

/// The signal pin that reads a square.
pub open spec fn pin_of(square: u8) -> u8 {
    (4 - square as int / 16) as u8
}

/// The channel on which a square is read.
pub open spec fn channel_of(square: u8) -> usize {
    (if square as int / 8 % 2 == 1 {
        square as int % 8
    } else {
        square as int % 8 + 8
    }) as usize
}

/// Each square is read by one signal pin on one channel, and by no other.
pub proof fn law_every_square_has_one_sensor(square: u8, signal_pin: u8, channel: usize)
    requires
        square < 64,
    ensures
        sensed_square(pin_of(square), channel_of(square)) == Some(square),
        sensed_square(signal_pin, channel) == Some(square) ==> signal_pin == pin_of(square)
            && channel == channel_of(square),
{
}

/// Every signal pin reads a square on the board on every channel.
pub proof fn law_every_sensor_has_a_square(signal_pin: u8, channel: usize)
    ensures
        sensed_square(signal_pin, channel) matches Some(square) ==> square < 64,
        sensed_square(signal_pin, channel) is Some <==> 1 <= signal_pin <= 4 && channel < 16,
{
}

/// The control lines spell the channel, so no two channels share their levels.
pub proof fn law_lines_spell_the_channel(channel: int)
    requires
        0 <= channel < 16,
    ensures
        channel == (if line_is_high(channel, 0) { 1int } else { 0 }) + (if line_is_high(channel, 1) {
            2int
        } else {
            0
        }) + (if line_is_high(channel, 2) { 4int } else { 0 }) + (if line_is_high(channel, 3) {
            8int
        } else {
            0
        }),
{
}

/// The names follow the grid: the first square is H1; one step along a row keeps the digit and
/// goes back by one letter; one row further keeps the letter and adds one to the digit.
pub proof fn law_names_follow_the_grid(square: u8)
    requires
        square < 64,
    ensures
        square_label(square).len() == 2,
        square_label(0) == seq!['H', '1'],
        square % 8 < 7 ==> {
            let next = square_label((square + 1) as u8);
            &&& next[0] as int == square_label(square)[0] as int - 1
            &&& next[1] == square_label(square)[1]
        },
        square < 56 ==> {
            let above = square_label((square + 8) as u8);
            &&& above[0] == square_label(square)[0]
            &&& above[1] as int == square_label(square)[1] as int + 1
        },
{
}

/// The sensors follow the grid: the first pin starts on the first square of the last row; the next
/// channel reads the next square of the row; eight channels further is the row below; the next pin
/// reads two rows below. Beyond four pins and sixteen channels nothing is read.
pub proof fn law_sensors_follow_the_grid(signal_pin: u8, channel: usize)
    ensures
        sensed_square(1, 0) == Some(56u8),
        1 <= signal_pin <= 4 && channel < 16 ==> {
            let square = sensed_square(signal_pin, channel);
            &&& square is Some
            &&& channel % 8 != 7 ==> sensed_square(signal_pin, (channel + 1) as usize) == Some(
                (square.unwrap() + 1) as u8,
            )
            &&& channel < 8 ==> sensed_square(signal_pin, (channel + 8) as usize) == Some(
                (square.unwrap() - 8) as u8,
            )
            &&& signal_pin < 4 ==> sensed_square((signal_pin + 1) as u8, channel) == Some(
                (square.unwrap() - 16) as u8,
            )
        },
        signal_pin == 0 || signal_pin > 4 || channel >= 16 ==> sensed_square(signal_pin, channel)
            is None,
{
}

} // verus!
