//! The radio link: what a client reads and writes, and what passes between it and the game.

use crate::storage;
use vstd::prelude::*;

verus! {

/// An order to the radio link.
#[derive(Debug)]
pub enum BleCommand {
    /// Offer these bytes to clients.
    SendData(heapless::Vec<u8, 256>),
    /// Offer these bytes in the characteristic with this number.
    UpdateCharacteristic(u8, heapless::Vec<u8, 256>),
}

/// News from the radio link.
#[derive(Debug)]
pub enum BleEvent {
    /// A client wrote to the main characteristic.
    DataReceived(heapless::Vec<u8, 256>),
    /// A client can connect.
    ClientConnected,
    /// The client is gone.
    ClientDisconnected,
    /// A client wrote to the characteristic with this number.
    CharacteristicWritten(u8, heapless::Vec<u8, 256>),
}

impl BleCommand {
    /// Whether two commands order the same thing.
    pub open spec fn same(self, other: BleCommand) -> bool {
        match (self, other) {
            (BleCommand::SendData(a), BleCommand::SendData(b)) => storage::bytes_of(a)
                == storage::bytes_of(b),
            (
                BleCommand::UpdateCharacteristic(i, a),
                BleCommand::UpdateCharacteristic(j, b),
            ) => i == j && storage::bytes_of(a) == storage::bytes_of(b),
            _ => false,
        }
    }
}

impl Clone for BleCommand {
    fn clone(&self) -> (r: Self)
        ensures
            self.same(r),
    {
        match self {
            BleCommand::SendData(data) => BleCommand::SendData(storage::clone_bytes(data)),
            BleCommand::UpdateCharacteristic(id, data) => BleCommand::UpdateCharacteristic(
                *id,
                storage::clone_bytes(data),
            ),
        }
    }
}

impl BleEvent {
    /// Whether two events tell the same thing.
    pub open spec fn same(self, other: BleEvent) -> bool {
        match (self, other) {
            (BleEvent::DataReceived(a), BleEvent::DataReceived(b)) => storage::bytes_of(a)
                == storage::bytes_of(b),
            (BleEvent::ClientConnected, BleEvent::ClientConnected) => true,
            (BleEvent::ClientDisconnected, BleEvent::ClientDisconnected) => true,
            (
                BleEvent::CharacteristicWritten(i, a),
                BleEvent::CharacteristicWritten(j, b),
            ) => i == j && storage::bytes_of(a) == storage::bytes_of(b),
            _ => false,
        }
    }
}

impl Clone for BleEvent {
    fn clone(&self) -> (r: Self)
        ensures
            self.same(r),
    {
        match self {
            BleEvent::DataReceived(data) => BleEvent::DataReceived(storage::clone_bytes(data)),
            BleEvent::ClientConnected => BleEvent::ClientConnected,
            BleEvent::ClientDisconnected => BleEvent::ClientDisconnected,
            BleEvent::CharacteristicWritten(id, data) => BleEvent::CharacteristicWritten(
                *id,
                storage::clone_bytes(data),
            ),
        }
    }
}

/// How one round of the attribute server ended.
#[derive(Debug, Clone, Copy, PartialEq, Eq, Structural)]
pub enum ServerRound {
    Served,
    Disconnected,
    Failed,
}

/// What the link does after a round.
#[derive(Debug, Clone, Copy, PartialEq, Eq, Structural)]
pub enum LinkStep {
    /// Serve another round.
    Continue,
    /// Start over with advertising.
    Restart,
}

/// What a characteristic offers when a connection starts.
pub open spec fn initial_bytes() -> Seq<u8> {
    vstd::utf8::encode_utf8("Initial data"@)
}

/// What a client reads while the characteristic is in use.
pub open spec fn busy_bytes() -> Seq<u8> {
    vstd::utf8::encode_utf8("Busy"@)
}

/// What a client reads from the notifying characteristic.
pub open spec fn greeting_bytes() -> Seq<u8> {
    vstd::utf8::encode_utf8("Hola!"@)
}

/// What the game offers on each round.
pub open spec fn hello_bytes() -> Seq<u8> {
    vstd::utf8::encode_utf8("Hello from main!"@)
}

/// What a characteristic that offers `offered` offers after a command.
pub open spec fn after_command(offered: Seq<u8>, command: BleCommand) -> Seq<u8> {
    match command {
        BleCommand::SendData(data) => storage::bytes_of(data),
        BleCommand::UpdateCharacteristic(id, data) => if id == 0 {
            storage::bytes_of(data)
        } else {
            offered
        },
    }
}

/// How many bytes a read of `source` into `len` bytes transfers.
pub open spec fn transferred(source: Seq<u8>, len: nat) -> nat {
    if source.len() <= len {
        source.len()
    } else {
        len
    }
}

/// A reader's bytes after a read of `source`: as many bytes of `source` as fit, and its own bytes
/// behind them.
pub open spec fn filled(source: Seq<u8>, out: Seq<u8>) -> Seq<u8> {
    let n = transferred(source, out.len()) as int;
    source.take(n) + out.skip(n)
}

/// What is kept of the bytes that a client writes: all of them, or nothing where they are more
/// than a buffer holds.
pub open spec fn kept(data: Seq<u8>) -> Seq<u8> {
    if data.len() <= 256 {
        data
    } else {
        Seq::empty()
    }
}

/// Copies as many bytes as fit, and returns how many these are.
fn copy_prefix(source: &[u8], out: &mut [u8]) -> (r: usize)
    ensures
        r == transferred(source@, old(out)@.len()),
        final(out)@ == filled(source@, old(out)@),
{
    let len: usize = if source.len() <= out.len() {
        source.len()
    } else {
        out.len()
    };
    let mut i: usize = 0;
    while i < len
        invariant
            i <= len,
            len <= source@.len(),
            len <= out@.len(),
            out@.len() == old(out)@.len(),
            out@ =~= source@.take(i as int) + old(out)@.skip(i as int),
        decreases len - i,
    {
        out[i] = source[i];
        i += 1;
    }
    len
}

/// Returns a buffer with what is kept of the bytes that a client wrote.
fn keep(data: &[u8]) -> (r: heapless::Vec<u8, 256>)
    ensures
        storage::bytes_of(r) == kept(data@),
{
    let mut buffer = storage::new_bytes();
    let _ = storage::extend_bytes(&mut buffer, data);
    proof {
        assert(Seq::<u8>::empty() + data@ =~= data@);
    }
    buffer
}

/// The bytes that the main characteristic offers to clients.
#[derive(Debug)]
pub struct Characteristic {
    pub data: heapless::Vec<u8, 256>,
}

impl View for Characteristic {
    type V = Seq<u8>;

    open spec fn view(&self) -> Seq<u8> {
        storage::bytes_of(self.data)
    }
}

impl Characteristic {
    /// Returns the characteristic at the start of a connection.
    pub fn new() -> (r: Self)
        ensures
            r@ == initial_bytes(),
    {
        proof {
            reveal_strlit("Initial data");
            vstd::utf8::is_ascii_chars_encode_utf8("Initial data"@);
        }
        Characteristic { data: keep("Initial data".as_bytes()) }
    }

    /// Carries out a command. An update of another characteristic changes nothing here.
    pub fn apply(&mut self, command: BleCommand)
        ensures
            final(self)@ == after_command(old(self)@, command),
    {
        match command {
            BleCommand::SendData(data) => self.replace(&data),
            BleCommand::UpdateCharacteristic(id, data) => {
                if id == 0 {
                    self.replace(&data);
                }
            },
        }
    }

    /// Replaces the bytes that are offered.
    fn replace(&mut self, data: &heapless::Vec<u8, 256>)
        ensures
            final(self)@ == storage::bytes_of(*data),
    {
        storage::clear_bytes(&mut self.data);
        let _ = storage::extend_bytes(&mut self.data, storage::slice_of(data));
        proof {
            assert(Seq::<u8>::empty() + storage::bytes_of(*data) =~= storage::bytes_of(*data));
        }
    }
}

/// Answers a read of the main characteristic: with what it offers, or, while it is in use, with a
/// word that says so. Returns the number of bytes written to `out`.
pub fn read_characteristic(source: Option<&Characteristic>, out: &mut [u8]) -> (r: usize)
    ensures
        ({
            let offered = match source {
                Some(characteristic) => characteristic@,
                None => busy_bytes(),
            };
            r == transferred(offered, old(out)@.len()) && final(out)@ == filled(
                offered,
                old(out)@,
            )
        }),
{
    match source {
        Some(characteristic) => copy_prefix(storage::slice_of(&characteristic.data), out),
        None => copy_prefix("Busy".as_bytes(), out),
    }
}

/// Answers a read of the notifying characteristic. Returns the number of bytes written to `out`.
pub fn read_greeting(out: &mut [u8]) -> (r: usize)
    requires
        old(out)@.len() >= 5,
    ensures
        r == 5,
        final(out)@ == greeting_bytes() + old(out)@.skip(5),
{
    proof {
        reveal_strlit("Hola!");
        vstd::utf8::is_ascii_chars_encode_utf8("Hola!"@);
        assert(greeting_bytes().take(5) =~= greeting_bytes());
    }
    copy_prefix("Hola!".as_bytes(), out)
}

/// Returns the news of bytes written to the main characteristic.
pub fn data_received(data: &[u8]) -> (r: BleEvent)
    ensures
        r matches BleEvent::DataReceived(buffer) && storage::bytes_of(buffer) == kept(data@),
{
    BleEvent::DataReceived(keep(data))
}

/// Returns the news of bytes written to the characteristic with the number `id`.
pub fn characteristic_written(id: u8, data: &[u8]) -> (r: BleEvent)
    ensures
        r matches BleEvent::CharacteristicWritten(number, buffer) && number == id
            && storage::bytes_of(buffer) == kept(data@),
{
    BleEvent::CharacteristicWritten(id, keep(data))
}

/// Returns the command with which the game greets clients on each round.
pub fn hello_command() -> (r: BleCommand)
    ensures
        r matches BleCommand::SendData(buffer) && storage::bytes_of(buffer) == hello_bytes(),
{
    proof {
        reveal_strlit("Hello from main!");
        vstd::utf8::is_ascii_chars_encode_utf8("Hello from main!"@);
    }
    BleCommand::SendData(keep("Hello from main!".as_bytes()))
}

/// Returns what the link does after a round: it goes on until the client is gone or the radio
/// fails.
pub fn after_round(round: ServerRound) -> (r: LinkStep)
    ensures
        r is Continue <==> round is Served,
        r is Restart <==> round is Disconnected || round is Failed,
{
    match round {
        ServerRound::Served => LinkStep::Continue,
        ServerRound::Disconnected => LinkStep::Restart,
        ServerRound::Failed => LinkStep::Restart,
    }
}

/// A read into a large enough space gives back exactly what the last command for the main
/// characteristic wrote, whatever was offered before; a smaller space gets its beginning.
pub proof fn law_a_read_gives_back_the_last_write(
    offered: Seq<u8>,
    data: heapless::Vec<u8, 256>,
    out: Seq<u8>,
)
    ensures
        ({
            let sent = after_command(offered, BleCommand::SendData(data));
            let written = storage::bytes_of(data);
            &&& sent == after_command(offered, BleCommand::UpdateCharacteristic(0, data))
            &&& transferred(sent, out.len()) <= out.len()
            &&& filled(sent, out).len() == out.len()
            &&& out.len() >= written.len() ==> transferred(sent, out.len()) == written.len()
                && filled(sent, out).take(written.len() as int) == written
            &&& out.len() < written.len() ==> filled(sent, out) == written.take(out.len() as int)
        }),
{
    let written = storage::bytes_of(data);
    if out.len() >= written.len() {
        assert(filled(written, out).take(written.len() as int) =~= written);
    } else {
        assert(filled(written, out) =~= written.take(out.len() as int));
    }
}

/// A read leaves the bytes behind those that it transfers as they were.
pub proof fn law_a_read_spares_the_rest(source: Seq<u8>, out: Seq<u8>, i: int)
    requires
        transferred(source, out.len()) <= i < out.len(),
    ensures
        filled(source, out)[i] == out[i],
{
}

/// An update of another characteristic leaves the main one as it was.
pub proof fn law_other_updates_are_ignored(offered: Seq<u8>, id: u8, data: heapless::Vec<u8, 256>)
    requires
        id != 0,
    ensures
        after_command(offered, BleCommand::UpdateCharacteristic(id, data)) == offered,
{
}

/// A read transfers the beginning of what is offered, byte for byte, as far as both sides reach,
/// and counts exactly these bytes.
pub proof fn law_a_read_transfers_the_beginning(source: Seq<u8>, out: Seq<u8>, i: int)
    ensures
        transferred(source, out.len()) == source.len() || transferred(source, out.len())
            == out.len(),
        transferred(source, out.len()) <= source.len(),
        transferred(source, out.len()) <= out.len(),
        filled(source, out).len() == out.len(),
        0 <= i < source.len() && i < out.len() ==> filled(source, out)[i] == source[i],
        source.len() <= i < out.len() ==> filled(source, out)[i] == out[i],
{
}

/// What a client writes is kept whole or, where it is more than a buffer of 256 bytes, not at all.
pub proof fn law_writes_are_kept_whole_or_not_at_all(data: Seq<u8>)
    ensures
        data.len() <= 256 ==> kept(data) == data,
        data.len() > 256 ==> kept(data).len() == 0,
{
}

/// Commands that order the same thing have the same effect, and name the same characteristic.
pub proof fn law_same_commands_do_the_same(offered: Seq<u8>, a: BleCommand, b: BleCommand)
    requires
        a.same(b),
    ensures
        after_command(offered, a) == after_command(offered, b),
        a is SendData <==> b is SendData,
        a matches BleCommand::SendData(x) ==> (b matches BleCommand::SendData(y)
            && storage::bytes_of(x) == storage::bytes_of(y)),
        a matches BleCommand::UpdateCharacteristic(i, x) ==> (
        b matches BleCommand::UpdateCharacteristic(j, y) && i == j && storage::bytes_of(x)
            == storage::bytes_of(y)),
{
}

/// Events that tell the same thing are of the same sort, name the same characteristic and carry the
/// same bytes.
pub proof fn law_same_events_tell_the_same(a: BleEvent, b: BleEvent)
    requires
        a.same(b),
    ensures
        a is ClientConnected <==> b is ClientConnected,
        a is ClientDisconnected <==> b is ClientDisconnected,
        a matches BleEvent::DataReceived(x) ==> (b matches BleEvent::DataReceived(y)
            && storage::bytes_of(x) == storage::bytes_of(y)),
        a matches BleEvent::CharacteristicWritten(i, x) ==> (
        b matches BleEvent::CharacteristicWritten(j, y) && i == j && storage::bytes_of(x)
            == storage::bytes_of(y)),
{
}

/// A command for the main characteristic replaces what it offers by the bytes of the command.
pub proof fn law_a_command_replaces_what_is_offered(
    offered: Seq<u8>,
    data: heapless::Vec<u8, 256>,
)
    ensures
        after_command(offered, BleCommand::SendData(data)) == storage::bytes_of(data),
        after_command(offered, BleCommand::UpdateCharacteristic(0, data)) == storage::bytes_of(
            data,
        ),
{
}

/// The fixed words of the link go out letter by letter, one byte for each.
pub proof fn law_fixed_words_are_ascii()
    ensures
        busy_bytes() == seq!['B' as u8, 'u' as u8, 's' as u8, 'y' as u8],
        greeting_bytes() == seq!['H' as u8, 'o' as u8, 'l' as u8, 'a' as u8, '!' as u8],
        initial_bytes().len() == 12,
        forall|i: int| 0 <= i < 12 ==> #[trigger] initial_bytes()[i] == "Initial data"@[i] as u8,
        hello_bytes().len() == 16,
        forall|i: int| 0 <= i < 16 ==> #[trigger] hello_bytes()[i] == "Hello from main!"@[i] as u8,
{
    reveal_strlit("Busy");
    reveal_strlit("Hola!");
    reveal_strlit("Initial data");
    reveal_strlit("Hello from main!");
    vstd::utf8::is_ascii_chars_encode_utf8("Busy"@);
    vstd::utf8::is_ascii_chars_encode_utf8("Hola!"@);
    vstd::utf8::is_ascii_chars_encode_utf8("Initial data"@);
    vstd::utf8::is_ascii_chars_encode_utf8("Hello from main!"@);
}

} // verus!
