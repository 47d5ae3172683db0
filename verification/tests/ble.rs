use smart_chessboard::ble::{
    after_round, characteristic_written, data_received, hello_command, read_characteristic,
    read_greeting, BleCommand, BleEvent, Characteristic, LinkStep, ServerRound,
};

fn bytes(data: &[u8]) -> heapless::Vec<u8, 256> {
    heapless::Vec::from_slice(data).unwrap()
}

fn read(characteristic: &Characteristic) -> Vec<u8> {
    let mut out = [0u8; 300];
    let n = read_characteristic(Some(characteristic), &mut out);
    out[..n].to_vec()
}

#[test]
fn a_connection_starts_with_the_initial_data() {
    assert_eq!(read(&Characteristic::new()), b"Initial data");
}

#[test]
fn a_read_gives_back_what_was_sent() {
    let mut characteristic = Characteristic::new();
    characteristic.apply(BleCommand::SendData(bytes(b"E2->E4")));
    assert_eq!(read(&characteristic), b"E2->E4");
    characteristic.apply(BleCommand::SendData(bytes(&[7u8; 256])));
    assert_eq!(read(&characteristic), [7u8; 256]);
    characteristic.apply(BleCommand::SendData(bytes(b"")));
    assert_eq!(read(&characteristic), b"");
}

#[test]
fn only_characteristic_zero_is_updated() {
    let mut characteristic = Characteristic::new();
    characteristic.apply(BleCommand::UpdateCharacteristic(1, bytes(b"other")));
    assert_eq!(read(&characteristic), b"Initial data");
    characteristic.apply(BleCommand::UpdateCharacteristic(0, bytes(b"mine")));
    assert_eq!(read(&characteristic), b"mine");
}

#[test]
fn a_short_read_gets_the_beginning() {
    let characteristic = Characteristic::new();
    let mut out = [b'.'; 4];
    assert_eq!(read_characteristic(Some(&characteristic), &mut out), 4);
    assert_eq!(&out, b"Init");
    let mut none = [0u8; 0];
    assert_eq!(read_characteristic(Some(&characteristic), &mut none), 0);
}

#[test]
fn a_read_spares_the_rest() {
    let characteristic = Characteristic::new();
    let mut out = [b'.'; 14];
    assert_eq!(read_characteristic(Some(&characteristic), &mut out), 12);
    assert_eq!(&out, b"Initial data..");
}

#[test]
fn a_busy_characteristic_says_so() {
    let mut out = [b'.'; 6];
    assert_eq!(read_characteristic(None, &mut out), 4);
    assert_eq!(&out, b"Busy..");
    let mut small = [b'.'; 2];
    assert_eq!(read_characteristic(None, &mut small), 2);
    assert_eq!(&small, b"Bu");
}

#[test]
fn the_notifying_characteristic_greets() {
    let mut out = [b'.'; 8];
    assert_eq!(read_greeting(&mut out), 5);
    assert_eq!(&out, b"Hola!...");
}

#[test]
fn received_bytes_are_passed_on() {
    match data_received(b"hello") {
        BleEvent::DataReceived(data) => assert_eq!(data.as_slice(), b"hello"),
        _ => panic!("wrong event"),
    }
    match characteristic_written(2, &[9u8; 256]) {
        BleEvent::CharacteristicWritten(id, data) => {
            assert_eq!(id, 2);
            assert_eq!(data.as_slice(), [9u8; 256]);
        }
        _ => panic!("wrong event"),
    }
}

#[test]
fn too_many_bytes_are_dropped() {
    match data_received(&[1u8; 257]) {
        BleEvent::DataReceived(data) => assert_eq!(data.len(), 0),
        _ => panic!("wrong event"),
    }
    match characteristic_written(1, &[1u8; 300]) {
        BleEvent::CharacteristicWritten(_, data) => assert_eq!(data.len(), 0),
        _ => panic!("wrong event"),
    }
}

#[test]
fn the_game_says_hello() {
    let mut characteristic = Characteristic::new();
    characteristic.apply(hello_command());
    assert_eq!(read(&characteristic), b"Hello from main!");
}

#[test]
fn clones_carry_the_same_bytes() {
    match BleCommand::SendData(bytes(b"abc")).clone() {
        BleCommand::SendData(data) => assert_eq!(data.as_slice(), b"abc"),
        _ => panic!("wrong command"),
    }
    match BleCommand::UpdateCharacteristic(3, bytes(b"abc")).clone() {
        BleCommand::UpdateCharacteristic(id, data) => {
            assert_eq!(id, 3);
            assert_eq!(data.as_slice(), b"abc");
        }
        _ => panic!("wrong command"),
    }
    match characteristic_written(1, b"xyz").clone() {
        BleEvent::CharacteristicWritten(id, data) => {
            assert_eq!(id, 1);
            assert_eq!(data.as_slice(), b"xyz");
        }
        _ => panic!("wrong event"),
    }
    assert!(matches!(data_received(b"q").clone(), BleEvent::DataReceived(_)));
    assert!(matches!(BleEvent::ClientConnected.clone(), BleEvent::ClientConnected));
    assert!(matches!(BleEvent::ClientDisconnected.clone(), BleEvent::ClientDisconnected));
}

#[test]
fn the_link_restarts_when_a_round_ends_it() {
    assert_eq!(after_round(ServerRound::Served), LinkStep::Continue);
    assert_eq!(after_round(ServerRound::Disconnected), LinkStep::Restart);
    assert_eq!(after_round(ServerRound::Failed), LinkStep::Restart);
}
