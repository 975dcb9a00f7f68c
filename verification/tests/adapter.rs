use stm32_gpios::bus::{Adapter, Advance, BusError, BusPoll, Driven, DISPLAY_ADDRESS};
use stm32_gpios::peripherals::Peripherals;

fn adapter() -> Adapter {
    let mut set = Peripherals::acquire();
    Adapter::new(set.take_bus().expect("the bus master is in a new set"))
}

const ERRORS: [BusError; 7] = [
    BusError::Bus,
    BusError::Arbitration,
    BusError::Nack,
    BusError::Timeout,
    BusError::Crc,
    BusError::Overrun,
    BusError::ZeroLengthTransfer,
];

#[test]
fn display_address_is_the_common_one() {
    assert_eq!(DISPLAY_ADDRESS, 0x3C);
}

#[test]
fn write_hands_over_every_byte() {
    let bytes: Vec<u8> = (0..=255u8).chain(0..=43u8).collect();
    let pending = adapter().write(0x3C, &bytes);
    assert_eq!(pending.target(), 0x3C);
    assert_eq!(pending.payload(), &bytes);
    assert_eq!(pending.payload().len(), 300);
    let empty = adapter().write(0x11, &[]);
    assert_eq!(empty.target(), 0x11);
    assert!(empty.payload().is_empty());
}

#[test]
fn pending_poll_keeps_the_write() {
    let pending = adapter().write(0x3C, &[0x00, 0xAE]);
    match pending.advance(BusPoll::Pending) {
        Advance::Again(same) => {
            assert_eq!(same.target(), 0x3C);
            assert_eq!(same.payload(), &vec![0x00, 0xAE]);
        }
        Advance::Done(..) => panic!("the transaction is still under way"),
    }
}

#[test]
fn success_comes_back_as_success() {
    let pending = adapter().write(0x3C, &[0x40, 1, 2, 3]);
    match pending.advance(BusPoll::Ready(Ok(()))) {
        Advance::Done(_, outcome) => assert_eq!(outcome, Ok(())),
        Advance::Again(_) => panic!("the transaction is over"),
    }
}

#[test]
fn every_error_comes_back_unchanged() {
    for error in ERRORS {
        let pending = adapter().write(0x3C, &[0x00, 0xAF]);
        match pending.advance(BusPoll::Ready(Err(error))) {
            Advance::Done(_, outcome) => assert_eq!(outcome, Err(error)),
            Advance::Again(_) => panic!("the transaction is over"),
        }
    }
}

#[test]
fn drive_ends_at_the_first_ready_answer() {
    let polls = vec![
        BusPoll::Pending,
        BusPoll::Pending,
        BusPoll::Ready(Err(BusError::Arbitration)),
        BusPoll::Ready(Ok(())),
    ];
    match adapter().write(0x3C, &[9, 8, 7]).drive(&polls) {
        Driven::Done { outcome, polls, .. } => {
            assert_eq!(outcome, Err(BusError::Arbitration));
            assert_eq!(polls, 3);
        }
        Driven::Starved(_) => panic!("the third answer ends the transaction"),
    }
    match adapter().write(0x3C, &[9, 8, 7]).drive(&vec![BusPoll::Ready(Ok(()))]) {
        Driven::Done { outcome, polls, .. } => {
            assert_eq!(outcome, Ok(()));
            assert_eq!(polls, 1);
        }
        Driven::Starved(_) => panic!("the first answer ends the transaction"),
    }
}

#[test]
fn drive_without_a_ready_answer_stays_pending() {
    let polls = vec![BusPoll::Pending; 5];
    match adapter().write(0x3C, &[9, 8, 7]).drive(&polls) {
        Driven::Starved(pending) => {
            assert_eq!(pending.target(), 0x3C);
            assert_eq!(pending.payload(), &vec![9, 8, 7]);
        }
        Driven::Done { .. } => panic!("no answer ended the transaction"),
    }
    match adapter().write(0x3C, &[1]).drive(&Vec::new()) {
        Driven::Starved(pending) => assert_eq!(pending.payload(), &vec![1]),
        Driven::Done { .. } => panic!("there was no answer at all"),
    }
}

#[test]
fn the_adapter_comes_back_for_the_next_write() {
    let first = adapter().write(0x3C, &[1]);
    let adapter = match first.advance(BusPoll::Ready(Err(BusError::Timeout))) {
        Advance::Done(adapter, _) => adapter,
        Advance::Again(_) => panic!("the transaction is over"),
    };
    let second = adapter.write(0x3C, &[2, 3]);
    assert_eq!(second.payload(), &vec![2, 3]);
    match second.drive(&vec![BusPoll::Pending, BusPoll::Ready(Ok(()))]) {
        Driven::Done { adapter, outcome, polls } => {
            assert_eq!((outcome, polls), (Ok(()), 2));
            let _bus = adapter.release();
        }
        Driven::Starved(_) => panic!("the second answer ends the transaction"),
    }
}
