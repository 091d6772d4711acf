use rgbnode::clock::Clock;
use rgbnode::ir::{IrCode, IrDevice, IrType};

fn code(addr: u8, cmd: u8) -> IrCode {
    IrCode { protocol: IrType::Nec, addr, cmd }
}

#[test]
fn new_mailbox_is_empty() {
    let mut mailbox = IrDevice::new();
    assert_eq!(mailbox.poll(), None);
}

#[test]
fn recorded_code_is_reported_once() {
    let mut mailbox = IrDevice::new();
    mailbox.record(code(7, 9), false);
    assert_eq!(mailbox.poll(), Some(code(7, 9)));
    assert_eq!(mailbox.poll(), None);
}

#[test]
fn second_code_overwrites_first() {
    let mut mailbox = IrDevice::new();
    mailbox.record(code(1, 2), false);
    mailbox.record(code(3, 4), false);
    assert_eq!(mailbox.poll(), Some(code(3, 4)));
    assert_eq!(mailbox.poll(), None);
}

#[test]
fn repeat_keeps_the_pending_code() {
    let mut mailbox = IrDevice::new();
    mailbox.record(code(1, 2), false);
    mailbox.record(code(3, 4), true);
    assert_eq!(mailbox.poll(), Some(code(1, 2)));
}

#[test]
fn repeat_into_an_empty_mailbox_is_dropped() {
    let mut mailbox = IrDevice::new();
    mailbox.record(code(3, 4), true);
    assert_eq!(mailbox.poll(), None);
}

#[test]
fn repeat_after_a_poll_is_dropped() {
    let mut mailbox = IrDevice::new();
    mailbox.record(code(1, 2), false);
    assert_eq!(mailbox.poll(), Some(code(1, 2)));
    mailbox.record(code(1, 2), true);
    assert_eq!(mailbox.poll(), None);
}

#[test]
fn clock_counts_milliseconds() {
    let mut clock = Clock::new();
    assert_eq!(clock.millis(), 0);
    clock.tick();
    clock.tick();
    clock.tick();
    assert_eq!(clock.millis(), 3);
}

#[test]
fn clock_wraps_around() {
    let mut clock = Clock { elapsed_ms: u32::MAX };
    clock.tick();
    assert_eq!(clock.millis(), 0);
    clock.tick();
    assert_eq!(clock.millis(), 1);
}
