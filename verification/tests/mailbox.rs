//! Tests for the single-slot mailbox: a write overwrites, a read never
//! removes, and a polling failure empties the slot and stops the loop.

use joycons::device::{Report, StickPos};
use joycons::mailbox::Mailbox;

fn report(n: i32) -> Report {
    Report {
        left_stick: StickPos { x: n, y: n },
        right_stick: StickPos { x: -n, y: -n },
        tick: n as u64,
    }
}

#[test]
fn read_returns_the_most_recent_write_without_removing_it() {
    let mut m = Mailbox::new(report(1));
    assert_eq!(m.read(), Some(report(1)));
    assert_eq!(m.read(), Some(report(1)));

    m.write(report(2));
    m.write(report(3));
    assert_eq!(m.read(), Some(report(3)));
    assert_eq!(m.read(), Some(report(3)));
}

#[test]
fn clear_empties_the_slot() {
    let mut m = Mailbox::new(report(4));
    m.clear();
    assert_eq!(m.read(), None);
    assert_eq!(m.read(), None);
}

#[test]
fn empty_starts_with_nothing() {
    let m = Mailbox::empty();
    assert_eq!(m.read(), None);
}

#[test]
fn poll_step_publishes_and_decides_whether_to_go_on() {
    let mut m = Mailbox::empty();
    assert!(m.poll_step(Some(report(5))));
    assert_eq!(m.read(), Some(report(5)));

    assert!(m.poll_step(Some(report(6))));
    assert_eq!(m.read(), Some(report(6)));

    // A failed read empties the mailbox and ends the loop.
    assert!(!m.poll_step(None));
    assert_eq!(m.read(), None);
}
