//! Scenario tests for the report translator: the exact per-variant axis
//! mappings, and silence for devices whose polling loop has failed.

use joycons::device::{
    AxisEvent, ControllerColor, DeviceDescriptor, GamepadAxis, GamepadId, Report, Rgb, StickPos,
    UseSPIColors, WhichController,
};
use joycons::registry::{Joycons, ScanDecision};

fn report(lx: i32, ly: i32, rx: i32, ry: i32) -> Report {
    Report {
        left_stick: StickPos { x: lx, y: ly },
        right_stick: StickPos { x: rx, y: ry },
        tick: 0,
    }
}

fn connect(
    j: &mut Joycons,
    serial: &str,
    which: WhichController,
    first_report: Report,
) -> GamepadId {
    let desc = DeviceDescriptor {
        vendor_id: 0x057e,
        product_id: 0x2006,
        serial_number: Some(serial.as_bytes().to_vec()),
        product_string: Some("pad".to_string()),
    };
    let pending = match j.scan_next(&desc) {
        ScanDecision::Connect(p) => p,
        _ => panic!("expected a connect decision"),
    };
    let gamepad = pending.gamepad;
    let grey = Rgb { r: 1, g: 2, b: 3 };
    j.connect_succeeded(
        pending,
        which,
        ControllerColor { body: grey, buttons: grey, left_grip: grey, right_grip: grey },
        UseSPIColors::No,
        first_report,
    );
    gamepad
}

fn axis_pairs(events: &[AxisEvent]) -> Vec<(GamepadAxis, i64)> {
    events.iter().map(|e| (e.axis, e.value)).collect()
}

#[test]
fn left_unit_rotates_ninety_degrees() {
    let mut j = Joycons::new();
    connect(&mut j, "L1", WhichController::LeftJoyCon, report(10, 20, 0, 0));
    let events = j.translate();
    assert_eq!(
        axis_pairs(&events),
        vec![(GamepadAxis::LeftStickX, -20), (GamepadAxis::LeftStickY, 10)]
    );
}

#[test]
fn right_unit_rotates_the_mirrored_way() {
    let mut j = Joycons::new();
    connect(&mut j, "R1", WhichController::RightJoyCon, report(0, 0, 7, -3));
    let events = j.translate();
    assert_eq!(
        axis_pairs(&events),
        vec![(GamepadAxis::LeftStickX, -3), (GamepadAxis::LeftStickY, -7)]
    );
}

#[test]
fn combo_unit_maps_both_sticks_straight() {
    let mut j = Joycons::new();
    connect(&mut j, "P1", WhichController::ProController, report(1, 2, 3, 4));
    let events = j.translate();
    assert_eq!(
        axis_pairs(&events),
        vec![
            (GamepadAxis::LeftStickX, 1),
            (GamepadAxis::LeftStickY, 2),
            (GamepadAxis::RightStickX, 3),
            (GamepadAxis::RightStickY, 4),
        ]
    );
}

#[test]
fn extreme_samples_negate_without_wrapping() {
    let mut j = Joycons::new();
    connect(
        &mut j,
        "L2",
        WhichController::LeftJoyCon,
        report(i32::MAX, i32::MIN, 0, 0),
    );
    let events = j.translate();
    assert_eq!(
        axis_pairs(&events),
        vec![
            (GamepadAxis::LeftStickX, -(i32::MIN as i64)),
            (GamepadAxis::LeftStickY, i32::MAX as i64),
        ]
    );
}

#[test]
fn newest_report_wins_each_pass() {
    let mut j = Joycons::new();
    let g = connect(&mut j, "P2", WhichController::ProController, report(1, 1, 1, 1));
    j.publish(g, Some(report(5, 6, 7, 8)));
    j.publish(g, Some(report(9, 10, 11, 12)));
    let events = j.translate();
    assert_eq!(
        axis_pairs(&events),
        vec![
            (GamepadAxis::LeftStickX, 9),
            (GamepadAxis::LeftStickY, 10),
            (GamepadAxis::RightStickX, 11),
            (GamepadAxis::RightStickY, 12),
        ]
    );
    // Reading drains nothing: the same report serves the next pass too.
    assert_eq!(j.translate().len(), 4);
}

#[test]
fn failed_polling_silences_the_device_indefinitely() {
    let mut j = Joycons::new();
    let g = connect(&mut j, "L3", WhichController::LeftJoyCon, report(10, 20, 0, 0));
    assert_eq!(j.translate().len(), 2);

    // Some successful ticks, then the device's read fails.
    j.publish(g, Some(report(30, 40, 0, 0)));
    j.publish(g, Some(report(50, 60, 0, 0)));
    j.publish(g, None);

    assert!(j.translate().is_empty());
    assert!(j.translate().is_empty());
    assert!(j.translate().is_empty());
}

#[test]
fn trackers_contribute_in_registry_order() {
    let mut j = Joycons::new();
    connect(&mut j, "A", WhichController::LeftJoyCon, report(1, 2, 0, 0));
    connect(&mut j, "B", WhichController::RightJoyCon, report(0, 0, 3, 4));
    let events = j.translate();
    assert_eq!(
        axis_pairs(&events),
        vec![
            (GamepadAxis::LeftStickX, -2),
            (GamepadAxis::LeftStickY, 1),
            (GamepadAxis::LeftStickX, 4),
            (GamepadAxis::LeftStickY, -3),
        ]
    );
}
