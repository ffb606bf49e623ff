//! Scenario tests for the connection scanner: one connect per new
//! serial number, permanent-failure memoization, and identifier
//! allocation.

use joycons::device::{
    ControllerColor, DeviceDescriptor, Report, Rgb, StickPos, UseSPIColors, WhichController,
};
use joycons::registry::{Joycons, PendingConnection, ScanDecision, STARTING_GAMEPAD_ID};

fn descriptor(vendor: u16, product: u16, serial: Option<&str>, name: Option<&str>) -> DeviceDescriptor {
    DeviceDescriptor {
        vendor_id: vendor,
        product_id: product,
        serial_number: serial.map(|s| s.as_bytes().to_vec()),
        product_string: name.map(|n| n.to_string()),
    }
}

fn sample_report(lx: i32, ly: i32, rx: i32, ry: i32) -> Report {
    Report {
        left_stick: StickPos { x: lx, y: ly },
        right_stick: StickPos { x: rx, y: ry },
        tick: 0,
    }
}

fn plain_color() -> ControllerColor {
    let grey = Rgb { r: 0x82, g: 0x82, b: 0x82 };
    ControllerColor { body: grey, buttons: grey, left_grip: grey, right_grip: grey }
}

fn expect_connect(j: &mut Joycons, desc: &DeviceDescriptor) -> PendingConnection {
    match j.scan_next(desc) {
        ScanDecision::Connect(p) => p,
        _ => panic!("expected a connect decision"),
    }
}

#[test]
fn connect_once_then_known() {
    let mut j = Joycons::new();
    let desc = descriptor(0x057e, 0x2006, Some("ABC123"), Some("Joy-Con (L)"));

    let pending = expect_connect(&mut j, &desc);
    assert_eq!(pending.gamepad.id, STARTING_GAMEPAD_ID);
    assert_eq!(pending.serial_number, b"ABC123".to_vec());
    assert_eq!(pending.product_string, "Joy-Con (L)");

    let ev = j.connect_succeeded(
        pending,
        WhichController::LeftJoyCon,
        plain_color(),
        UseSPIColors::No,
        sample_report(0, 0, 0, 0),
    );
    assert_eq!(ev.gamepad.id, STARTING_GAMEPAD_ID);
    assert_eq!(ev.name, "Joy-Con (L)");

    // The same descriptor on the next pass yields no further connect.
    assert!(matches!(j.scan_next(&desc), ScanDecision::AlreadyKnown));
    assert!(matches!(j.scan_next(&desc), ScanDecision::AlreadyKnown));
}

#[test]
fn failure_is_memoized() {
    let mut j = Joycons::new();
    let desc = descriptor(0x057e, 0x2007, Some("XYZ"), Some("Joy-Con (R)"));

    let pending = expect_connect(&mut j, &desc);
    j.connect_failed(pending);

    // The next scan must not ask for another initialization attempt.
    assert!(matches!(j.scan_next(&desc), ScanDecision::AlreadyKnown));
    assert!(matches!(j.scan_next(&desc), ScanDecision::AlreadyKnown));

    // No connect ever happened, so no tracker produces events and no
    // gamepad identifier resolves.
    assert!(j.translate().is_empty());
    assert!(j.get_info(joycons::device::GamepadId { id: STARTING_GAMEPAD_ID }).is_none());
}

#[test]
fn vendor_and_product_filter() {
    let mut j = Joycons::new();
    let wrong_vendor = descriptor(0x1234, 0x2006, Some("S1"), Some("N1"));
    assert!(matches!(j.scan_next(&wrong_vendor), ScanDecision::NotJoycon));

    let wrong_product = descriptor(0x057e, 0x1111, Some("S2"), Some("N2"));
    assert!(matches!(j.scan_next(&wrong_product), ScanDecision::NotJoycon));

    for (i, pid) in [0x2006u16, 0x2007, 0x2009].iter().enumerate() {
        let serial = format!("S{}", i);
        let good = descriptor(0x057e, *pid, Some(&serial), Some("pad"));
        assert!(matches!(j.scan_next(&good), ScanDecision::Connect(_)));
    }
}

#[test]
fn missing_serial_is_retried() {
    let mut j = Joycons::new();
    let anonymous = descriptor(0x057e, 0x2006, None, Some("Joy-Con (L)"));
    assert!(matches!(j.scan_next(&anonymous), ScanDecision::MissingSerial));
    // No entry was made, so the same device is examined again...
    assert!(matches!(j.scan_next(&anonymous), ScanDecision::MissingSerial));
    // ...and connects as soon as the bus reports its serial number.
    let named = descriptor(0x057e, 0x2006, Some("NOW"), Some("Joy-Con (L)"));
    assert!(matches!(j.scan_next(&named), ScanDecision::Connect(_)));
}

#[test]
fn missing_name_is_retried() {
    let mut j = Joycons::new();
    let nameless = descriptor(0x057e, 0x2009, Some("PRO1"), None);
    assert!(matches!(j.scan_next(&nameless), ScanDecision::MissingName));
    assert!(matches!(j.scan_next(&nameless), ScanDecision::MissingName));
    let named = descriptor(0x057e, 0x2009, Some("PRO1"), Some("Pro Controller"));
    assert!(matches!(j.scan_next(&named), ScanDecision::Connect(_)));
}

#[test]
fn identifiers_allocate_monotonically_and_never_recycle() {
    let mut j = Joycons::new();

    let first = expect_connect(&mut j, &descriptor(0x057e, 0x2006, Some("A"), Some("L")));
    assert_eq!(first.gamepad.id, STARTING_GAMEPAD_ID);
    j.connect_succeeded(
        first,
        WhichController::LeftJoyCon,
        plain_color(),
        UseSPIColors::No,
        sample_report(0, 0, 0, 0),
    );

    // A failed initialization burns its identifier.
    let second = expect_connect(&mut j, &descriptor(0x057e, 0x2007, Some("B"), Some("R")));
    assert_eq!(second.gamepad.id, STARTING_GAMEPAD_ID + 1);
    j.connect_failed(second);

    let third = expect_connect(&mut j, &descriptor(0x057e, 0x2009, Some("C"), Some("P")));
    assert_eq!(third.gamepad.id, STARTING_GAMEPAD_ID + 2);
}

#[test]
fn prefix_serials_are_distinct_devices() {
    let mut j = Joycons::new();
    let short = descriptor(0x057e, 0x2006, Some("AB"), Some("L"));
    let long = descriptor(0x057e, 0x2006, Some("ABC"), Some("L"));

    let pending = expect_connect(&mut j, &short);
    j.connect_failed(pending);

    // "ABC" is not "AB": it still gets its own initialization attempt.
    assert!(matches!(j.scan_next(&long), ScanDecision::Connect(_)));
}

#[test]
fn get_info_reports_the_captured_identity() {
    let mut j = Joycons::new();
    let desc = descriptor(0x057e, 0x2007, Some("RIGHT-1"), Some("Joy-Con (R)"));
    let pending = expect_connect(&mut j, &desc);
    let gamepad = pending.gamepad;
    j.connect_succeeded(
        pending,
        WhichController::RightJoyCon,
        plain_color(),
        UseSPIColors::IncludingGrip,
        sample_report(1, 2, 3, 4),
    );

    let info = j.get_info(gamepad).expect("a live tracker");
    assert_eq!(info.product_string, "Joy-Con (R)");
    assert_eq!(info.serial_number, b"RIGHT-1".to_vec());
    assert_eq!(info.which, WhichController::RightJoyCon);
    assert_eq!(info.use_spi_colors, UseSPIColors::IncludingGrip);
    assert_eq!(info.color, plain_color());

    let unknown = joycons::device::GamepadId { id: STARTING_GAMEPAD_ID + 99 };
    assert!(j.get_info(unknown).is_none());
}
