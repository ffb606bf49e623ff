//! Plain data carried between the bus, the driver, the registry and the
//! consumer: descriptors as the bus reports them, per-device identity
//! captured at initialization, decoded stick reports, and the events the
//! translator emits.

use vstd::prelude::*;

verus! {

/// Abstract gamepad identifier handed to the consumer. Allocated from a
/// monotonically increasing counter and never reused.
#[derive(Clone, Copy, PartialEq, Eq, Structural, Debug)]
pub struct GamepadId {
    pub id: usize,
}

/// Which physical controller variant a device is; decides how its stick
/// geometry maps onto the standard gamepad axes.
#[derive(Clone, Copy, PartialEq, Eq, Structural, Debug)]
pub enum WhichController {
    LeftJoyCon,
    RightJoyCon,
    ProController,
}

/// One 8-bit-per-channel color read from the controller's body.
#[derive(Clone, Copy, PartialEq, Eq, Structural, Debug)]
pub struct Rgb {
    pub r: u8,
    pub g: u8,
    pub b: u8,
}

/// The color set a controller reports for its shell and buttons.
#[derive(Clone, Copy, PartialEq, Eq, Structural, Debug)]
pub struct ControllerColor {
    pub body: Rgb,
    pub buttons: Rgb,
    pub left_grip: Rgb,
    pub right_grip: Rgb,
}

/// Whether the device says its stored colors should be used, and for
/// which parts.
#[derive(Clone, Copy, PartialEq, Eq, Structural, Debug)]
pub enum UseSPIColors {
    No,
    WithoutGrip,
    IncludingGrip,
}

/// One stick sample in device-native integer units, as decoded by the
/// driver after calibration.
#[derive(Clone, Copy, PartialEq, Eq, Structural, Debug)]
pub struct StickPos {
    pub x: i32,
    pub y: i32,
}

/// An immutable snapshot of decoded stick positions. Single-stick units
/// fill only the stick they physically carry; the other one is whatever
/// the driver reports (the translator never reads it).
#[derive(Clone, Copy, PartialEq, Eq, Structural, Debug)]
pub struct Report {
    pub left_stick: StickPos,
    pub right_stick: StickPos,
    /// Driver-provided sequence number of this snapshot.
    pub tick: u64,
}

/// Bus-reported metadata for one device, prior to opening it. Serial
/// number and display name are absent when the bus could not read them.
pub struct DeviceDescriptor {
    pub vendor_id: u16,
    pub product_id: u16,
    pub serial_number: Option<Vec<u8>>,
    pub product_string: Option<String>,
}

/// Immutable per-device facts captured once at successful initialization.
pub struct JoyconInfo {
    pub product_string: String,
    pub serial_number: Vec<u8>,
    pub which: WhichController,
    pub color: ControllerColor,
    pub use_spi_colors: UseSPIColors,
}

/// The standard gamepad axes this backend drives.
#[derive(Clone, Copy, PartialEq, Eq, Structural, Debug)]
pub enum GamepadAxis {
    LeftStickX,
    LeftStickY,
    RightStickX,
    RightStickY,
}

/// A normalized axis-change event, in the same integer units as
/// [`StickPos`] (widened so that negation never overflows).
#[derive(Clone, Copy, PartialEq, Eq, Structural, Debug)]
pub struct AxisEvent {
    pub gamepad: GamepadId,
    pub axis: GamepadAxis,
    pub value: i64,
}

/// Notification that a device finished initialization and is live.
pub struct ConnectEvent {
    pub gamepad: GamepadId,
    pub name: String,
}

/// The fixed vendor identifier whose devices this backend considers.
pub const ACCEPTED_VENDOR_ID: u16 = 0x057e;

/// The accepted product identifiers: left unit, right unit, combined
/// unit.
pub open spec fn spec_is_accepted_product(product_id: u16) -> bool {
    product_id == 0x2006 || product_id == 0x2007 || product_id == 0x2009
}

/// A descriptor is a candidate when it carries the fixed vendor
/// identifier and one of the accepted product identifiers.
pub open spec fn spec_is_joycon_device(d: &DeviceDescriptor) -> bool {
    d.vendor_id == ACCEPTED_VENDOR_ID && spec_is_accepted_product(d.product_id)
}

/// Decides whether a bus descriptor is a candidate device at all.
pub fn is_joycon_device(d: &DeviceDescriptor) -> (r: bool)
    ensures
        r == spec_is_joycon_device(d),
{
    d.vendor_id == ACCEPTED_VENDOR_ID
        && (d.product_id == 0x2006 || d.product_id == 0x2007 || d.product_id == 0x2009)
}

} // verus!
