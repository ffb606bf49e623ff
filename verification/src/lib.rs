//! Bridges Joy-Con style handheld controllers into a generic gamepad
//! abstraction: a registry of connected devices keyed by serial number,
//! a connection scanner with permanent-failure memoization, a single-slot
//! latest-value mailbox fed by a per-device polling loop, and a report
//! translator that maps raw stick geometry to normalized axis events.
//!
//! Device I/O (bus enumeration, the wire protocol, background threads and
//! the host engine's event loop) lives outside this crate; the embedder
//! hands plain values in and carries plain events out.

use vstd::prelude::*;

pub mod device;
pub mod mailbox;
pub mod registry;
pub mod translate;

pub use crate::device::{ControllerColor, JoyconInfo, UseSPIColors, WhichController};
pub use crate::registry::Joycons;

verus! {

/// Marker for the host-engine integration. The embedder wraps this in its
/// own plugin type, wires the scanner and the translator to run once per
/// tick (scanner first), and owns the bus handle and polling threads.
#[derive(Default)]
pub struct JoyconsPlugin;

} // verus!
