//! The report translator: the per-tick pass that drains every tracker's
//! mailbox and turns raw stick geometry into normalized axis events. A
//! left unit's stick is mounted sideways relative to a standard gamepad,
//! so its sample is rotated 90 degrees; a right unit gets the mirrored
//! rotation (and its single stick drives the left-stick axes); a combined
//! unit maps both sticks straight through. Values are exact: no scaling,
//! no deadzone, no clamping.

use vstd::prelude::*;

use crate::device::{AxisEvent, GamepadAxis, GamepadId, Report, WhichController};
use crate::registry::{Joycons, Tracker};

verus! {

/// The events one report produces for one controller variant: the
/// complete, exact mapping from stick geometry to axis values.
pub open spec fn spec_axis_events(
    which: WhichController,
    gamepad: GamepadId,
    r: Report,
) -> Seq<AxisEvent> {
    match which {
        WhichController::LeftJoyCon => seq![
            AxisEvent {
                gamepad,
                axis: GamepadAxis::LeftStickX,
                value: (-(r.left_stick.y as int)) as i64,
            },
            AxisEvent { gamepad, axis: GamepadAxis::LeftStickY, value: r.left_stick.x as i64 },
        ],
        WhichController::RightJoyCon => seq![
            AxisEvent { gamepad, axis: GamepadAxis::LeftStickX, value: r.right_stick.y as i64 },
            AxisEvent {
                gamepad,
                axis: GamepadAxis::LeftStickY,
                value: (-(r.right_stick.x as int)) as i64,
            },
        ],
        WhichController::ProController => seq![
            AxisEvent { gamepad, axis: GamepadAxis::LeftStickX, value: r.left_stick.x as i64 },
            AxisEvent { gamepad, axis: GamepadAxis::LeftStickY, value: r.left_stick.y as i64 },
            AxisEvent { gamepad, axis: GamepadAxis::RightStickX, value: r.right_stick.x as i64 },
            AxisEvent { gamepad, axis: GamepadAxis::RightStickY, value: r.right_stick.y as i64 },
        ],
    }
}

/// What one tracker contributes to a pass: nothing while its mailbox is
/// empty (no report yet, or its polling loop failed), else the events of
/// the most recent report.
pub open spec fn spec_tracker_events(t: Tracker) -> Seq<AxisEvent> {
    match t.last_report@ {
        None => Seq::empty(),
        Some(r) => spec_axis_events(t.info.which, t.gamepad, r),
    }
}

/// The whole pass: every tracker's contribution, in registry order.
pub open spec fn spec_all_events(trackers: Seq<Tracker>) -> Seq<AxisEvent>
    decreases trackers.len(),
{
    if trackers.len() == 0 {
        Seq::empty()
    } else {
        spec_all_events(trackers.drop_last()) + spec_tracker_events(trackers.last())
    }
}

/// For a left unit's report with stick (x, y), the translator emits
/// exactly StickX = -y then StickY = x: the 90-degree rotation, with no
/// scaling.
pub proof fn lemma_left_unit_rotation(gamepad: GamepadId, r: Report)
    ensures
        spec_axis_events(WhichController::LeftJoyCon, gamepad, r) == seq![
            AxisEvent {
                gamepad,
                axis: GamepadAxis::LeftStickX,
                value: (-(r.left_stick.y as int)) as i64,
            },
            AxisEvent { gamepad, axis: GamepadAxis::LeftStickY, value: r.left_stick.x as i64 },
        ],
{
}

/// For a right unit's report with stick (x, y), the translator emits
/// exactly StickX = y then StickY = -x: the mirrored 90-degree rotation,
/// driving the left-stick axes since the unit carries only one stick.
pub proof fn lemma_right_unit_rotation(gamepad: GamepadId, r: Report)
    ensures
        spec_axis_events(WhichController::RightJoyCon, gamepad, r) == seq![
            AxisEvent { gamepad, axis: GamepadAxis::LeftStickX, value: r.right_stick.y as i64 },
            AxisEvent {
                gamepad,
                axis: GamepadAxis::LeftStickY,
                value: (-(r.right_stick.x as int)) as i64,
            },
        ],
{
}

/// For a combined unit's report with sticks (lx, ly) and (rx, ry), the
/// translator emits exactly the four events StickX = lx, StickY = ly,
/// RightStickX = rx, RightStickY = ry, unrotated.
pub proof fn lemma_combo_unit_straight(gamepad: GamepadId, r: Report)
    ensures
        spec_axis_events(WhichController::ProController, gamepad, r) == seq![
            AxisEvent { gamepad, axis: GamepadAxis::LeftStickX, value: r.left_stick.x as i64 },
            AxisEvent { gamepad, axis: GamepadAxis::LeftStickY, value: r.left_stick.y as i64 },
            AxisEvent { gamepad, axis: GamepadAxis::RightStickX, value: r.right_stick.x as i64 },
            AxisEvent { gamepad, axis: GamepadAxis::RightStickY, value: r.right_stick.y as i64 },
        ],
{
}

/// A device whose mailbox is empty — because its polling loop failed, or
/// because nothing arrived yet — contributes no events, on this pass and
/// on every later pass until a report is written again.
pub proof fn lemma_empty_mailbox_emits_nothing(t: Tracker)
    requires
        t.last_report@ is None,
    ensures
        spec_tracker_events(t) == Seq::<AxisEvent>::empty(),
{
}

impl Joycons {
    /// One translator pass: reads every tracker's mailbox (leaving the
    /// contents in place) and returns the axis events of the most
    /// recent reports, exactly as [`spec_axis_events`] maps them.
    pub fn translate(&self) -> (events: Vec<AxisEvent>)
        ensures
            events@ == spec_all_events(self.trackers@),
    {
        let mut events: Vec<AxisEvent> = Vec::new();
        proof {
            assert(self.trackers@.take(0) =~= Seq::<Tracker>::empty());
        }
        let mut i: usize = 0;
        while i < self.trackers.len()
            invariant
                i <= self.trackers@.len(),
                events@ == spec_all_events(self.trackers@.take(i as int)),
            decreases self.trackers@.len() - i,
        {
            let ghost evs0 = events@;
            let tr = &self.trackers[i];
            match tr.last_report.read() {
                Some(report) => {
                    match tr.info.which {
                        WhichController::LeftJoyCon => {
                            events.push(
                                AxisEvent {
                                    gamepad: tr.gamepad,
                                    axis: GamepadAxis::LeftStickX,
                                    value: -(report.left_stick.y as i64),
                                },
                            );
                            events.push(
                                AxisEvent {
                                    gamepad: tr.gamepad,
                                    axis: GamepadAxis::LeftStickY,
                                    value: report.left_stick.x as i64,
                                },
                            );
                        },
                        WhichController::RightJoyCon => {
                            events.push(
                                AxisEvent {
                                    gamepad: tr.gamepad,
                                    axis: GamepadAxis::LeftStickX,
                                    value: report.right_stick.y as i64,
                                },
                            );
                            events.push(
                                AxisEvent {
                                    gamepad: tr.gamepad,
                                    axis: GamepadAxis::LeftStickY,
                                    value: -(report.right_stick.x as i64),
                                },
                            );
                        },
                        WhichController::ProController => {
                            events.push(
                                AxisEvent {
                                    gamepad: tr.gamepad,
                                    axis: GamepadAxis::LeftStickX,
                                    value: report.left_stick.x as i64,
                                },
                            );
                            events.push(
                                AxisEvent {
                                    gamepad: tr.gamepad,
                                    axis: GamepadAxis::LeftStickY,
                                    value: report.left_stick.y as i64,
                                },
                            );
                            events.push(
                                AxisEvent {
                                    gamepad: tr.gamepad,
                                    axis: GamepadAxis::RightStickX,
                                    value: report.right_stick.x as i64,
                                },
                            );
                            events.push(
                                AxisEvent {
                                    gamepad: tr.gamepad,
                                    axis: GamepadAxis::RightStickY,
                                    value: report.right_stick.y as i64,
                                },
                            );
                        },
                    }
                },
                None => {},
            }
            proof {
                let s = self.trackers@;
                assert(s.take(i as int + 1).drop_last() =~= s.take(i as int));
                assert(s.take(i as int + 1).last() == s[i as int]);
                assert(events@ =~= evs0 + spec_tracker_events(s[i as int]));
            }
            i += 1;
        }
        proof {
            assert(self.trackers@.take(self.trackers@.len() as int) =~= self.trackers@);
        }
        events
    }
}

} // verus!
