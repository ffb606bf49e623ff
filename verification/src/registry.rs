//! Stable-identity storage for every currently-known device and the
//! connection scanner that fills it. Devices are keyed by serial number;
//! a serial that failed initialization once is memoized as a permanent
//! failure and never retried. Each live device also gets an abstract
//! gamepad identifier from a monotonically increasing allocator.

use vstd::prelude::*;

use crate::device::{
    ConnectEvent, ControllerColor, DeviceDescriptor, GamepadId, JoyconInfo, Report, UseSPIColors,
    WhichController,
};
use crate::device::{is_joycon_device, spec_is_joycon_device};
use crate::mailbox::Mailbox;

verus! {

/// Gamepad identifiers start at a high offset to avoid colliding with
/// identifiers assigned by unrelated input backends sharing the same
/// numeric space.
pub const STARTING_GAMEPAD_ID: usize = 0x8000_0000;

/// What the registry remembers under a serial number: the position of
/// its live tracker, or the fact that initialization failed permanently.
#[derive(Clone, Copy, PartialEq, Eq, Structural, Debug)]
pub enum RegEntry {
    Live(usize),
    Failed,
}

/// The live record for one connected, successfully initialized device:
/// its immutable identity, its gamepad identifier, and the mailbox its
/// polling loop publishes reports into.
pub struct Tracker {
    pub info: JoyconInfo,
    pub gamepad: GamepadId,
    pub last_report: Mailbox,
}

/// A scanner decision to initialize one new device: the identifier
/// allocated for it and the descriptor facts its identity will carry.
pub struct PendingConnection {
    pub gamepad: GamepadId,
    pub serial_number: Vec<u8>,
    pub product_string: String,
}

/// What the scanner decides for one bus descriptor. Only `Connect` asks
/// the caller to open and initialize the device; every other variant
/// skips it, and only `Connect` followed by [`Joycons::connect_failed`]
/// or a registry entry already present prevents a later retry.
pub enum ScanDecision {
    /// Not a candidate device (wrong vendor or product identifier).
    NotJoycon,
    /// The bus reported no serial number; retried on the next pass.
    MissingSerial,
    /// The serial number already has an entry, live or failed.
    AlreadyKnown,
    /// The bus reported no display name; retried on the next pass.
    MissingName,
    /// A new serial number: attempt initialization.
    Connect(PendingConnection),
}

/// The registry of known devices, plus the identifier allocator.
pub struct Joycons {
    pub trackers: Vec<Tracker>,
    pub joycons_by_serial_number: Vec<(Vec<u8>, RegEntry)>,
    pub joycons_by_gamepad: Vec<(GamepadId, usize)>,
    pub next_gamepad_id: usize,
}

/// A live serial-number entry points at a tracker position that exists
/// and whose tracker carries that serial; a failed entry asks nothing.
pub open spec fn entry_points_ok(entry: (Vec<u8>, RegEntry), trackers: Seq<Tracker>) -> bool {
    match entry.1 {
        RegEntry::Live(t) => t < trackers.len() && trackers[t as int].info.serial_number@
            == entry.0@,
        RegEntry::Failed => true,
    }
}

/// The gamepad map records this tracker's identifier at this position.
pub open spec fn gamepad_mapped(gmap: Seq<(GamepadId, usize)>, tr: Tracker, t: int) -> bool {
    exists|m: int| 0 <= m < gmap.len() && #[trigger] gmap[m] == (tr.gamepad, t as usize)
}

/// The serial map records this tracker's serial as live at this
/// position.
pub open spec fn serial_recorded(entries: Seq<(Vec<u8>, RegEntry)>, tr: Tracker, t: int) -> bool {
    exists|k: int|
        0 <= k < entries.len() && (#[trigger] entries[k]).0@ == tr.info.serial_number@
            && entries[k].1 == RegEntry::Live(t as usize)
}

/// First entry under the given serial number, scanning from the front;
/// the well-formed registry keeps the keys unique, so this is the entry.
pub open spec fn spec_find_entry(entries: Seq<(Vec<u8>, RegEntry)>, serial: Seq<u8>) -> Option<
    RegEntry,
>
    decreases entries.len(),
{
    if entries.len() == 0 {
        None
    } else if entries[0].0@ == serial {
        Some(entries[0].1)
    } else {
        spec_find_entry(entries.drop_first(), serial)
    }
}

/// First tracker position recorded under the given gamepad identifier.
pub open spec fn spec_find_gamepad(map: Seq<(GamepadId, usize)>, g: GamepadId) -> Option<usize>
    decreases map.len(),
{
    if map.len() == 0 {
        None
    } else if map[0].0 == g {
        Some(map[0].1)
    } else {
        spec_find_gamepad(map.drop_first(), g)
    }
}

impl Joycons {
    /// The registry entry recorded under a serial number, if any.
    pub open spec fn spec_entry(self, serial: Seq<u8>) -> Option<RegEntry> {
        spec_find_entry(self.joycons_by_serial_number@, serial)
    }

    /// Whether a serial number has any entry, live or failed.
    pub open spec fn spec_has_entry(self, serial: Seq<u8>) -> bool {
        self.spec_entry(serial) is Some
    }

    /// The tracker position assigned to a gamepad identifier, if any.
    pub open spec fn spec_tracker_of_gamepad(self, g: GamepadId) -> Option<usize> {
        spec_find_gamepad(self.joycons_by_gamepad@, g)
    }

    /// Well-formedness: serial keys are unique; every live entry points
    /// at a tracker carrying that serial; the gamepad map and the
    /// trackers list index each other exactly; and every identifier in
    /// use was allocated from the counter's range, so identifiers are
    /// never reused while their tracker is alive.
    pub open spec fn wf(self) -> bool {
        let entries = self.joycons_by_serial_number@;
        let gmap = self.joycons_by_gamepad@;
        let trackers = self.trackers@;
        &&& forall|i: int, j: int|
            0 <= i < j < entries.len() ==> entries[i].0@ != entries[j].0@
        &&& forall|k: int|
            0 <= k < entries.len() ==> entry_points_ok(#[trigger] entries[k], trackers)
        &&& forall|m: int|
            0 <= m < gmap.len() ==> gmap[m].1 < trackers.len()
                && trackers[gmap[m].1 as int].gamepad == gmap[m].0
        &&& forall|m: int, n: int| 0 <= m < n < gmap.len() ==> gmap[m].0 != gmap[n].0
        &&& forall|t: int| 0 <= t < trackers.len() ==> gamepad_mapped(gmap, #[trigger] trackers[t], t)
        &&& forall|t: int|
            0 <= t < trackers.len() ==> serial_recorded(entries, #[trigger] trackers[t], t)
        &&& forall|m: int|
            0 <= m < gmap.len() ==> STARTING_GAMEPAD_ID <= (#[trigger] gmap[m]).0.id
                < self.next_gamepad_id
        &&& STARTING_GAMEPAD_ID <= self.next_gamepad_id
    }

    /// An empty registry with the allocator at its starting offset.
    pub fn new() -> (j: Joycons)
        ensures
            j.wf(),
            j.trackers@.len() == 0,
            j.joycons_by_serial_number@.len() == 0,
            j.joycons_by_gamepad@.len() == 0,
            j.next_gamepad_id == STARTING_GAMEPAD_ID,
    {
        Joycons {
            trackers: Vec::new(),
            joycons_by_serial_number: Vec::new(),
            joycons_by_gamepad: Vec::new(),
            next_gamepad_id: STARTING_GAMEPAD_ID,
        }
    }

    /// Whether a scan of this registry accepts a descriptor for
    /// initialization: a candidate device, carrying a serial number and
    /// a display name, whose serial number has no entry yet.
    pub open spec fn spec_scan_accepts(self, desc: DeviceDescriptor) -> bool {
        &&& spec_is_joycon_device(&desc)
        &&& desc.serial_number is Some
        &&& !self.spec_has_entry(desc.serial_number->0@)
        &&& desc.product_string is Some
    }

    /// A pending connection may be completed against this registry
    /// state: its serial number has no entry yet and its identifier is
    /// fresh (allocated below the counter and not assigned to any live
    /// tracker).
    pub open spec fn pending_ok(self, p: PendingConnection) -> bool {
        &&& !self.spec_has_entry(p.serial_number@)
        &&& STARTING_GAMEPAD_ID <= p.gamepad.id < self.next_gamepad_id
        &&& forall|m: int|
            0 <= m < self.joycons_by_gamepad@.len() ==> (#[trigger] self.joycons_by_gamepad@[m]).0
                != p.gamepad
    }

    /// The scanner's decision for one bus descriptor, in the order the
    /// scan applies its checks: candidate filter, serial number present,
    /// serial number not yet known, display name present. Only a new
    /// serial number on a candidate descriptor yields `Connect`, and
    /// only then is a gamepad identifier allocated (and consumed even if
    /// the initialization that follows fails, so identifiers are never
    /// reused).
    pub fn scan_next(&mut self, desc: &DeviceDescriptor) -> (r: ScanDecision)
        requires
            old(self).wf(),
            old(self).next_gamepad_id < usize::MAX,
        ensures
            final(self).wf(),
            (r is NotJoycon <==> !spec_is_joycon_device(desc)),
            (r is MissingSerial <==> spec_is_joycon_device(desc) && desc.serial_number is None),
            (r is AlreadyKnown <==> spec_is_joycon_device(desc) && desc.serial_number is Some
                && old(self).spec_has_entry(desc.serial_number->0@)),
            (r is MissingName <==> spec_is_joycon_device(desc) && desc.serial_number is Some
                && !old(self).spec_has_entry(desc.serial_number->0@) && desc.product_string
                is None),
            (r is Connect <==> old(self).spec_scan_accepts(*desc)),
            r matches ScanDecision::Connect(p) ==> {
                &&& p.gamepad.id == old(self).next_gamepad_id
                &&& p.serial_number@ == desc.serial_number->0@
                &&& p.product_string == desc.product_string->0
                &&& final(self).pending_ok(p)
            },
            final(self).trackers == old(self).trackers,
            final(self).joycons_by_serial_number == old(self).joycons_by_serial_number,
            final(self).joycons_by_gamepad == old(self).joycons_by_gamepad,
            final(self).next_gamepad_id == if r is Connect {
                old(self).next_gamepad_id + 1
            } else {
                old(self).next_gamepad_id as int
            },
    {
        if !is_joycon_device(desc) {
            return ScanDecision::NotJoycon;
        }
        let serial = match &desc.serial_number {
            Some(s) => s,
            None => { return ScanDecision::MissingSerial },
        };
        if lookup_entry(&self.joycons_by_serial_number, serial).is_some() {
            return ScanDecision::AlreadyKnown;
        }
        let name = match &desc.product_string {
            Some(n) => n,
            None => { return ScanDecision::MissingName },
        };
        let gamepad = GamepadId { id: self.next_gamepad_id };
        self.next_gamepad_id = self.next_gamepad_id + 1;
        let pending = PendingConnection {
            gamepad,
            serial_number: serial.clone(),
            product_string: name.clone(),
        };
        proof {
            assert(pending.serial_number@ =~= serial@);
        }
        ScanDecision::Connect(pending)
    }

    /// Initialization of the pending device succeeded: store its tracker
    /// with a mailbox already holding the first report, record its
    /// serial number as live, map its gamepad identifier to it, and hand
    /// back the connect notification. Every entry and tracker that was
    /// already present stays exactly as it was.
    pub fn connect_succeeded(
        &mut self,
        pending: PendingConnection,
        which: WhichController,
        color: ControllerColor,
        use_spi_colors: UseSPIColors,
        first_report: Report,
    ) -> (ev: ConnectEvent)
        requires
            old(self).wf(),
            old(self).pending_ok(pending),
        ensures
            final(self).wf(),
            ev.gamepad == pending.gamepad,
            ev.name == pending.product_string,
            final(self).trackers@.len() == old(self).trackers@.len() + 1,
            forall|i: int|
                0 <= i < old(self).trackers@.len() ==> final(self).trackers@[i] == old(
                    self,
                ).trackers@[i],
            ({
                let t = final(self).trackers@.last();
                &&& t.gamepad == pending.gamepad
                &&& t.info.serial_number@ == pending.serial_number@
                &&& t.info.product_string == pending.product_string
                &&& t.info.which == which
                &&& t.info.color == color
                &&& t.info.use_spi_colors == use_spi_colors
                &&& t.last_report@ == Some(first_report)
            }),
            final(self).spec_entry(pending.serial_number@) == Some(
                RegEntry::Live(old(self).trackers@.len() as usize),
            ),
            forall|s: Seq<u8>|
                s != pending.serial_number@ ==> final(self).spec_entry(s) == old(self).spec_entry(
                    s,
                ),
            final(self).spec_tracker_of_gamepad(pending.gamepad) == Some(
                old(self).trackers@.len() as usize,
            ),
            forall|g: GamepadId|
                g != pending.gamepad ==> final(self).spec_tracker_of_gamepad(g) == old(
                    self,
                ).spec_tracker_of_gamepad(g),
            final(self).next_gamepad_id == old(self).next_gamepad_id,
    {
        let ghost p = pending;
        let ghost old_entries = self.joycons_by_serial_number@;
        let ghost old_gmap = self.joycons_by_gamepad@;
        let ghost old_trackers = self.trackers@;
        let n = self.trackers.len();
        let serial_key = pending.serial_number.clone();
        let event_name = pending.product_string.clone();
        let info = JoyconInfo {
            product_string: pending.product_string,
            serial_number: pending.serial_number,
            which,
            color,
            use_spi_colors,
        };
        let tracker = Tracker {
            info,
            gamepad: pending.gamepad,
            last_report: Mailbox::new(first_report),
        };
        self.trackers.push(tracker);
        self.joycons_by_serial_number.push((serial_key, RegEntry::Live(n)));
        self.joycons_by_gamepad.push((pending.gamepad, n));
        proof {
            let g = p.gamepad;
            let new_entries = self.joycons_by_serial_number@;
            let new_gmap = self.joycons_by_gamepad@;
            let new_trackers = self.trackers@;
            let kv = new_entries.last();
            assert(kv.0@ =~= p.serial_number@);
            assert(new_entries == old_entries.push(kv));
            assert(new_trackers.last().info.serial_number@ == p.serial_number@);

            // The serial map: the new key was absent, every other find is
            // untouched.
            lemma_find_entry_characterization(old_entries, p.serial_number@);
            lemma_find_entry_push(old_entries, kv, p.serial_number@);
            assert forall|s: Seq<u8>|
                s != p.serial_number@ implies spec_find_entry(new_entries, s) == spec_find_entry(
                old_entries,
                s,
            ) by {
                lemma_find_entry_push(old_entries, kv, s);
            }

            // The gamepad map: the identifier was unmapped, every other
            // find is untouched.
            lemma_find_gamepad_characterization(old_gmap, g);
            assert(spec_find_gamepad(old_gmap, g) is None);
            lemma_find_gamepad_push(old_gmap, (g, n), g);
            assert forall|h: GamepadId|
                h != g implies spec_find_gamepad(new_gmap, h) == spec_find_gamepad(
                old_gmap,
                h,
            ) by {
                lemma_find_gamepad_push(old_gmap, (g, n), h);
            }

            // Well-formedness carries over entry by entry; the appended
            // tracker, serial entry and gamepad pair witness each other.
            assert forall|k: int|
                0 <= k < new_entries.len() implies entry_points_ok(
                #[trigger] new_entries[k],
                new_trackers,
            ) by {
                if k < old_entries.len() {
                    assert(new_entries[k] == old_entries[k]);
                    assert(entry_points_ok(old_entries[k], old_trackers));
                    match old_entries[k].1 {
                        RegEntry::Live(t0) => {
                            assert(new_trackers[t0 as int] == old_trackers[t0 as int]);
                        },
                        RegEntry::Failed => {},
                    }
                }
            }
            assert forall|t: int|
                0 <= t < new_trackers.len() implies serial_recorded(
                new_entries,
                #[trigger] new_trackers[t],
                t,
            ) by {
                if t < old_trackers.len() {
                    assert(new_trackers[t] == old_trackers[t]);
                    assert(serial_recorded(old_entries, old_trackers[t], t));
                    let k = choose|k: int|
                        0 <= k < old_entries.len() && (#[trigger] old_entries[k]).0@
                            == old_trackers[t].info.serial_number@ && old_entries[k].1
                            == RegEntry::Live(t as usize);
                    assert((new_entries[k]).0@ == new_trackers[t].info.serial_number@);
                } else {
                    let k = old_entries.len() as int;
                    assert((new_entries[k]).0@ == new_trackers[t].info.serial_number@
                        && new_entries[k].1 == RegEntry::Live(t as usize));
                }
            }
            assert forall|t: int|
                0 <= t < new_trackers.len() implies gamepad_mapped(
                new_gmap,
                #[trigger] new_trackers[t],
                t,
            ) by {
                if t < old_trackers.len() {
                    assert(new_trackers[t] == old_trackers[t]);
                    assert(gamepad_mapped(old_gmap, old_trackers[t], t));
                    let m = choose|m: int|
                        0 <= m < old_gmap.len() && #[trigger] old_gmap[m] == (
                            old_trackers[t].gamepad,
                            t as usize,
                        );
                    assert(new_gmap[m] == (new_trackers[t].gamepad, t as usize));
                } else {
                    let m = old_gmap.len() as int;
                    assert(new_gmap[m] == (new_trackers[t].gamepad, t as usize));
                }
            }
        }
        ConnectEvent { gamepad: pending.gamepad, name: event_name }
    }

    /// Initialization of the pending device failed: memoize a permanent
    /// failure under its serial number, so that no later scan attempts
    /// it again. The allocated identifier is simply discarded. Every
    /// other entry, every tracker and the allocator stay as they were.
    pub fn connect_failed(&mut self, pending: PendingConnection)
        requires
            old(self).wf(),
            old(self).pending_ok(pending),
        ensures
            final(self).wf(),
            final(self).spec_entry(pending.serial_number@) == Some(RegEntry::Failed),
            forall|s: Seq<u8>|
                s != pending.serial_number@ ==> final(self).spec_entry(s) == old(self).spec_entry(
                    s,
                ),
            final(self).trackers == old(self).trackers,
            final(self).joycons_by_gamepad == old(self).joycons_by_gamepad,
            final(self).next_gamepad_id == old(self).next_gamepad_id,
    {
        let ghost old_entries = self.joycons_by_serial_number@;
        let ghost kv = (pending.serial_number, RegEntry::Failed);
        let ghost trackers = self.trackers@;
        self.joycons_by_serial_number.push((pending.serial_number, RegEntry::Failed));
        proof {
            let new_entries = self.joycons_by_serial_number@;
            assert(new_entries == old_entries.push(kv));
            lemma_find_entry_characterization(old_entries, kv.0@);
            lemma_find_entry_push(old_entries, kv, kv.0@);
            assert forall|s: Seq<u8>|
                s != kv.0@ implies spec_find_entry(new_entries, s) == spec_find_entry(
                old_entries,
                s,
            ) by {
                lemma_find_entry_push(old_entries, kv, s);
            }
            assert forall|k: int|
                0 <= k < new_entries.len() implies entry_points_ok(
                #[trigger] new_entries[k],
                trackers,
            ) by {
                if k < old_entries.len() {
                    assert(new_entries[k] == old_entries[k]);
                    assert(entry_points_ok(old_entries[k], trackers));
                }
            }
            assert forall|t: int|
                0 <= t < trackers.len() implies serial_recorded(
                new_entries,
                #[trigger] trackers[t],
                t,
            ) by {
                assert(serial_recorded(old_entries, trackers[t], t));
                let k = choose|k: int|
                    0 <= k < old_entries.len() && (#[trigger] old_entries[k]).0@
                        == trackers[t].info.serial_number@ && old_entries[k].1 == RegEntry::Live(
                        t as usize,
                    );
                assert((new_entries[k]).0@ == trackers[t].info.serial_number@);
            }
        }
    }

    /// A polling loop's latest outcome reaches the registry: the tracker
    /// under this gamepad identifier gets its mailbox overwritten with
    /// the report (`Some`) or emptied after a driver failure (`None`).
    /// Nothing else — not the tracker's identity, not any map entry —
    /// changes; an unknown identifier changes nothing at all.
    pub fn publish(&mut self, gamepad: GamepadId, outcome: Option<Report>)
        requires
            old(self).wf(),
        ensures
            final(self).wf(),
            final(self).joycons_by_serial_number == old(self).joycons_by_serial_number,
            final(self).joycons_by_gamepad == old(self).joycons_by_gamepad,
            final(self).next_gamepad_id == old(self).next_gamepad_id,
            match old(self).spec_tracker_of_gamepad(gamepad) {
                Some(t) => {
                    &&& final(self).trackers@.len() == old(self).trackers@.len()
                    &&& forall|i: int|
                        0 <= i < old(self).trackers@.len() && i != t ==> final(self).trackers@[i]
                            == old(self).trackers@[i]
                    &&& final(self).trackers@[t as int].info == old(self).trackers@[t as int].info
                    &&& final(self).trackers@[t as int].gamepad
                        == old(self).trackers@[t as int].gamepad
                    &&& final(self).trackers@[t as int].last_report@ == outcome
                },
                None => final(self).trackers == old(self).trackers,
            },
    {
        proof {
            lemma_find_gamepad_characterization(self.joycons_by_gamepad@, gamepad);
        }
        let ghost old_trackers = self.trackers@;
        let ghost entries = self.joycons_by_serial_number@;
        let ghost gmap = self.joycons_by_gamepad@;
        match lookup_gamepad(&self.joycons_by_gamepad, gamepad) {
            Some(t) => {
                match outcome {
                    Some(report) => {
                        self.trackers[t].last_report = Mailbox::new(report);
                    },
                    None => {
                        self.trackers[t].last_report = Mailbox::empty();
                    },
                }
                proof {
                    let new_trackers = self.trackers@;
                    assert forall|k: int|
                        0 <= k < entries.len() implies entry_points_ok(
                        #[trigger] entries[k],
                        new_trackers,
                    ) by {
                        assert(entry_points_ok(entries[k], old_trackers));
                        match entries[k].1 {
                            RegEntry::Live(t0) => {
                                assert(new_trackers[t0 as int].info
                                    == old_trackers[t0 as int].info);
                            },
                            RegEntry::Failed => {},
                        }
                    }
                    assert forall|i: int|
                        0 <= i < new_trackers.len() implies serial_recorded(
                        entries,
                        #[trigger] new_trackers[i],
                        i,
                    ) by {
                        assert(serial_recorded(entries, old_trackers[i], i));
                        assert(new_trackers[i].info == old_trackers[i].info);
                    }
                    assert forall|i: int|
                        0 <= i < new_trackers.len() implies gamepad_mapped(
                        gmap,
                        #[trigger] new_trackers[i],
                        i,
                    ) by {
                        assert(gamepad_mapped(gmap, old_trackers[i], i));
                        assert(new_trackers[i].gamepad == old_trackers[i].gamepad);
                    }
                }
            },
            None => {},
        }
    }

    /// The identity of the device behind a gamepad identifier, if one is
    /// live under it.
    pub fn get_info(&self, gamepad: GamepadId) -> (r: Option<&JoyconInfo>)
        requires
            self.wf(),
        ensures
            match self.spec_tracker_of_gamepad(gamepad) {
                Some(t) => r matches Some(info) && *info == self.trackers@[t as int].info,
                None => r is None,
            },
    {
        proof {
            lemma_find_gamepad_characterization(self.joycons_by_gamepad@, gamepad);
        }
        match lookup_gamepad(&self.joycons_by_gamepad, gamepad) {
            Some(t) => Some(&self.trackers[t].info),
            None => None,
        }
    }
}

/// What a find over the serial map means position by position: a hit is
/// recorded somewhere, a miss means no position carries the key.
pub proof fn lemma_find_entry_characterization(entries: Seq<(Vec<u8>, RegEntry)>, s: Seq<u8>)
    ensures
        match spec_find_entry(entries, s) {
            Some(e) => exists|k: int|
                0 <= k < entries.len() && (#[trigger] entries[k]).0@ == s && entries[k].1 == e,
            None => forall|k: int| 0 <= k < entries.len() ==> (#[trigger] entries[k]).0@ != s,
        },
    decreases entries.len(),
{
    let rest = entries.drop_first();
    if entries.len() > 0 && entries[0].0@ == s {
        assert((#[trigger] entries[0]).0@ == s && entries[0].1 == entries[0].1);
    } else if entries.len() > 0 {
        lemma_find_entry_characterization(rest, s);
        match spec_find_entry(rest, s) {
            Some(e) => {
                let k = choose|k: int|
                    0 <= k < rest.len() && (#[trigger] rest[k]).0@ == s && rest[k].1 == e;
                assert(rest[k] == entries[k + 1]);
                assert((#[trigger] entries[k + 1]).0@ == s && entries[k + 1].1 == e);
            },
            None => {
                assert forall|k: int|
                    0 <= k < entries.len() implies (#[trigger] entries[k]).0@ != s by {
                    if k > 0 {
                        assert(rest[k - 1] == entries[k]);
                    }
                }
            },
        }
    }
}

/// What a find over the gamepad map means position by position.
pub proof fn lemma_find_gamepad_characterization(map: Seq<(GamepadId, usize)>, g: GamepadId)
    ensures
        match spec_find_gamepad(map, g) {
            Some(t) => exists|m: int| 0 <= m < map.len() && #[trigger] map[m] == (g, t),
            None => forall|m: int| 0 <= m < map.len() ==> (#[trigger] map[m]).0 != g,
        },
    decreases map.len(),
{
    let rest = map.drop_first();
    if map.len() > 0 {
        if map[0].0 == g {
            assert(#[trigger] map[0] == (g, map[0].1));
        } else {
            lemma_find_gamepad_characterization(rest, g);
            match spec_find_gamepad(rest, g) {
                Some(t) => {
                    let m = choose|m: int| 0 <= m < rest.len() && #[trigger] rest[m] == (g, t);
                    assert(rest[m] == map[m + 1]);
                    assert(#[trigger] map[m + 1] == (g, t));
                },
                None => {
                    assert forall|m: int|
                        0 <= m < map.len() implies (#[trigger] map[m]).0 != g by {
                        if m > 0 {
                            assert(rest[m - 1] == map[m]);
                        }
                    }
                },
            }
        }
    }
}

/// Appending an entry never disturbs a find for a key that already had
/// one, and serves the new key only when it had none.
pub proof fn lemma_find_entry_push(
    entries: Seq<(Vec<u8>, RegEntry)>,
    kv: (Vec<u8>, RegEntry),
    s: Seq<u8>,
)
    ensures
        spec_find_entry(entries.push(kv), s) == if spec_find_entry(entries, s) is Some {
            spec_find_entry(entries, s)
        } else if kv.0@ == s {
            Some(kv.1)
        } else {
            None::<RegEntry>
        },
    decreases entries.len(),
{
    if entries.len() == 0 {
        assert(entries.push(kv)[0] == kv);
        assert(entries.push(kv).drop_first() =~= Seq::<(Vec<u8>, RegEntry)>::empty());
        assert(spec_find_entry(Seq::<(Vec<u8>, RegEntry)>::empty(), s) is None);
        if kv.0@ == s {
            assert(spec_find_entry(entries.push(kv), s) == Some(kv.1));
        } else {
            assert(spec_find_entry(entries.push(kv), s) is None);
        }
    } else {
        assert(entries.push(kv)[0] == entries[0]);
        assert(entries.push(kv).drop_first() =~= entries.drop_first().push(kv));
        lemma_find_entry_push(entries.drop_first(), kv, s);
        if entries[0].0@ == s {
            assert(spec_find_entry(entries.push(kv), s) == Some(entries[0].1));
            assert(spec_find_entry(entries, s) == Some(entries[0].1));
        }
    }
}

/// Appending a gamepad-map pair never disturbs a find for an identifier
/// that was already mapped, and serves the new one only when it was not.
pub proof fn lemma_find_gamepad_push(
    map: Seq<(GamepadId, usize)>,
    kv: (GamepadId, usize),
    g: GamepadId,
)
    ensures
        spec_find_gamepad(map.push(kv), g) == if spec_find_gamepad(map, g) is Some {
            spec_find_gamepad(map, g)
        } else if kv.0 == g {
            Some(kv.1)
        } else {
            None::<usize>
        },
    decreases map.len(),
{
    if map.len() == 0 {
        assert(map.push(kv)[0] == kv);
        assert(map.push(kv).drop_first() =~= Seq::<(GamepadId, usize)>::empty());
        assert(spec_find_gamepad(Seq::<(GamepadId, usize)>::empty(), g) is None);
        if kv.0 == g {
            assert(spec_find_gamepad(map.push(kv), g) == Some(kv.1));
        } else {
            assert(spec_find_gamepad(map.push(kv), g) is None);
        }
    } else {
        assert(map.push(kv)[0] == map[0]);
        assert(map.push(kv).drop_first() =~= map.drop_first().push(kv));
        lemma_find_gamepad_push(map.drop_first(), kv, g);
        if map[0].0 == g {
            assert(spec_find_gamepad(map.push(kv), g) == Some(map[0].1));
            assert(spec_find_gamepad(map, g) == Some(map[0].1));
        }
    }
}

/// For all sequences of bus scans: a serial number that already has a
/// registry entry — a live tracker or a memoized failure — is never
/// re-initialized, because no scan of such a registry accepts a
/// descriptor carrying that serial number. Together with the scanner's
/// and the completion methods' guarantees that existing entries are
/// never removed or changed, an entry once made shields its serial
/// number from every later initialization attempt.
pub proof fn lemma_known_serial_never_reinitialized(j: Joycons, desc: DeviceDescriptor)
    requires
        desc.serial_number is Some,
        j.spec_has_entry(desc.serial_number->0@),
    ensures
        !j.spec_scan_accepts(desc),
{
}

/// A well-formed registry never holds two trackers for one serial
/// number: each physical device has at most one live tracker, and so at
/// most one polling loop feeding it.
pub proof fn lemma_one_tracker_per_serial(j: Joycons, t1: usize, t2: usize)
    requires
        j.wf(),
        t1 < j.trackers@.len(),
        t2 < j.trackers@.len(),
        j.trackers@[t1 as int].info.serial_number@ == j.trackers@[t2 as int].info.serial_number@,
    ensures
        t1 == t2,
{
    let entries = j.joycons_by_serial_number@;
    assert(serial_recorded(entries, j.trackers@[t1 as int], t1 as int));
    assert(serial_recorded(entries, j.trackers@[t2 as int], t2 as int));
    let k1 = choose|k: int|
        0 <= k < entries.len() && (#[trigger] entries[k]).0@
            == j.trackers@[t1 as int].info.serial_number@ && entries[k].1 == RegEntry::Live(t1);
    let k2 = choose|k: int|
        0 <= k < entries.len() && (#[trigger] entries[k]).0@
            == j.trackers@[t2 as int].info.serial_number@ && entries[k].1 == RegEntry::Live(t2);
    assert(0 <= k1 < entries.len() && entries[k1].1 == RegEntry::Live(t1));
    assert(0 <= k2 < entries.len() && entries[k2].1 == RegEntry::Live(t2));
    if k1 != k2 {
        assert(entries[k1].0@ != entries[k2].0@);
    }
}

/// A well-formed registry never assigns one gamepad identifier to two
/// trackers: identifiers stay unambiguous for the consumer.
pub proof fn lemma_one_tracker_per_gamepad(j: Joycons, t1: usize, t2: usize)
    requires
        j.wf(),
        t1 < j.trackers@.len(),
        t2 < j.trackers@.len(),
        j.trackers@[t1 as int].gamepad == j.trackers@[t2 as int].gamepad,
    ensures
        t1 == t2,
{
    let gmap = j.joycons_by_gamepad@;
    assert(gamepad_mapped(gmap, j.trackers@[t1 as int], t1 as int));
    assert(gamepad_mapped(gmap, j.trackers@[t2 as int], t2 as int));
    let m1 = choose|m: int|
        0 <= m < gmap.len() && #[trigger] gmap[m] == (j.trackers@[t1 as int].gamepad, t1);
    let m2 = choose|m: int|
        0 <= m < gmap.len() && #[trigger] gmap[m] == (j.trackers@[t2 as int].gamepad, t2);
    assert(0 <= m1 < gmap.len() && gmap[m1] == (j.trackers@[t1 as int].gamepad, t1));
    assert(0 <= m2 < gmap.len() && gmap[m2] == (j.trackers@[t2 as int].gamepad, t2));
    if m1 != m2 {
        assert(gmap[m1].0 != gmap[m2].0);
    }
}

/// Whether two byte strings hold the same bytes.
fn bytes_eq(a: &Vec<u8>, b: &Vec<u8>) -> (r: bool)
    ensures
        r == (a@ == b@),
{
    if a.len() != b.len() {
        return false;
    }
    let mut i: usize = 0;
    while i < a.len()
        invariant
            i <= a@.len(),
            a@.len() == b@.len(),
            forall|j: int| 0 <= j < i ==> a@[j] == b@[j],
        decreases a@.len() - i,
    {
        if a[i] != b[i] {
            return false;
        }
        i += 1;
    }
    proof {
        assert(a@ =~= b@);
    }
    true
}

/// The first entry under the given serial number, as
/// [`spec_find_entry`] describes.
fn lookup_entry(entries: &Vec<(Vec<u8>, RegEntry)>, serial: &Vec<u8>) -> (r: Option<RegEntry>)
    ensures
        r == spec_find_entry(entries@, serial@),
{
    proof {
        assert(entries@.skip(0) =~= entries@);
    }
    let mut i: usize = 0;
    while i < entries.len()
        invariant
            i <= entries@.len(),
            spec_find_entry(entries@, serial@) == spec_find_entry(
                entries@.skip(i as int),
                serial@,
            ),
        decreases entries@.len() - i,
    {
        if bytes_eq(&entries[i].0, serial) {
            return Some(entries[i].1);
        }
        proof {
            assert(entries@.skip(i as int).drop_first() =~= entries@.skip(i as int + 1));
        }
        i += 1;
    }
    proof {
        assert(entries@.skip(entries@.len() as int) =~= Seq::<(Vec<u8>, RegEntry)>::empty());
    }
    None
}

/// The first tracker position under the given gamepad identifier, as
/// [`spec_find_gamepad`] describes.
fn lookup_gamepad(map: &Vec<(GamepadId, usize)>, g: GamepadId) -> (r: Option<usize>)
    ensures
        r == spec_find_gamepad(map@, g),
{
    proof {
        assert(map@.skip(0) =~= map@);
    }
    let mut i: usize = 0;
    while i < map.len()
        invariant
            i <= map@.len(),
            spec_find_gamepad(map@, g) == spec_find_gamepad(map@.skip(i as int), g),
        decreases map@.len() - i,
    {
        if map[i].0.id == g.id {
            return Some(map[i].1);
        }
        proof {
            assert(map@.skip(i as int).drop_first() =~= map@.skip(i as int + 1));
        }
        i += 1;
    }
    proof {
        assert(map@.skip(map@.len() as int) =~= Seq::<(GamepadId, usize)>::empty());
    }
    None
}

} // verus!
