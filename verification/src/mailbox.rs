//! Single-slot, latest-value hand-off between a device's polling loop and
//! the translator pass. A write always overwrites any previous contents; a
//! read never blocks and returns the most recent value without removing
//! it; an empty mailbox signals that no report has arrived or that the
//! producer has failed permanently.

use vstd::prelude::*;

use crate::device::Report;

verus! {

/// The single slot. Views as `None` (empty) or `Some(report)` (holds the
/// most recently written report).
pub struct Mailbox {
    slot: Option<Report>,
}

impl View for Mailbox {
    type V = Option<Report>;

    closed spec fn view(&self) -> Option<Report> {
        self.slot
    }
}

impl Mailbox {
    /// A mailbox already holding a first report, as produced by the one
    /// synchronous read done during device initialization.
    pub fn new(first: Report) -> (m: Mailbox)
        ensures
            m@ == Some(first),
    {
        Mailbox { slot: Some(first) }
    }

    /// A mailbox with nothing in it.
    pub fn empty() -> (m: Mailbox)
        ensures
            m@ == None::<Report>,
    {
        Mailbox { slot: None }
    }

    /// Overwrites whatever the mailbox held with the new report.
    pub fn write(&mut self, report: Report)
        ensures
            final(self)@ == Some(report),
    {
        self.slot = Some(report);
    }

    /// Empties the mailbox; the producer uses this to signal that it has
    /// failed and will write no further reports.
    pub fn clear(&mut self)
        ensures
            final(self)@ == None::<Report>,
    {
        self.slot = None;
    }

    /// Returns the most recent report written, or `None` when empty; the
    /// contents are left in place, so repeated reads before the next
    /// write return the same value.
    pub fn read(&self) -> (r: Option<Report>)
        ensures
            r == self@,
    {
        self.slot
    }

    /// One step of a device's polling loop: the outcome of one blocking
    /// driver read is pushed into the mailbox. A decoded report
    /// overwrites the slot and the loop goes on; a driver failure
    /// (`None`) empties the slot and the loop terminates — `r` says
    /// whether to keep polling.
    pub fn poll_step(&mut self, outcome: Option<Report>) -> (r: bool)
        ensures
            final(self)@ == outcome,
            r == outcome is Some,
    {
        match outcome {
            Some(report) => {
                self.write(report);
                true
            },
            None => {
                self.clear();
                false
            },
        }
    }
}

} // verus!
