//! Progress-reporting state for a single scan.
//!
//! The record keeps the lifecycle state of its progress indicator (how many
//! requests it was sized to, and whether it has been finished) as plain data;
//! the terminal rendering of that state lives outside the library.

use vstd::prelude::*;

verus! {

/// The progress indicator attached to one scan: sized to the number of
/// requests the scan is expected to make, and finished exactly once the
/// scan stops reporting.
#[derive(Clone, Copy, Debug)]
pub struct ProgressBar {
    /// Total request count the indicator was sized to at creation.
    pub length: u64,
    /// Whether the indicator has been finished (no further updates shown).
    pub finished: bool,
}

impl ProgressBar {
    /// A fresh indicator sized to `length` requests; not yet finished.
    pub fn new(length: u64) -> (r: Self)
        ensures
            r.length == length,
            !r.finished,
    {
        ProgressBar { length, finished: false }
    }

    /// Finish the indicator. Safe to call on an already-finished one.
    pub fn finish(&mut self)
        ensures
            final(self).finished,
            final(self).length == old(self).length,
    {
        self.finished = true;
    }

    /// Whether the indicator has been finished.
    pub fn is_finished(&self) -> (r: bool)
        ensures
            r == self.finished,
    {
        self.finished
    }
}

/// Handle to the cancellable background task performing a scan. The record
/// holds the cancellation decision as data; whoever owns the task's execution
/// context observes `cancelled` and halts the in-flight work.
#[derive(Clone, Copy, Debug)]
pub struct TaskHandle {
    /// Whether cancellation of the background task has been requested.
    pub cancelled: bool,
}

impl TaskHandle {
    /// A handle for a task that has not been asked to stop.
    pub fn new() -> (r: Self)
        ensures
            !r.cancelled,
    {
        TaskHandle { cancelled: false }
    }

    /// Request cancellation of the background task.
    pub fn cancel(&mut self)
        ensures
            final(self).cancelled,
    {
        self.cancelled = true;
    }
}

} // verus!
