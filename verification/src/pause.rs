//! The pause/resume control protocol.
//!
//! One process-wide flag tells every worker whether to pause; a barrier
//! counter picks exactly one "leader" among concurrently-pausing callers to
//! do the one-time interactive work; a shared spinner shows that all scans
//! are paused. The controller holds that state and makes the protocol's
//! decisions; the caller that owns the scheduler runs the poll loop itself,
//! sleeping one interval between polls, performing the interactive work and
//! the spinner drawing that each decision calls for.

use vstd::prelude::*;

verus! {

/// Milliseconds between two polls of the pause flag: coarse enough to keep
/// the busy wait cheap, fine enough to resume promptly.
pub const SLEEP_DURATION: u64 = 500;

/// The shared pause state: the flag workers poll, the leader-election
/// barrier, and the lifecycle of the "all scans paused" spinner.
#[derive(Clone, Copy, Debug)]
pub struct PauseController {
    /// Whether scans should pause. Flipped by an external controller (a
    /// signal handler or an interactive command); workers only read it.
    pub paused: bool,
    /// Counts the leader: zero when no caller has entered the paused
    /// region, one once the first caller has claimed the interactive work.
    pub barrier: u64,
    /// Whether the shared pause spinner is shown and ticking. Cleared on
    /// resume so no draw artifacts stay behind in the terminal.
    pub spinner_active: bool,
}

impl PauseController {
    /// A controller in the running state: not paused, no leader elected,
    /// no spinner shown.
    pub fn new() -> (r: Self)
        ensures
            !r.paused,
            r.barrier == 0,
            !r.spinner_active,
    {
        PauseController { paused: false, barrier: 0, spinner_active: false }
    }

    /// Flip the pause flag. Setting it true moves every polling worker
    /// into the paused region; setting it false releases all of them.
    pub fn set_paused(&mut self, paused: bool)
        ensures
            final(self).paused == paused,
            final(self).barrier == old(self).barrier,
            final(self).spinner_active == old(self).spinner_active,
    {
        self.paused = paused;
    }

    /// A caller enters the paused region.
    ///
    /// The first caller to arrive (barrier still zero) becomes the leader
    /// and claims the barrier; the result says whether that caller should
    /// do the one-time interactive work (display the active scans and read
    /// a line of operator input) — only the leader, and only when asked
    /// for. The shared spinner is left fresh and ticking, recreated if a
    /// previous pause had finished and cleared it.
    pub fn pause_enter(&mut self, get_user_input: bool) -> (interact: bool)
        ensures
            interact == (old(self).barrier == 0 && get_user_input),
            final(self).barrier == (if old(self).barrier == 0 {
                1u64
            } else {
                old(self).barrier
            }),
            final(self).paused == old(self).paused,
            final(self).spinner_active,
    {
        let mut interact = false;
        if self.barrier == 0 {
            self.barrier = 1;
            if get_user_input {
                interact = true;
            }
        }
        self.spinner_active = true;
        interact
    }

    /// One round of the busy-poll loop a paused caller runs each interval.
    ///
    /// Returns whether the caller may leave the paused region, which it
    /// does exactly when the pause flag has been cleared — never before.
    /// On leaving, the leader hands the barrier back and the spinner is
    /// finished and cleared; while the flag still holds, nothing changes.
    pub fn pause_poll(&mut self) -> (leave: bool)
        ensures
            leave == !old(self).paused,
            old(self).paused ==> *final(self) == *old(self),
            !old(self).paused ==> *final(self) == (PauseController {
                barrier: if old(self).barrier == 1 {
                    0u64
                } else {
                    old(self).barrier
                },
                spinner_active: false,
                ..*old(self)
            }),
    {
        if !self.paused {
            if self.barrier == 1 {
                self.barrier = 0;
            }
            self.spinner_active = false;
            true
        } else {
            false
        }
    }
}

} // verus!
