//! The decisions of the supervisory loop that keeps a connection alive: when
//! to connect again, how long to wait first, and when to stop.

use vstd::prelude::*;

use crate::backoff::{next_delay, Backoff};

verus! {

/// First delay after a failed attempt, in milliseconds.
pub const INITIAL_DELAY_MS: u64 = 1000;

/// Largest delay between attempts, in milliseconds.
pub const MAX_DELAY_MS: u64 = 30000;

/// What the loop does next.
#[derive(Debug, Clone, Copy, PartialEq, Eq, Structural)]
pub enum SupervisorCommand {
    /// Open a driver and run it until it ends.
    Connect,
    /// Wait this long, unless a stop comes first.
    Wait { delay_ms: u64 },
    /// Leave the loop.
    Exit,
}

/// How a wait ended.
#[derive(Debug, Clone, Copy, PartialEq, Eq, Structural)]
pub enum WaitOutcome {
    /// The delay passed.
    Elapsed,
    /// `disconnect` was called.
    Drained,
    /// The client that made the connection shut down.
    Shutdown,
}

pub struct SupervisorModel {
    pub delay: int,
    pub exited: bool,
}

/// An attempt ended. A stop ends the loop; an attempt that saw Init connects
/// again at once with the delay reset; one that did not waits the current
/// delay, which then doubles up to the cap.
pub open spec fn attempt_model(s: SupervisorModel, did_open: bool, draining: bool) -> (
    SupervisorModel,
    SupervisorCommand,
) {
    if s.exited || draining {
        (SupervisorModel { exited: true, ..s }, SupervisorCommand::Exit)
    } else if did_open {
        (SupervisorModel { delay: INITIAL_DELAY_MS as int, ..s }, SupervisorCommand::Connect)
    } else {
        (
            SupervisorModel { delay: next_delay(s.delay, MAX_DELAY_MS as int), ..s },
            SupervisorCommand::Wait { delay_ms: s.delay as u64 },
        )
    }
}

/// A wait ended: connect again after the delay, stop otherwise.
pub open spec fn wait_model(s: SupervisorModel, outcome: WaitOutcome) -> (SupervisorModel, SupervisorCommand) {
    if s.exited || !(outcome is Elapsed) {
        (SupervisorModel { exited: true, ..s }, SupervisorCommand::Exit)
    } else {
        (s, SupervisorCommand::Connect)
    }
}

pub open spec fn supervisor_model_wf(s: SupervisorModel) -> bool {
    INITIAL_DELAY_MS <= s.delay <= MAX_DELAY_MS
}

pub struct Supervisor {
    backoff: Backoff,
    exited: bool,
}

impl View for Supervisor {
    type V = SupervisorModel;

    closed spec fn view(&self) -> SupervisorModel {
        SupervisorModel { delay: self.backoff.spec_delay(), exited: self.exited }
    }
}

impl Supervisor {
    pub closed spec fn wf(&self) -> bool {
        &&& supervisor_model_wf(self@)
        &&& self.backoff.spec_max_delay() == MAX_DELAY_MS
    }

    /// A fresh loop: its first command is to connect.
    pub fn new() -> (r: (Supervisor, SupervisorCommand))
        ensures
            r.0.wf(),
            r.0@ == (SupervisorModel { delay: INITIAL_DELAY_MS as int, exited: false }),
            r.1 == SupervisorCommand::Connect,
    {
        (
            Supervisor { backoff: Backoff::new(INITIAL_DELAY_MS, MAX_DELAY_MS), exited: false },
            SupervisorCommand::Connect,
        )
    }

    /// The delay the next failed attempt waits.
    pub fn delay(&self) -> (r: u64)
        ensures
            r == self@.delay,
    {
        self.backoff.delay()
    }

    pub fn attempt_ended(&mut self, did_open: bool, draining: bool) -> (r: SupervisorCommand)
        requires
            old(self).wf(),
        ensures
            final(self).wf(),
            (final(self)@, r) == attempt_model(old(self)@, did_open, draining),
    {
        if self.exited || draining {
            self.exited = true;
            SupervisorCommand::Exit
        } else if did_open {
            self.backoff = Backoff::new(INITIAL_DELAY_MS, MAX_DELAY_MS);
            SupervisorCommand::Connect
        } else {
            let delay_ms = self.backoff.tick();
            SupervisorCommand::Wait { delay_ms }
        }
    }

    pub fn wait_ended(&mut self, outcome: WaitOutcome) -> (r: SupervisorCommand)
        requires
            old(self).wf(),
        ensures
            final(self).wf(),
            (final(self)@, r) == wait_model(old(self)@, outcome),
    {
        match outcome {
            WaitOutcome::Elapsed => {
                if self.exited {
                    SupervisorCommand::Exit
                } else {
                    SupervisorCommand::Connect
                }
            },
            _ => {
                self.exited = true;
                SupervisorCommand::Exit
            },
        }
    }
}

/// Within a run of attempts that never see Init, each wait is at least as long
/// as the one before and at most the cap; after an attempt that sees Init the
/// next failed attempt waits the initial delay again.
pub proof fn lemma_backoff_streak(s: SupervisorModel)
    requires
        supervisor_model_wf(s),
        !s.exited,
    ensures
        ({
            let (s1, c1) = attempt_model(s, false, false);
            let (s2, c2) = attempt_model(wait_model(s1, WaitOutcome::Elapsed).0, false, false);
            &&& c1 == SupervisorCommand::Wait { delay_ms: s.delay as u64 }
            &&& c2 == SupervisorCommand::Wait { delay_ms: s1.delay as u64 }
            &&& s.delay <= s1.delay <= MAX_DELAY_MS
            &&& supervisor_model_wf(s1)
        }),
        ({
            let (s1, c1) = attempt_model(s, true, false);
            &&& c1 == SupervisorCommand::Connect
            &&& attempt_model(s1, false, false).1 == SupervisorCommand::Wait { delay_ms: INITIAL_DELAY_MS }
        }),
{
}

} // verus!
