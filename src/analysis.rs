//! The analysis loop as a state machine: the caller performs the work that
//! belongs to the current phase and reports what happened.
use vstd::prelude::*;

verus! {

/// Where the analysis loop stands.
#[derive(Debug, Clone, Copy, PartialEq, Eq, Structural)]
pub enum Phase {
    /// Not started.
    Idle,
    /// Waiting for the source to deliver a whole frame.
    Filling,
    /// A whole frame is available and the spectrum is being computed.
    Transforming,
    /// A spectrum is being handed to the presentation layer.
    Emitting,
    /// Suspended between cycles by a control signal.
    Paused,
    /// Shut down; nothing more happens.
    Terminated,
}

/// What the caller reports back to the loop.
#[derive(Debug, Clone, Copy, PartialEq, Eq, Structural)]
pub enum Event {
    Start,
    FrameFilled,
    FillFailed,
    SpectrumReady,
    Emitted,
    PauseToggled,
    Shutdown,
}

/// The loop's phase, with the number of failed fills in a row and how many
/// of them are retried before the loop gives up.
#[derive(Debug, Clone, Copy, PartialEq, Eq, Structural)]
pub struct AnalysisLoop {
    pub phase: Phase,
    pub failed_fills: u32,
    pub max_retries: u32,
}

/// The state after `event` in state `s`. Shutdown ends the loop from any
/// phase; a failed fill is retried while fewer than `max_retries` failures
/// have been seen in a row, and ends the loop otherwise; pausing and resuming
/// happen between cycles; an event that does not belong to the current phase
/// changes nothing.
pub open spec fn next_state(s: AnalysisLoop, event: Event) -> AnalysisLoop {
    match (s.phase, event) {
        (Phase::Terminated, _) => s,
        (_, Event::Shutdown) => AnalysisLoop { phase: Phase::Terminated, ..s },
        (Phase::Idle, Event::Start) => AnalysisLoop { phase: Phase::Filling, ..s },
        (Phase::Filling, Event::FrameFilled) => AnalysisLoop {
            phase: Phase::Transforming,
            failed_fills: 0,
            ..s
        },
        (Phase::Filling, Event::FillFailed) => if s.failed_fills < s.max_retries {
            AnalysisLoop { failed_fills: (s.failed_fills + 1) as u32, ..s }
        } else {
            AnalysisLoop { phase: Phase::Terminated, ..s }
        },
        (Phase::Transforming, Event::SpectrumReady) => AnalysisLoop { phase: Phase::Emitting, ..s },
        (Phase::Emitting, Event::Emitted) => AnalysisLoop { phase: Phase::Filling, ..s },
        (Phase::Idle, Event::PauseToggled) => AnalysisLoop { phase: Phase::Paused, ..s },
        (Phase::Emitting, Event::PauseToggled) => AnalysisLoop { phase: Phase::Paused, ..s },
        (Phase::Paused, Event::PauseToggled) => AnalysisLoop { phase: Phase::Filling, ..s },
        _ => s,
    }
}

impl AnalysisLoop {
    /// The count of failures in a row never passes the retry budget.
    pub open spec fn wf(&self) -> bool {
        self.failed_fills <= self.max_retries
    }

    /// A loop that has not started and retries a failed fill up to
    /// `max_retries` times in a row.
    pub fn new(max_retries: u32) -> (r: AnalysisLoop)
        ensures
            r.wf(),
            r == (AnalysisLoop { phase: Phase::Idle, failed_fills: 0, max_retries }),
    {
        AnalysisLoop { phase: Phase::Idle, failed_fills: 0, max_retries }
    }

    /// Moves the loop on by one event.
    pub fn step(&self, event: Event) -> (r: AnalysisLoop)
        requires
            self.wf(),
        ensures
            r == next_state(*self, event),
            r.wf(),
    {
        match (self.phase, event) {
            (Phase::Terminated, _) => *self,
            (_, Event::Shutdown) => AnalysisLoop { phase: Phase::Terminated, ..*self },
            (Phase::Idle, Event::Start) => AnalysisLoop { phase: Phase::Filling, ..*self },
            (Phase::Filling, Event::FrameFilled) => AnalysisLoop {
                phase: Phase::Transforming,
                failed_fills: 0,
                ..*self
            },
            (Phase::Filling, Event::FillFailed) => {
                if self.failed_fills < self.max_retries {
                    AnalysisLoop { failed_fills: self.failed_fills + 1, ..*self }
                } else {
                    AnalysisLoop { phase: Phase::Terminated, ..*self }
                }
            },
            (Phase::Transforming, Event::SpectrumReady) => AnalysisLoop {
                phase: Phase::Emitting,
                ..*self
            },
            (Phase::Emitting, Event::Emitted) => AnalysisLoop { phase: Phase::Filling, ..*self },
            (Phase::Idle, Event::PauseToggled) => AnalysisLoop { phase: Phase::Paused, ..*self },
            (Phase::Emitting, Event::PauseToggled) => AnalysisLoop {
                phase: Phase::Paused,
                ..*self
            },
            (Phase::Paused, Event::PauseToggled) => AnalysisLoop {
                phase: Phase::Filling,
                ..*self
            },
            _ => *self,
        }
    }

    /// Whether the loop has shut down.
    pub fn is_terminated(&self) -> (r: bool)
        ensures
            r == (self.phase == Phase::Terminated),
    {
        match self.phase {
            Phase::Terminated => true,
            _ => false,
        }
    }
}

/// Once terminated, the loop stays terminated whatever happens.
pub proof fn lemma_terminated_absorbs(s: AnalysisLoop, event: Event)
    requires
        s.phase == Phase::Terminated,
    ensures
        next_state(s, event) == s,
{
}

/// A shutdown signal ends the loop from every phase.
pub proof fn lemma_shutdown_terminates(s: AnalysisLoop)
    ensures
        next_state(s, Event::Shutdown).phase == Phase::Terminated,
{
}

/// The transform only ever starts on a frame that the source reported whole.
pub proof fn lemma_transform_needs_whole_frame(s: AnalysisLoop, event: Event)
    requires
        s.phase != Phase::Transforming,
        next_state(s, event).phase == Phase::Transforming,
    ensures
        s.phase == Phase::Filling,
        event == Event::FrameFilled,
{
}

/// Failed fills are retried a bounded number of times: with the budget used
/// up, one more failure ends the loop.
pub proof fn lemma_retries_bounded(s: AnalysisLoop)
    requires
        s.wf(),
        s.phase == Phase::Filling,
        s.failed_fills == s.max_retries,
    ensures
        next_state(s, Event::FillFailed).phase == Phase::Terminated,
{
}

} // verus!
