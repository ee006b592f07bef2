use vstd::prelude::*;

use crate::state::ListError;

verus! {

/// How long the producer waits before each append, in milliseconds.
pub const SIMULATED_LATENCY_MS: u64 = 100;

/// Where the background producer stands.
#[derive(PartialEq, Eq, Structural, Debug, Clone, Copy)]
pub enum ProducerPhase {
    /// Waiting out the simulated latency.
    Waiting,
    /// An append has been asked for and its outcome is awaited.
    Appending,
    /// An append failed; the loop has ended for good.
    Stopped,
}

/// What the host reports back to the producer.
#[derive(PartialEq, Eq, Structural, Debug, Clone, Copy)]
pub enum ProducerEvent {
    /// The wait is over.
    WaitElapsed,
    /// The append was committed.
    Appended,
    /// The append could not be made.
    AppendFailed(ListError),
}

/// What the producer asks the host to do next.
#[derive(PartialEq, Eq, Structural, Debug, Clone, Copy)]
pub enum ProducerAction {
    /// Wait this many milliseconds, then report `WaitElapsed`.
    Wait(u64),
    /// Append a new item through the shared append path, then report the outcome.
    Append,
    /// Log the error; the loop is over.
    Report(ListError),
    /// Nothing to do.
    Idle,
}

/// One step of the producer: the phase after `event` and the action to take.
/// An event that the phase does not expect changes nothing.
pub open spec fn producer_step(phase: ProducerPhase, event: ProducerEvent) -> (ProducerPhase, ProducerAction) {
    match (phase, event) {
        (ProducerPhase::Waiting, ProducerEvent::WaitElapsed) => (ProducerPhase::Appending, ProducerAction::Append),
        (ProducerPhase::Appending, ProducerEvent::Appended) => (
            ProducerPhase::Waiting,
            ProducerAction::Wait(SIMULATED_LATENCY_MS),
        ),
        (ProducerPhase::Appending, ProducerEvent::AppendFailed(e)) => (ProducerPhase::Stopped, ProducerAction::Report(e)),
        _ => (phase, ProducerAction::Idle),
    }
}

/// The decisions of the background loop that appends an item after each
/// wait and ends at the first failed append. The host performs the actions
/// and reports the events.
pub struct ProducerLoop {
    phase: ProducerPhase,
}

impl ProducerLoop {
    /// A producer that starts by waiting.
    pub fn new() -> (r: (ProducerLoop, ProducerAction))
        ensures
            r.0.phase() == ProducerPhase::Waiting,
            r.1 == ProducerAction::Wait(SIMULATED_LATENCY_MS),
    {
        (ProducerLoop { phase: ProducerPhase::Waiting }, ProducerAction::Wait(SIMULATED_LATENCY_MS))
    }

    pub closed spec fn phase(&self) -> ProducerPhase {
        self.phase
    }

    pub fn current_phase(&self) -> (r: ProducerPhase)
        ensures
            r == self.phase(),
    {
        self.phase
    }

    /// Takes in what the host reports and says what to do next.
    pub fn step(&mut self, event: ProducerEvent) -> (r: ProducerAction)
        ensures
            (final(self).phase(), r) == producer_step(old(self).phase(), event),
    {
        match (self.phase, event) {
            (ProducerPhase::Waiting, ProducerEvent::WaitElapsed) => {
                self.phase = ProducerPhase::Appending;
                ProducerAction::Append
            },
            (ProducerPhase::Appending, ProducerEvent::Appended) => {
                self.phase = ProducerPhase::Waiting;
                ProducerAction::Wait(SIMULATED_LATENCY_MS)
            },
            (ProducerPhase::Appending, ProducerEvent::AppendFailed(e)) => {
                self.phase = ProducerPhase::Stopped;
                ProducerAction::Report(e)
            },
            _ => ProducerAction::Idle,
        }
    }
}

} // verus!
