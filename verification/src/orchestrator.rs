//! Supervision of the capture loops and the transmit loop.
//!
//! The orchestrator is told of every task that ends and answers with what
//! the supervisor is to do: keep waiting, cancel the capture loops, or
//! return with the session's outcome.

use vstd::prelude::*;
use crate::capture::StopReason;

verus! {

/// A fault that disables a component for the whole session.
#[derive(Clone, Copy, Debug, PartialEq, Eq, Structural)]
pub enum FatalError {
    /// The capture source with this index could not open its device.
    CaptureOpenFailed(usize),
    /// The serial sink could not be opened.
    SinkOpenFailed,
}

/// A task has ended.
#[derive(Clone, Copy, Debug, PartialEq, Eq, Structural)]
pub enum SupervisorEvent {
    /// The capture loop of the source with this index stopped.
    CaptureExited { source: usize, reason: StopReason },
    /// The transmit loop stopped; `fatal` if its sink could not be opened.
    TransmitExited { fatal: bool },
}

/// What the supervisor is to do.
#[derive(Clone, Copy, Debug, PartialEq, Eq)]
pub enum SupervisorAction {
    /// Keep waiting for the tasks that still run.
    Wait,
    /// Request shutdown of every capture loop, then keep waiting.
    CancelCaptures,
    /// Every task has ended: return this outcome.
    Finish(Result<(), FatalError>),
}

/// The joint lifetime of the session's tasks.
#[derive(Clone, Copy, Debug, PartialEq, Eq)]
pub struct Orchestrator {
    /// Capture loops that have not ended yet.
    pub captures_live: usize,
    pub transmit_live: bool,
    /// The first fatal fault that was reported, if any.
    pub first_fatal: Option<FatalError>,
}

/// `first`, or `later` where there is no `first`.
pub open spec fn first_of(first: Option<FatalError>, later: Option<FatalError>) -> Option<
    FatalError,
> {
    match first {
        Some(e) => Some(e),
        None => later,
    }
}

/// The fatal fault, if any, that the end of a capture loop amounts to.
pub open spec fn capture_fault(source: usize, reason: StopReason) -> Option<FatalError> {
    match reason {
        StopReason::OpenFailed => Some(FatalError::CaptureOpenFailed(source)),
        _ => None,
    }
}

/// The outcome of a session with this first fatal fault.
pub open spec fn outcome(first_fatal: Option<FatalError>) -> Result<(), FatalError> {
    match first_fatal {
        Some(e) => Err(e),
        None => Ok(()),
    }
}

impl Orchestrator {
    /// The transition function. The end of a capture loop is recorded, a
    /// fatal one with its fault unless an earlier fault is on record, and
    /// the others run on. The end of the transmit loop cancels the capture
    /// loops that still run. When the last task has ended the session
    /// finishes with the first fatal fault, or with success.
    pub open spec fn next(self, event: SupervisorEvent) -> (Orchestrator, SupervisorAction) {
        match event {
            SupervisorEvent::CaptureExited { source, reason } => {
                let after = Orchestrator {
                    captures_live: if self.captures_live > 0 {
                        (self.captures_live - 1) as usize
                    } else {
                        0
                    },
                    transmit_live: self.transmit_live,
                    first_fatal: first_of(self.first_fatal, capture_fault(source, reason)),
                };
                if after.captures_live == 0 && !after.transmit_live {
                    (after, SupervisorAction::Finish(outcome(after.first_fatal)))
                } else {
                    (after, SupervisorAction::Wait)
                }
            },
            SupervisorEvent::TransmitExited { fatal } => {
                let after = Orchestrator {
                    captures_live: self.captures_live,
                    transmit_live: false,
                    first_fatal: first_of(
                        self.first_fatal,
                        if fatal {
                            Some(FatalError::SinkOpenFailed)
                        } else {
                            None
                        },
                    ),
                };
                if after.captures_live == 0 {
                    (after, SupervisorAction::Finish(outcome(after.first_fatal)))
                } else {
                    (after, SupervisorAction::CancelCaptures)
                }
            },
        }
    }

    /// A session with `captures` capture loops and one transmit loop, all running.
    pub fn new(captures: usize) -> (o: Orchestrator)
        ensures
            o == (Orchestrator { captures_live: captures, transmit_live: true, first_fatal: None }),
    {
        Orchestrator { captures_live: captures, transmit_live: true, first_fatal: None }
    }

    fn note(&mut self, fault: Option<FatalError>)
        ensures
            *final(self) == (Orchestrator {
                first_fatal: first_of(old(self).first_fatal, fault),
                ..*old(self)
            }),
    {
        if self.first_fatal.is_none() {
            self.first_fatal = fault;
        }
    }

    fn result(&self) -> (r: Result<(), FatalError>)
        ensures
            r == outcome(self.first_fatal),
    {
        match self.first_fatal {
            Some(e) => Err(e),
            None => Ok(()),
        }
    }

    /// Records that a task has ended and returns what the supervisor is to do.
    pub fn step(&mut self, event: SupervisorEvent) -> (action: SupervisorAction)
        ensures
            (*final(self), action) == old(self).next(event),
    {
        match event {
            SupervisorEvent::CaptureExited { source, reason } => {
                if self.captures_live > 0 {
                    self.captures_live = self.captures_live - 1;
                }
                let fault = match reason {
                    StopReason::OpenFailed => Some(FatalError::CaptureOpenFailed(source)),
                    _ => None,
                };
                self.note(fault);
                if self.captures_live == 0 && !self.transmit_live {
                    SupervisorAction::Finish(self.result())
                } else {
                    SupervisorAction::Wait
                }
            },
            SupervisorEvent::TransmitExited { fatal } => {
                self.transmit_live = false;
                self.note(
                    if fatal {
                        Some(FatalError::SinkOpenFailed)
                    } else {
                        None
                    },
                );
                if self.captures_live == 0 {
                    SupervisorAction::Finish(self.result())
                } else {
                    SupervisorAction::CancelCaptures
                }
            },
        }
    }
}

/// The first fatal fault stays on record: no later event replaces it.
pub proof fn lemma_first_fatal_is_kept(o: Orchestrator, event: SupervisorEvent)
    requires
        o.first_fatal is Some,
    ensures
        o.next(event).0.first_fatal == o.first_fatal,
{
}

/// The end of one capture loop, fatal or not, ends no other task: while
/// the transmit loop runs the supervisor only waits.
pub proof fn lemma_capture_exit_is_local(o: Orchestrator, source: usize, reason: StopReason)
    requires
        o.transmit_live,
    ensures
        o.next(SupervisorEvent::CaptureExited { source, reason }).1 == SupervisorAction::Wait,
        o.next(SupervisorEvent::CaptureExited { source, reason }).0.transmit_live,
{
}

/// The end of the transmit loop cancels the capture loops that still run.
pub proof fn lemma_transmit_exit_cancels(o: Orchestrator, fatal: bool)
    requires
        o.captures_live > 0,
    ensures
        o.next(SupervisorEvent::TransmitExited { fatal }).1 == SupervisorAction::CancelCaptures,
{
}

/// The session finishes only when every task has ended, and then with the
/// first fatal fault on record, or with success if there is none.
pub proof fn lemma_finish_when_all_ended(o: Orchestrator, event: SupervisorEvent)
    ensures
        o.next(event).1 is Finish <==> o.next(event).0.captures_live == 0 && !o.next(
            event,
        ).0.transmit_live,
        o.next(event).1 matches SupervisorAction::Finish(r) ==> r == outcome(
            o.next(event).0.first_fatal,
        ),
{
}

} // verus!
