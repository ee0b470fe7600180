//! The capture loop of one device, as a state machine.
//!
//! The machine decides; its driver acts. The driver performs the action a
//! step returns and hands the outcome back as the next event. `Resumed`
//! tells the machine that an action without an outcome of its own (a
//! backoff sleep, a discard, `Proceed`) is done.

use vstd::prelude::*;
use crate::backoff::BackoffPolicy;
use crate::message::RelayMessage;
use crate::message::RelayPayload;
use crate::message::ReportOrigin;
use crate::modifier::Config;
use crate::modifier::InputModifier;
use crate::modifier::differs;
use crate::modifier::transformed;
use crate::modifier::was_modified;
use crate::report::DecodeError;
use crate::report::MouseReport;
use crate::report::ReportLayout;
use crate::report::decoded;
use crate::report::layout_for_len;

verus! {

/// Why a capture loop stopped.
#[derive(Clone, Copy, Debug, PartialEq, Eq, Structural)]
pub enum StopReason {
    /// The device could not be opened at startup.
    OpenFailed,
    /// The transmitter has shut down; nothing can be handed off any more.
    ChannelClosed,
    /// Shutdown was requested.
    Cancelled,
}

/// Where a capture loop stands.
#[derive(Clone, Copy, Debug, PartialEq, Eq, Structural)]
pub enum CaptureState {
    /// Not yet opened.
    Idle,
    /// Waiting for the outcome of a read.
    Reading,
    /// A report was decoded and transformed; waiting for the channel to take it.
    Decoded,
    /// The channel took the message.
    Enqueued,
    /// A report could not be decoded and is being discarded.
    DecodeFailed,
    /// Terminal.
    Stopped(StopReason),
}

/// What the driver reports to the machine.
#[derive(Debug, PartialEq, Eq)]
pub enum CaptureEvent {
    /// The last action had no outcome of its own and is done.
    Resumed,
    Opened,
    OpenFailed,
    /// A read returned these bytes.
    Report(Vec<u8>),
    /// A read returned nothing within its window.
    Timeout,
    ReadFailed,
    /// The channel took the message.
    Accepted,
    /// The channel refused the message for good.
    ChannelClosed,
    /// Shutdown was requested.
    Shutdown,
}

/// What the driver is to do next.
#[derive(Debug, PartialEq, Eq)]
pub enum CaptureAction {
    /// Open the device; report `Opened` or `OpenFailed`.
    Open,
    /// Read one report with a bounded timeout; report `Report`, `Timeout` or `ReadFailed`.
    Read,
    /// Sleep this many milliseconds; report `Resumed`.
    Backoff(u64),
    /// Hand the message to the channel, waiting while it is full; report
    /// `Accepted` or `ChannelClosed`.
    Enqueue(RelayMessage),
    /// Note that a report was dropped for this reason; report `Resumed`.
    Discard(DecodeError),
    /// Nothing to do; report `Resumed`.
    Proceed,
    /// Leave the loop.
    Stop(StopReason),
}

/// One device's capture loop.
#[derive(Clone, Copy, Debug)]
pub struct CaptureLoop {
    pub state: CaptureState,
    pub origin: ReportOrigin,
    /// Read failures in a row since the last read that worked.
    pub failures: u32,
    pub backoff: BackoffPolicy,
}

/// One more failure, the count staying at its maximum once there.
pub open spec fn one_more(failures: u32) -> u32 {
    if failures < u32::MAX {
        (failures + 1) as u32
    } else {
        failures
    }
}

/// The message that a decoded pointer report is sent as: the transformed
/// report, the layout its bytes were read under, and whether the transform
/// changed it.
pub open spec fn pointer_message(r: MouseReport, layout: ReportLayout, config: Config) -> RelayMessage {
    RelayMessage {
        origin: ReportOrigin::Pointer,
        payload: RelayPayload::Pointer {
            report: transformed(r, config),
            layout,
            modified: differs(r, transformed(r, config)),
        },
    }
}

impl CaptureLoop {
    /// The loop with its state replaced.
    pub open spec fn at(self, state: CaptureState) -> CaptureLoop {
        CaptureLoop { state, ..self }
    }

    /// What a read that returned `bytes` leads to. A pointer report that does
    /// not decode is discarded; one that decodes to nothing at all is
    /// passed over; any other is transformed and handed off. Bytes from an
    /// auxiliary device are handed off as they are.
    pub open spec fn on_report(self, bytes: Vec<u8>, config: Config) -> (CaptureLoop, CaptureAction) {
        let calm = CaptureLoop { failures: 0, ..self };
        match self.origin {
            ReportOrigin::Auxiliary => (
                calm.at(CaptureState::Decoded),
                CaptureAction::Enqueue(
                    RelayMessage { origin: ReportOrigin::Auxiliary, payload: RelayPayload::Opaque(bytes) },
                ),
            ),
            ReportOrigin::Pointer => match (decoded(bytes@), layout_for_len(bytes@.len())) {
                (Ok(r), Ok(layout)) => if r.spec_is_idle() {
                    (calm.at(CaptureState::Reading), CaptureAction::Read)
                } else {
                    (
                        calm.at(CaptureState::Decoded),
                        CaptureAction::Enqueue(pointer_message(r, layout, config)),
                    )
                },
                (Err(e), _) => (calm.at(CaptureState::DecodeFailed), CaptureAction::Discard(e)),
                (_, Err(e)) => (calm.at(CaptureState::DecodeFailed), CaptureAction::Discard(e)),
            },
        }
    }

    /// The transition function: the loop after `event`, and what the driver
    /// is to do. A stopped loop stays stopped. Shutdown stops a loop from
    /// any state. An event that the current state does not wait for changes
    /// nothing and yields `Proceed`.
    pub open spec fn next(self, event: CaptureEvent, config: Config) -> (CaptureLoop, CaptureAction) {
        match (self.state, event) {
            (CaptureState::Stopped(reason), _) => (self, CaptureAction::Stop(reason)),
            (_, CaptureEvent::Shutdown) => (
                self.at(CaptureState::Stopped(StopReason::Cancelled)),
                CaptureAction::Stop(StopReason::Cancelled),
            ),
            (CaptureState::Idle, CaptureEvent::Resumed) => (self, CaptureAction::Open),
            (CaptureState::Idle, CaptureEvent::Opened) => (
                self.at(CaptureState::Reading),
                CaptureAction::Read,
            ),
            (CaptureState::Idle, CaptureEvent::OpenFailed) => (
                self.at(CaptureState::Stopped(StopReason::OpenFailed)),
                CaptureAction::Stop(StopReason::OpenFailed),
            ),
            (CaptureState::Reading, CaptureEvent::Resumed) => (self, CaptureAction::Read),
            (CaptureState::Reading, CaptureEvent::Timeout) => (
                CaptureLoop { failures: 0, ..self },
                CaptureAction::Read,
            ),
            (CaptureState::Reading, CaptureEvent::ReadFailed) => (
                CaptureLoop { failures: one_more(self.failures), ..self },
                CaptureAction::Backoff(self.backoff.delay(self.failures as nat) as u64),
            ),
            (CaptureState::Reading, CaptureEvent::Report(bytes)) => self.on_report(bytes, config),
            (CaptureState::Decoded, CaptureEvent::Accepted) => (
                self.at(CaptureState::Enqueued),
                CaptureAction::Proceed,
            ),
            (CaptureState::Decoded, CaptureEvent::ChannelClosed) => (
                self.at(CaptureState::Stopped(StopReason::ChannelClosed)),
                CaptureAction::Stop(StopReason::ChannelClosed),
            ),
            (CaptureState::Enqueued, CaptureEvent::Resumed) => (
                self.at(CaptureState::Reading),
                CaptureAction::Read,
            ),
            (CaptureState::DecodeFailed, CaptureEvent::Resumed) => (
                self.at(CaptureState::Reading),
                CaptureAction::Read,
            ),
            _ => (self, CaptureAction::Proceed),
        }
    }

    /// A loop that has not opened its device yet.
    pub fn new(origin: ReportOrigin, backoff: BackoffPolicy) -> (l: CaptureLoop)
        ensures
            l == (CaptureLoop { state: CaptureState::Idle, origin, failures: 0, backoff }),
    {
        CaptureLoop { state: CaptureState::Idle, origin, failures: 0, backoff }
    }

    /// Whether the loop has reached its terminal state.
    pub fn is_stopped(&self) -> (stopped: bool)
        ensures
            stopped == (self.state is Stopped),
    {
        match self.state {
            CaptureState::Stopped(_) => true,
            _ => false,
        }
    }

    /// Handles a read that returned `bytes`.
    fn handle_report(&mut self, bytes: Vec<u8>, modifier: &InputModifier) -> (action: CaptureAction)
        ensures
            (*final(self), action) == old(self).on_report(bytes, modifier.config),
    {
        self.failures = 0;
        match self.origin {
            ReportOrigin::Auxiliary => {
                self.state = CaptureState::Decoded;
                CaptureAction::Enqueue(
                    RelayMessage { origin: ReportOrigin::Auxiliary, payload: RelayPayload::Opaque(bytes) },
                )
            },
            ReportOrigin::Pointer => {
                let layout = ReportLayout::for_len(bytes.len());
                let report = MouseReport::from_bytes(bytes.as_slice());
                match (report, layout) {
                    (Ok(r), Ok(layout)) => {
                        if r.is_idle() {
                            self.state = CaptureState::Reading;
                            CaptureAction::Read
                        } else {
                            let out = modifier.modify_mouse_report(r);
                            let modified = was_modified(&r, &out);
                            self.state = CaptureState::Decoded;
                            CaptureAction::Enqueue(
                                RelayMessage {
                                    origin: ReportOrigin::Pointer,
                                    payload: RelayPayload::Pointer { report: out, layout, modified },
                                },
                            )
                        }
                    },
                    (Err(e), _) => {
                        self.state = CaptureState::DecodeFailed;
                        CaptureAction::Discard(e)
                    },
                    (_, Err(e)) => {
                        self.state = CaptureState::DecodeFailed;
                        CaptureAction::Discard(e)
                    },
                }
            },
        }
    }

    /// Advances the loop by one event and returns what the driver is to do.
    pub fn step(&mut self, event: CaptureEvent, modifier: &InputModifier) -> (action: CaptureAction)
        ensures
            (*final(self), action) == old(self).next(event, modifier.config),
    {
        match (self.state, event) {
            (CaptureState::Stopped(reason), _) => CaptureAction::Stop(reason),
            (_, CaptureEvent::Shutdown) => {
                self.state = CaptureState::Stopped(StopReason::Cancelled);
                CaptureAction::Stop(StopReason::Cancelled)
            },
            (CaptureState::Idle, CaptureEvent::Resumed) => CaptureAction::Open,
            (CaptureState::Idle, CaptureEvent::Opened) => {
                self.state = CaptureState::Reading;
                CaptureAction::Read
            },
            (CaptureState::Idle, CaptureEvent::OpenFailed) => {
                self.state = CaptureState::Stopped(StopReason::OpenFailed);
                CaptureAction::Stop(StopReason::OpenFailed)
            },
            (CaptureState::Reading, CaptureEvent::Resumed) => CaptureAction::Read,
            (CaptureState::Reading, CaptureEvent::Timeout) => {
                self.failures = 0;
                CaptureAction::Read
            },
            (CaptureState::Reading, CaptureEvent::ReadFailed) => {
                let delay = self.backoff.delay_ms(self.failures);
                if self.failures < u32::MAX {
                    self.failures = self.failures + 1;
                }
                CaptureAction::Backoff(delay)
            },
            (CaptureState::Reading, CaptureEvent::Report(bytes)) => self.handle_report(
                bytes,
                modifier,
            ),
            (CaptureState::Decoded, CaptureEvent::Accepted) => {
                self.state = CaptureState::Enqueued;
                CaptureAction::Proceed
            },
            (CaptureState::Decoded, CaptureEvent::ChannelClosed) => {
                self.state = CaptureState::Stopped(StopReason::ChannelClosed);
                CaptureAction::Stop(StopReason::ChannelClosed)
            },
            (CaptureState::Enqueued, CaptureEvent::Resumed) => {
                self.state = CaptureState::Reading;
                CaptureAction::Read
            },
            (CaptureState::DecodeFailed, CaptureEvent::Resumed) => {
                self.state = CaptureState::Reading;
                CaptureAction::Read
            },
            _ => CaptureAction::Proceed,
        }
    }
}

/// A shutdown request stops the loop at once, whatever it was doing, and a
/// stopped loop answers every further event by stopping again, unchanged.
pub proof fn lemma_shutdown_is_terminal(l: CaptureLoop, event: CaptureEvent, config: Config)
    ensures
        l.next(CaptureEvent::Shutdown, config).0.state is Stopped,
        l.next(CaptureEvent::Shutdown, config).1 is Stop,
        l.state is Stopped ==> l.next(event, config).0 == l && l.next(event, config).1 is Stop,
{
}

/// A loop stops only where it must: on a shutdown request, when its device
/// cannot be opened at startup, or when the channel is closed for good.
/// No read fault, timeout or undecodable report ends it.
pub proof fn lemma_stops_only_when_due(l: CaptureLoop, event: CaptureEvent, config: Config)
    requires
        !(l.state is Stopped),
        l.next(event, config).0.state is Stopped,
    ensures
        event is Shutdown || (l.state is Idle && event is OpenFailed) || (l.state is Decoded
            && event is ChannelClosed),
{
}

/// A read fault keeps the loop reading after a delay that the backoff
/// policy bounds.
pub proof fn lemma_read_fault_recovers(l: CaptureLoop, config: Config)
    requires
        l.state is Reading,
    ensures
        l.next(CaptureEvent::ReadFailed, config).0.state is Reading,
        l.next(CaptureEvent::ReadFailed, config).1 matches CaptureAction::Backoff(ms) && ms
            <= l.backoff.cap_ms,
        l.next(CaptureEvent::ReadFailed, config).0.next(CaptureEvent::Resumed, config).1 is Read,
{
    crate::backoff::lemma_delay_bounded(l.backoff, l.failures as nat);
}

/// What a pointer loop does with a report while reading: too few bytes are
/// discarded, a report with nothing in it is passed over, and every other
/// report is handed off transformed. The loop keeps running throughout.
pub proof fn lemma_pointer_report_outcomes(l: CaptureLoop, bytes: Vec<u8>, config: Config)
    requires
        l.state is Reading,
        l.origin is Pointer,
    ensures
        bytes@.len() < 4 ==> l.next(CaptureEvent::Report(bytes), config).1
            == CaptureAction::Discard(DecodeError::TooShort),
        bytes@.len() >= 4 && decoded(bytes@)->Ok_0.spec_is_idle() ==> l.next(
            CaptureEvent::Report(bytes),
            config,
        ).1 is Read,
        bytes@.len() >= 4 && !decoded(bytes@)->Ok_0.spec_is_idle() ==> l.next(
            CaptureEvent::Report(bytes),
            config,
        ).1 is Enqueue,
        !(l.next(CaptureEvent::Report(bytes), config).0.state is Stopped),
{
}

} // verus!
