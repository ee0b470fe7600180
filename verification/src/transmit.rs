//! The transmit loop, as a state machine, and its running statistics.
//!
//! As with capture, the machine decides and its driver acts: the driver
//! performs the action a step returns and hands the outcome back as the
//! next event.

use vstd::prelude::*;
use crate::backoff::BackoffPolicy;
use crate::capture::one_more;
use crate::frame::frame;
use crate::frame::framed;
use crate::message::RelayMessage;

verus! {

/// Number of processed messages between two summaries where none is configured.
pub const DEFAULT_SUMMARY_INTERVAL: u64 = 1000;

/// Running counters of the transmit loop.
#[derive(Clone, Copy, Debug, PartialEq, Eq, Structural)]
pub struct RelayStatistics {
    /// Messages taken from the channel.
    pub reports_seen: u64,
    /// Those among them that a transform had changed.
    pub reports_modified: u64,
}

/// Where the transmit loop stands.
#[derive(Clone, Copy, Debug, PartialEq, Eq, Structural)]
pub enum TransmitState {
    /// Waiting for the next message.
    Waiting,
    /// Waiting for the outcome of a write.
    Writing,
    /// Waiting for the outcome of a flush.
    Flushing,
    /// Backing off after a failed write or flush.
    Recovering,
    /// Terminal.
    Stopped,
}

/// What the driver reports to the machine.
#[derive(Debug, PartialEq, Eq)]
pub enum TransmitEvent {
    /// The last action had no outcome of its own and is done.
    Resumed,
    /// The channel handed out this message.
    Message(RelayMessage),
    /// The channel is drained and every producer is gone.
    ChannelClosed,
    WriteDone,
    WriteFailed,
    FlushDone,
    FlushFailed,
    /// Shutdown was requested.
    Shutdown,
}

/// What the driver is to do next.
#[derive(Debug, PartialEq, Eq)]
pub enum TransmitAction {
    /// Take the next message, waiting while the channel is empty; report
    /// `Message` or `ChannelClosed`.
    Dequeue,
    /// Write this line to the sink; report `WriteDone` or `WriteFailed`.
    Write(Vec<u8>),
    /// Flush the sink; report `FlushDone` or `FlushFailed`.
    Flush,
    /// Sleep this many milliseconds; report `Resumed`.
    Backoff(u64),
    /// Emit a summary of these counters; report `Resumed`.
    Summarize(RelayStatistics),
    /// Nothing to do; report `Resumed`.
    Proceed,
    /// Leave the loop.
    Stop,
}

/// A transmit action as a mathematical value.
pub enum TransmitStep {
    Dequeue,
    Write(Seq<u8>),
    Flush,
    Backoff(u64),
    Summarize(RelayStatistics),
    Proceed,
    Stop,
}

impl View for TransmitAction {
    type V = TransmitStep;

    open spec fn view(&self) -> TransmitStep {
        match *self {
            TransmitAction::Dequeue => TransmitStep::Dequeue,
            TransmitAction::Write(line) => TransmitStep::Write(line@),
            TransmitAction::Flush => TransmitStep::Flush,
            TransmitAction::Backoff(ms) => TransmitStep::Backoff(ms),
            TransmitAction::Summarize(stats) => TransmitStep::Summarize(stats),
            TransmitAction::Proceed => TransmitStep::Proceed,
            TransmitAction::Stop => TransmitStep::Stop,
        }
    }
}

/// The transmit loop.
#[derive(Clone, Copy, Debug)]
pub struct TransmitLoop {
    pub state: TransmitState,
    pub stats: RelayStatistics,
    /// Failed frames in a row since the last one that went out.
    pub failures: u32,
    pub backoff: BackoffPolicy,
    /// A summary is due whenever the number of messages seen is a multiple
    /// of this; zero turns summaries off.
    pub summary_interval: u64,
}

/// `count` plus one, staying at the largest value once there.
pub open spec fn counted(count: u64) -> u64 {
    if count < u64::MAX {
        (count + 1) as u64
    } else {
        count
    }
}

impl RelayStatistics {
    /// The counters after one more message, changed by its transform or not.
    pub open spec fn recorded(self, modified: bool) -> RelayStatistics {
        RelayStatistics {
            reports_seen: counted(self.reports_seen),
            reports_modified: if modified {
                counted(self.reports_modified)
            } else {
                self.reports_modified
            },
        }
    }

    /// Whether a summary is due under `interval`.
    pub open spec fn due(self, interval: u64) -> bool {
        interval > 0 && self.reports_seen as int % interval as int == 0
    }

    /// Counters at zero.
    pub fn new() -> (s: RelayStatistics)
        ensures
            s.reports_seen == 0,
            s.reports_modified == 0,
    {
        RelayStatistics { reports_seen: 0, reports_modified: 0 }
    }

    /// Counts one more message.
    pub fn record(&mut self, modified: bool)
        ensures
            *final(self) == old(self).recorded(modified),
    {
        if self.reports_seen < u64::MAX {
            self.reports_seen = self.reports_seen + 1;
        }
        if modified && self.reports_modified < u64::MAX {
            self.reports_modified = self.reports_modified + 1;
        }
    }

    /// Whether a summary is due under `interval`.
    pub fn summary_due(&self, interval: u64) -> (due: bool)
        ensures
            due == self.due(interval),
    {
        interval > 0 && self.reports_seen % interval == 0
    }
}

impl TransmitLoop {
    /// The loop with its state replaced.
    pub open spec fn at(self, state: TransmitState) -> TransmitLoop {
        TransmitLoop { state, ..self }
    }

    /// The loop as a frame has been dealt with, and what follows: a summary
    /// if one is due, else the next message.
    pub open spec fn after_frame(self) -> (TransmitLoop, TransmitStep) {
        if self.stats.due(self.summary_interval) {
            (self.at(TransmitState::Waiting), TransmitStep::Summarize(self.stats))
        } else {
            (self.at(TransmitState::Waiting), TransmitStep::Dequeue)
        }
    }

    /// The loop as a write or flush has failed: the frame is given up, and
    /// the loop backs off before it goes on.
    pub open spec fn after_fault(self) -> (TransmitLoop, TransmitStep) {
        (
            TransmitLoop { state: TransmitState::Recovering, failures: one_more(self.failures), ..self },
            TransmitStep::Backoff(self.backoff.delay(self.failures as nat) as u64),
        )
    }

    /// The transition function: the loop after `event`, and what the driver
    /// is to do. A stopped loop stays stopped. Shutdown stops the loop from
    /// any state. An event that the current state does not wait for changes
    /// nothing and yields `Proceed`.
    pub open spec fn next(self, event: TransmitEvent) -> (TransmitLoop, TransmitStep) {
        match (self.state, event) {
            (TransmitState::Stopped, _) => (self, TransmitStep::Stop),
            (_, TransmitEvent::Shutdown) => (self.at(TransmitState::Stopped), TransmitStep::Stop),
            (TransmitState::Waiting, TransmitEvent::Resumed) => (self, TransmitStep::Dequeue),
            (TransmitState::Waiting, TransmitEvent::Message(msg)) => (
                TransmitLoop {
                    state: TransmitState::Writing,
                    stats: self.stats.recorded(msg.payload.spec_is_modified()),
                    ..self
                },
                TransmitStep::Write(framed(msg.payload.wire_bytes())),
            ),
            (TransmitState::Waiting, TransmitEvent::ChannelClosed) => (
                self.at(TransmitState::Stopped),
                TransmitStep::Stop,
            ),
            (TransmitState::Writing, TransmitEvent::WriteDone) => (
                self.at(TransmitState::Flushing),
                TransmitStep::Flush,
            ),
            (TransmitState::Writing, TransmitEvent::WriteFailed) => self.after_fault(),
            (TransmitState::Flushing, TransmitEvent::FlushDone) => (TransmitLoop {
                failures: 0,
                ..self
            }).after_frame(),
            (TransmitState::Flushing, TransmitEvent::FlushFailed) => self.after_fault(),
            (TransmitState::Recovering, TransmitEvent::Resumed) => self.after_frame(),
            _ => (self, TransmitStep::Proceed),
        }
    }

    /// A loop that waits for its first message, with counters at zero.
    pub fn new(backoff: BackoffPolicy, summary_interval: u64) -> (l: TransmitLoop)
        ensures
            l == (TransmitLoop {
                state: TransmitState::Waiting,
                stats: RelayStatistics { reports_seen: 0, reports_modified: 0 },
                failures: 0,
                backoff,
                summary_interval,
            }),
    {
        TransmitLoop {
            state: TransmitState::Waiting,
            stats: RelayStatistics::new(),
            failures: 0,
            backoff,
            summary_interval,
        }
    }

    /// Whether the loop has reached its terminal state.
    pub fn is_stopped(&self) -> (stopped: bool)
        ensures
            stopped == (self.state is Stopped),
    {
        match self.state {
            TransmitState::Stopped => true,
            _ => false,
        }
    }

    fn finish_frame(&mut self) -> (action: TransmitAction)
        ensures
            (*final(self), action@) == old(self).after_frame(),
    {
        self.state = TransmitState::Waiting;
        if self.stats.summary_due(self.summary_interval) {
            TransmitAction::Summarize(self.stats)
        } else {
            TransmitAction::Dequeue
        }
    }

    fn give_up_frame(&mut self) -> (action: TransmitAction)
        ensures
            (*final(self), action@) == old(self).after_fault(),
    {
        let delay = self.backoff.delay_ms(self.failures);
        if self.failures < u32::MAX {
            self.failures = self.failures + 1;
        }
        self.state = TransmitState::Recovering;
        TransmitAction::Backoff(delay)
    }

    /// Advances the loop by one event and returns what the driver is to do.
    /// A message must be short enough to be framed.
    pub fn step(&mut self, event: TransmitEvent) -> (action: TransmitAction)
        requires
            event matches TransmitEvent::Message(msg) ==> msg.payload.frameable(),
        ensures
            (*final(self), action@) == old(self).next(event),
    {
        match (self.state, event) {
            (TransmitState::Stopped, _) => TransmitAction::Stop,
            (_, TransmitEvent::Shutdown) => {
                self.state = TransmitState::Stopped;
                TransmitAction::Stop
            },
            (TransmitState::Waiting, TransmitEvent::Resumed) => TransmitAction::Dequeue,
            (TransmitState::Waiting, TransmitEvent::Message(msg)) => {
                self.stats.record(msg.payload.is_modified());
                self.state = TransmitState::Writing;
                let bytes = msg.payload.to_wire_bytes();
                TransmitAction::Write(frame(bytes.as_slice()))
            },
            (TransmitState::Waiting, TransmitEvent::ChannelClosed) => {
                self.state = TransmitState::Stopped;
                TransmitAction::Stop
            },
            (TransmitState::Writing, TransmitEvent::WriteDone) => {
                self.state = TransmitState::Flushing;
                TransmitAction::Flush
            },
            (TransmitState::Writing, TransmitEvent::WriteFailed) => self.give_up_frame(),
            (TransmitState::Flushing, TransmitEvent::FlushDone) => {
                self.failures = 0;
                self.finish_frame()
            },
            (TransmitState::Flushing, TransmitEvent::FlushFailed) => self.give_up_frame(),
            (TransmitState::Recovering, TransmitEvent::Resumed) => self.finish_frame(),
            _ => TransmitAction::Proceed,
        }
    }
}

/// A shutdown request stops the loop at once, whatever it was doing, and a
/// stopped loop answers every further event by stopping again, unchanged.
pub proof fn lemma_shutdown_is_terminal(l: TransmitLoop, event: TransmitEvent)
    ensures
        l.next(TransmitEvent::Shutdown).0.state is Stopped,
        l.next(TransmitEvent::Shutdown).1 is Stop,
        l.state is Stopped ==> l.next(event) == (l, TransmitStep::Stop),
{
}

/// The loop ends only on a shutdown request or when the channel reports
/// that it is closed; no write or flush fault ends it.
pub proof fn lemma_stops_only_when_due(l: TransmitLoop, event: TransmitEvent)
    requires
        !(l.state is Stopped),
        l.next(event).0.state is Stopped,
    ensures
        event is Shutdown || (l.state is Waiting && event is ChannelClosed),
{
}

/// Each message taken from the channel is counted once, when it is taken,
/// and goes to the sink as its frame; no other event touches the counters.
pub proof fn lemma_message_is_counted_and_framed(l: TransmitLoop, msg: RelayMessage)
    requires
        l.state is Waiting,
    ensures
        l.next(TransmitEvent::Message(msg)).0.stats == l.stats.recorded(
            msg.payload.spec_is_modified(),
        ),
        l.next(TransmitEvent::Message(msg)).1 == TransmitStep::Write(
            framed(msg.payload.wire_bytes()),
        ),
{
}

/// Only a message changes the counters.
pub proof fn lemma_counters_follow_messages(l: TransmitLoop, event: TransmitEvent)
    requires
        !(event is Message),
    ensures
        l.next(event).0.stats == l.stats,
{
}

/// A failed write or flush costs the frame and nothing else: the loop backs
/// off for a bounded time and then goes on to a summary or the next
/// message, never back to the frame that failed.
pub proof fn lemma_fault_drops_frame(l: TransmitLoop, event: TransmitEvent)
    requires
        (l.state is Writing && event is WriteFailed) || (l.state is Flushing && event is FlushFailed),
    ensures
        l.next(event).0.state is Recovering,
        l.next(event).1 matches TransmitStep::Backoff(ms) && ms <= l.backoff.cap_ms,
        l.next(event).0.next(TransmitEvent::Resumed).0.state is Waiting,
        l.next(event).0.next(TransmitEvent::Resumed).1 is Dequeue || l.next(event).0.next(
            TransmitEvent::Resumed,
        ).1 is Summarize,
{
    crate::backoff::lemma_delay_bounded(l.backoff, l.failures as nat);
}

} // verus!
