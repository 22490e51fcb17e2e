//! Decision machine of the duplex run loop. The loop itself races two
//! suspension points per iteration — reading one inbound unit from the
//! connection's transport, and receiving one published unit from the
//! connection's subscription — and an executor performs the suspending
//! work. Every decision of the loop stands here: which directive follows
//! each event, when the loop turns terminal, and that teardown always runs
//! the abort-signal wait and then the closed-signal wait, exactly once
//! each, on every exit path.

use vstd::prelude::*;

verus! {

/// Why the loop turned terminal.
#[derive(Clone, Copy, PartialEq, Eq, Structural, Debug)]
pub enum TerminationReason {
    /// The transport read failed: the peer disconnected or the transport
    /// faulted.
    PeerDisconnected,
    /// The publish of the derived response failed: no channel, or zero
    /// live subscribers.
    PublishFailed,
    /// Writing a received unit out to the transport, or flushing it,
    /// failed.
    WriteFailed,
    /// The subscription could no longer receive: closed, or the backlog
    /// was overrun.
    SubscriptionClosed,
}

/// Where the loop stands between two events.
#[derive(Clone, Copy, PartialEq, Eq, Structural, Debug)]
pub enum LoopPhase {
    /// Racing the inbound read against the broadcast receive.
    Selecting,
    /// An inbound unit arrived; the request callback runs and the derived
    /// response is being published.
    Requesting,
    /// A broadcast unit arrived; it is being written out and flushed.
    Writing,
    /// Terminal; waiting for the connection's abort signal.
    AwaitingAbort,
    /// Terminal; abort signalled, waiting for the closed signal.
    AwaitingClosed,
    /// Teardown complete; the loop returns.
    Done,
}

/// What the executor reports back to the machine.
pub enum LoopEvent {
    /// The inbound read branch of the race completed: `true` when one unit
    /// arrived, `false` when the read failed.
    InboundRead(bool),
    /// The broadcast receive branch of the race completed: the published
    /// unit, or `None` when the subscription closed or was overrun.
    BroadcastRecv(Option<Vec<u8>>),
    /// The request cycle finished: `true` when the publish of the response
    /// succeeded.
    PublishDone(bool),
    /// Writing and flushing the received unit finished: `true` when both
    /// succeeded.
    WriteFlushDone(bool),
    /// The connection's abort signal fired.
    AbortSignaled,
    /// The connection's closed signal fired.
    ClosedSignaled,
}

/// What the executor must do next.
pub enum Directive {
    /// Race the inbound read against the broadcast receive and report the
    /// winner.
    AwaitSelect,
    /// Invoke the request callback, publish the connection's response body
    /// to the target's channel, invoke the sent callback, and report
    /// whether the publish succeeded.
    RunRequestCycle,
    /// Invoke the closed callback, then wait for the abort signal.
    NotifyClosedThenAwaitAbort,
    /// Write the unit out to the transport, flush, and report whether both
    /// succeeded.
    WriteAndFlush(Vec<u8>),
    /// Wait for the abort signal.
    AwaitAbort,
    /// Wait for the closed signal.
    AwaitClosed,
    /// Teardown is complete: return from the loop.
    Finish,
}

/// Whether the event is one the phase can receive.
pub open spec fn event_fits(phase: LoopPhase, e: LoopEvent) -> bool {
    match (phase, e) {
        (LoopPhase::Selecting, LoopEvent::InboundRead(_)) => true,
        (LoopPhase::Selecting, LoopEvent::BroadcastRecv(_)) => true,
        (LoopPhase::Requesting, LoopEvent::PublishDone(_)) => true,
        (LoopPhase::Writing, LoopEvent::WriteFlushDone(_)) => true,
        (LoopPhase::AwaitingAbort, LoopEvent::AbortSignaled) => true,
        (LoopPhase::AwaitingClosed, LoopEvent::ClosedSignaled) => true,
        _ => false,
    }
}

/// The phase that follows an event. The loop returns to the race after any
/// non-terminal outcome of either branch and becomes terminal the moment
/// either branch fails; the two teardown waits follow in a fixed order.
pub open spec fn next_phase(phase: LoopPhase, e: LoopEvent) -> LoopPhase {
    match (phase, e) {
        (LoopPhase::Selecting, LoopEvent::InboundRead(ok)) => if ok {
            LoopPhase::Requesting
        } else {
            LoopPhase::AwaitingAbort
        },
        (LoopPhase::Selecting, LoopEvent::BroadcastRecv(msg)) => if msg is Some {
            LoopPhase::Writing
        } else {
            LoopPhase::AwaitingAbort
        },
        (LoopPhase::Requesting, LoopEvent::PublishDone(ok)) => if ok {
            LoopPhase::Selecting
        } else {
            LoopPhase::AwaitingAbort
        },
        (LoopPhase::Writing, LoopEvent::WriteFlushDone(ok)) => if ok {
            LoopPhase::Selecting
        } else {
            LoopPhase::AwaitingAbort
        },
        (LoopPhase::AwaitingAbort, LoopEvent::AbortSignaled) => LoopPhase::AwaitingClosed,
        (LoopPhase::AwaitingClosed, LoopEvent::ClosedSignaled) => LoopPhase::Done,
        (p, _) => p,
    }
}

/// The termination reason recorded by an event: set once, by the first
/// terminal outcome, and never changed afterwards.
pub open spec fn next_reason(
    phase: LoopPhase,
    reason: Option<TerminationReason>,
    e: LoopEvent,
) -> Option<TerminationReason> {
    match (phase, e) {
        (LoopPhase::Selecting, LoopEvent::InboundRead(ok)) => if ok {
            reason
        } else {
            Some(TerminationReason::PeerDisconnected)
        },
        (LoopPhase::Selecting, LoopEvent::BroadcastRecv(msg)) => if msg is Some {
            reason
        } else {
            Some(TerminationReason::SubscriptionClosed)
        },
        (LoopPhase::Requesting, LoopEvent::PublishDone(ok)) => if ok {
            reason
        } else {
            Some(TerminationReason::PublishFailed)
        },
        (LoopPhase::Writing, LoopEvent::WriteFlushDone(ok)) => if ok {
            reason
        } else {
            Some(TerminationReason::WriteFailed)
        },
        _ => reason,
    }
}

/// Whether the phase is terminal: the loop has decided to stop and only
/// teardown work remains.
pub open spec fn is_terminal(phase: LoopPhase) -> bool {
    match phase {
        LoopPhase::AwaitingAbort | LoopPhase::AwaitingClosed | LoopPhase::Done => true,
        _ => false,
    }
}

/// The directive owed to an event received in a phase.
pub open spec fn directive_fits(phase: LoopPhase, e: LoopEvent, d: Directive) -> bool {
    match (phase, e) {
        (LoopPhase::Selecting, LoopEvent::InboundRead(ok)) => if ok {
            d is RunRequestCycle
        } else {
            d is NotifyClosedThenAwaitAbort
        },
        (LoopPhase::Selecting, LoopEvent::BroadcastRecv(msg)) => match msg {
            Some(m) => d matches Directive::WriteAndFlush(w) && w@ == m@,
            None => d is AwaitAbort,
        },
        (LoopPhase::Requesting, LoopEvent::PublishDone(ok)) => if ok {
            d is AwaitSelect
        } else {
            d is AwaitAbort
        },
        (LoopPhase::Writing, LoopEvent::WriteFlushDone(ok)) => if ok {
            d is AwaitSelect
        } else {
            d is AwaitAbort
        },
        (LoopPhase::AwaitingAbort, LoopEvent::AbortSignaled) => d is AwaitClosed,
        (LoopPhase::AwaitingClosed, LoopEvent::ClosedSignaled) => d is Finish,
        _ => false,
    }
}

/// The run loop's decision state: the phase, and the reason the loop
/// turned terminal, recorded by the first terminal outcome.
pub struct RunLoop {
    pub phase: LoopPhase,
    pub reason: Option<TerminationReason>,
}

impl RunLoop {
    /// A reason stands recorded exactly from the first terminal outcome
    /// on.
    pub open spec fn well_formed(self) -> bool {
        (self.reason is Some) <==> is_terminal(self.phase)
    }

    /// A fresh loop: racing the two branches, no terminal outcome yet.
    pub fn new() -> (r: RunLoop)
        ensures
            r.well_formed(),
            r.phase == LoopPhase::Selecting,
            r.reason is None,
    {
        RunLoop { phase: LoopPhase::Selecting, reason: None }
    }

    /// Takes one event and decides the next directive. The phase moves as
    /// `next_phase` says, the first terminal outcome records its reason as
    /// `next_reason` says, and the directive returned is the one
    /// `directive_fits` owes to the event.
    pub fn step(&mut self, event: LoopEvent) -> (d: Directive)
        requires
            old(self).well_formed(),
            event_fits(old(self).phase, event),
        ensures
            final(self).well_formed(),
            final(self).phase == next_phase(old(self).phase, event),
            final(self).reason == next_reason(old(self).phase, old(self).reason, event),
            directive_fits(old(self).phase, event, d),
    {
        match event {
            LoopEvent::InboundRead(ok) => {
                if ok {
                    self.phase = LoopPhase::Requesting;
                    Directive::RunRequestCycle
                } else {
                    self.phase = LoopPhase::AwaitingAbort;
                    self.reason = Some(TerminationReason::PeerDisconnected);
                    Directive::NotifyClosedThenAwaitAbort
                }
            },
            LoopEvent::BroadcastRecv(msg) => {
                match msg {
                    Some(unit) => {
                        self.phase = LoopPhase::Writing;
                        Directive::WriteAndFlush(unit)
                    },
                    None => {
                        self.phase = LoopPhase::AwaitingAbort;
                        self.reason = Some(TerminationReason::SubscriptionClosed);
                        Directive::AwaitAbort
                    },
                }
            },
            LoopEvent::PublishDone(ok) => {
                if ok {
                    self.phase = LoopPhase::Selecting;
                    Directive::AwaitSelect
                } else {
                    self.phase = LoopPhase::AwaitingAbort;
                    self.reason = Some(TerminationReason::PublishFailed);
                    Directive::AwaitAbort
                }
            },
            LoopEvent::WriteFlushDone(ok) => {
                if ok {
                    self.phase = LoopPhase::Selecting;
                    Directive::AwaitSelect
                } else {
                    self.phase = LoopPhase::AwaitingAbort;
                    self.reason = Some(TerminationReason::WriteFailed);
                    Directive::AwaitAbort
                }
            },
            LoopEvent::AbortSignaled => {
                self.phase = LoopPhase::AwaitingClosed;
                Directive::AwaitClosed
            },
            LoopEvent::ClosedSignaled => {
                self.phase = LoopPhase::Done;
                Directive::Finish
            },
        }
    }
}

/// Teardown is unconditional and ordered: whatever event makes the loop
/// terminal, the machine reaches `Done` only through the abort-signal wait
/// followed by the closed-signal wait, and a terminal phase never returns
/// to a running one.
pub proof fn lemma_teardown_ordered(phase: LoopPhase, e: LoopEvent)
    requires
        event_fits(phase, e),
    ensures
        is_terminal(phase) ==> is_terminal(next_phase(phase, e)),
        next_phase(phase, e) == LoopPhase::Done ==> phase == LoopPhase::AwaitingClosed && e
            == LoopEvent::ClosedSignaled,
        next_phase(phase, e) == LoopPhase::AwaitingClosed ==> phase == LoopPhase::AwaitingAbort
            && e == LoopEvent::AbortSignaled,
{
}

/// A recorded termination reason never changes: later events leave it as
/// the first terminal outcome set it.
pub proof fn lemma_reason_stable(
    phase: LoopPhase,
    reason: Option<TerminationReason>,
    e: LoopEvent,
)
    requires
        event_fits(phase, e),
        is_terminal(phase),
    ensures
        next_reason(phase, reason, e) == reason,
{
}

} // verus!
