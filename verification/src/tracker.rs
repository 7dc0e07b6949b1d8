//! The tracking actor: repeated discovery rounds, published results.
//!
//! The actor is a state machine ([`TrackerState`]): the caller waits on
//! whichever operation the current phase calls for — the chain-head source,
//! one discovery round, the cooldown timer, always together with the
//! cancellation signal — and feeds the completed operation in as a
//! [`TrackerEvent`]. The returned [`TrackerOutput`] says what to publish,
//! what to log, and what to wait on next. Published seqnos never decrease:
//! a round whose result would move backwards is discarded, never published.

use vstd::prelude::*;
use crate::block::{BlockHeader, BlockId};
use crate::finder::{LookupError, SearchBounds};

verus! {

/// The width of the seqno hint window handed to the next round after a
/// successful one: the boundary is expected at or slightly above the
/// previous result.
pub const HINT_WINDOW: u32 = 32;

/// How long the actor rests after a successful round, in seconds, so that
/// successful rounds are throttled while failed ones retry promptly.
pub const COOLDOWN_SECS: u64 = 30;

/// What the actor is waiting on.
#[derive(Clone, Copy, Debug, PartialEq, Eq, Structural)]
pub enum TrackerPhase {
    /// No chain head is known yet; waiting on the chain-head source alone.
    AwaitingChainHead,
    /// A discovery round is in flight.
    Discovering,
    /// Resting after a successful round until the cooldown elapses.
    Idle,
    /// The cancellation signal was observed: terminal, no further work.
    Cancelled,
}

/// A completed operation, fed into the actor.
#[derive(Clone, Copy, Debug)]
pub enum TrackerEvent {
    /// The cancellation signal fired. Takes priority over any phase.
    Cancel,
    /// The chain-head source produced the current chain head.
    ChainHeadOk(BlockId),
    /// The chain-head source failed.
    ChainHeadFailed,
    /// The discovery round in flight found the earliest fetchable header.
    RoundOk(BlockHeader),
    /// The discovery round in flight aborted.
    RoundFailed(LookupError),
    /// The cooldown timer elapsed.
    CooldownOver,
}

/// What the caller should wait on next.
#[derive(Clone, Copy, Debug)]
pub enum TrackerAction {
    /// Wait for the chain-head source.
    WaitChainHead,
    /// Run one discovery round from `anchor`, narrowed by `bounds`.
    StartRound { anchor: BlockId, bounds: Option<SearchBounds> },
    /// Sleep for [`COOLDOWN_SECS`].
    Cooldown,
    /// Keep waiting on whatever was already pending.
    Continue,
    /// Terminate: the actor is done.
    Stop,
}

/// What the actor reports about a step, with enough context to diagnose it.
#[derive(Clone, Copy, Debug)]
pub enum TrackerLog {
    /// The chain-head source failed; the round is deferred.
    ChainHeadUnavailable,
    /// A discovery round aborted; it is retried at once.
    DiscoveryFailed(LookupError),
    /// A round returned a seqno below the published one; the stale result
    /// was discarded rather than published.
    StaleResultDiscarded,
    /// The cancellation signal was observed; the actor stops.
    Stopping,
}

/// One step's effect: at most one published value, at most one log entry,
/// and the next thing to wait on.
#[derive(Clone, Copy, Debug)]
pub struct TrackerOutput {
    /// The newly discovered earliest fetchable header, if this step
    /// publishes one.
    pub publish: Option<BlockHeader>,
    /// What to log about this step, if anything.
    pub log: Option<TrackerLog>,
    /// What to wait on next.
    pub next: TrackerAction,
}

/// The actor's state between steps.
#[derive(Clone, Copy, Debug)]
pub struct TrackerState {
    /// What the actor is waiting on.
    pub phase: TrackerPhase,
    /// The last chain head received, used as the next round's anchor.
    pub head: Option<BlockId>,
    /// The seqno of the last published header; never decreases.
    pub published: Option<u32>,
}

/// The seqno window handed to the next round: none before the first
/// success, afterwards `[previous, previous + HINT_WINDOW]` — the boundary
/// only moves forward, and slowly.
pub open spec fn hint_for(published: Option<u32>) -> Option<SearchBounds> {
    match published {
        None => None,
        Some(p) => Some(
            SearchBounds {
                low: p,
                high: if p + HINT_WINDOW <= u32::MAX {
                    (p + HINT_WINDOW) as u32
                } else {
                    u32::MAX
                },
            },
        ),
    }
}

/// A step on an event the current phase does not await: nothing changes,
/// nothing is published, the pending wait goes on.
pub open spec fn ignore_event(s: TrackerState) -> (TrackerState, TrackerOutput) {
    (s, TrackerOutput { publish: None, log: None, next: TrackerAction::Continue })
}

/// The actor's transition function. Cancellation wins from every phase; a
/// successful round publishes its header unless the seqno would move
/// backwards, and is followed by the cooldown; a failed round is retried at
/// once; a chain-head failure leaves the actor awaiting the chain head.
pub open spec fn tracker_step(s: TrackerState, event: TrackerEvent) -> (TrackerState, TrackerOutput) {
    match event {
        TrackerEvent::Cancel => (
            TrackerState { phase: TrackerPhase::Cancelled, ..s },
            TrackerOutput {
                publish: None,
                log: Some(TrackerLog::Stopping),
                next: TrackerAction::Stop,
            },
        ),
        TrackerEvent::ChainHeadOk(id) => match s.phase {
            TrackerPhase::AwaitingChainHead => (
                TrackerState { phase: TrackerPhase::Discovering, head: Some(id), ..s },
                TrackerOutput {
                    publish: None,
                    log: None,
                    next: TrackerAction::StartRound { anchor: id, bounds: hint_for(s.published) },
                },
            ),
            // a head update does not preempt the cooldown; it is simply the
            // anchor the next round will use
            TrackerPhase::Idle => (
                TrackerState { head: Some(id), ..s },
                TrackerOutput { publish: None, log: None, next: TrackerAction::Continue },
            ),
            _ => ignore_event(s),
        },
        TrackerEvent::ChainHeadFailed => match s.phase {
            TrackerPhase::AwaitingChainHead => (
                s,
                TrackerOutput {
                    publish: None,
                    log: Some(TrackerLog::ChainHeadUnavailable),
                    next: TrackerAction::WaitChainHead,
                },
            ),
            _ => ignore_event(s),
        },
        TrackerEvent::RoundOk(header) => match s.phase {
            TrackerPhase::Discovering => if s.published matches Some(p) && header.id.seqno < p {
                (
                    TrackerState { phase: TrackerPhase::Idle, ..s },
                    TrackerOutput {
                        publish: None,
                        log: Some(TrackerLog::StaleResultDiscarded),
                        next: TrackerAction::Cooldown,
                    },
                )
            } else {
                (
                    TrackerState {
                        phase: TrackerPhase::Idle,
                        published: Some(header.id.seqno),
                        ..s
                    },
                    TrackerOutput {
                        publish: Some(header),
                        log: None,
                        next: TrackerAction::Cooldown,
                    },
                )
            },
            _ => ignore_event(s),
        },
        TrackerEvent::RoundFailed(e) => match s.phase {
            TrackerPhase::Discovering => match s.head {
                Some(anchor) => (
                    s,
                    TrackerOutput {
                        publish: None,
                        log: Some(TrackerLog::DiscoveryFailed(e)),
                        next: TrackerAction::StartRound {
                            anchor,
                            bounds: hint_for(s.published),
                        },
                    },
                ),
                None => ignore_event(s),
            },
            _ => ignore_event(s),
        },
        TrackerEvent::CooldownOver => match s.phase {
            TrackerPhase::Idle => match s.head {
                Some(anchor) => (
                    TrackerState { phase: TrackerPhase::Discovering, ..s },
                    TrackerOutput {
                        publish: None,
                        log: None,
                        next: TrackerAction::StartRound {
                            anchor,
                            bounds: hint_for(s.published),
                        },
                    },
                ),
                None => ignore_event(s),
            },
            _ => ignore_event(s),
        },
    }
}

impl TrackerState {
    /// Well-formedness: before the first chain head arrives nothing can
    /// have been discovered, and a round or a cooldown always has an anchor
    /// to fall back on.
    pub open spec fn wf(self) -> bool {
        &&& self.phase is AwaitingChainHead ==> self.head is None && self.published is None
        &&& (self.phase is Discovering || self.phase is Idle) ==> self.head is Some
    }

    /// Which events the current phase awaits; cancellation always.
    pub open spec fn event_allowed(self, event: TrackerEvent) -> bool {
        match event {
            TrackerEvent::Cancel => true,
            TrackerEvent::ChainHeadOk(_) => self.phase is AwaitingChainHead
                || self.phase is Idle,
            TrackerEvent::ChainHeadFailed => self.phase is AwaitingChainHead,
            TrackerEvent::RoundOk(_) => self.phase is Discovering,
            TrackerEvent::RoundFailed(_) => self.phase is Discovering,
            TrackerEvent::CooldownOver => self.phase is Idle,
        }
    }

    /// A fresh actor: no chain head, nothing published, waiting on the
    /// chain-head source.
    pub fn new() -> (s: TrackerState)
        ensures
            s.wf(),
            s == (TrackerState {
                phase: TrackerPhase::AwaitingChainHead,
                head: None::<BlockId>,
                published: None::<u32>,
            }),
    {
        TrackerState { phase: TrackerPhase::AwaitingChainHead, head: None, published: None }
    }

    /// Feeds one completed operation into the actor, following
    /// [`tracker_step`] exactly.
    pub fn on_event(&mut self, event: TrackerEvent) -> (out: TrackerOutput)
        requires
            old(self).wf(),
            old(self).event_allowed(event),
        ensures
            final(self).wf(),
            (*final(self), out) == tracker_step(*old(self), event),
            // cancellation wins from every phase, and publishes nothing
            event is Cancel ==> final(self).phase is Cancelled && out.publish is None
                && out.next is Stop,
            // published seqnos never decrease
            out.publish matches Some(h) ==> final(self).published == Some(h.id.seqno)
                && (old(self).published matches Some(p) ==> p <= h.id.seqno),
            out.publish is None ==> final(self).published == old(self).published,
            // a chain-head failure is logged and leaves the actor where it was
            old(self).phase is AwaitingChainHead && event is ChainHeadFailed
                ==> *final(self) == *old(self)
                    && out.log == Some(TrackerLog::ChainHeadUnavailable)
                    && out.next is WaitChainHead,
            // a failed round is logged and retried at once, with the same anchor
            event matches TrackerEvent::RoundFailed(e)
                ==> (old(self).phase is Discovering
                    ==> *final(self) == *old(self)
                        && out.log == Some(TrackerLog::DiscoveryFailed(e))
                        && out.next == (TrackerAction::StartRound {
                            anchor: old(self).head->Some_0,
                            bounds: hint_for(old(self).published),
                        })),
            // a successful round rests for the cooldown before the next one
            event matches TrackerEvent::RoundOk(h)
                ==> (old(self).phase is Discovering ==> final(self).phase is Idle
                    && out.next is Cooldown),
            // a result that would move the published seqno backwards is
            // discarded, logged, and leaves the published value alone
            event matches TrackerEvent::RoundOk(h) ==> (old(self).published matches Some(p)
                ==> (old(self).phase is Discovering && h.id.seqno < p
                    ==> out.publish is None
                        && out.log == Some(TrackerLog::StaleResultDiscarded)
                        && final(self).published == old(self).published)),
            // otherwise a successful round's header is published as it came
            event matches TrackerEvent::RoundOk(h)
                ==> (old(self).phase is Discovering
                    && (old(self).published is None
                        || old(self).published->Some_0 <= h.id.seqno)
                    ==> out.publish == Some(h)),
    {
        match event {
            TrackerEvent::Cancel => {
                self.phase = TrackerPhase::Cancelled;
                TrackerOutput {
                    publish: None,
                    log: Some(TrackerLog::Stopping),
                    next: TrackerAction::Stop,
                }
            },
            TrackerEvent::ChainHeadOk(id) => {
                if matches!(self.phase, TrackerPhase::AwaitingChainHead) {
                    self.phase = TrackerPhase::Discovering;
                    self.head = Some(id);
                    TrackerOutput {
                        publish: None,
                        log: None,
                        next: TrackerAction::StartRound {
                            anchor: id,
                            bounds: Self::hint_bounds(self.published),
                        },
                    }
                } else {
                    self.head = Some(id);
                    TrackerOutput { publish: None, log: None, next: TrackerAction::Continue }
                }
            },
            TrackerEvent::ChainHeadFailed => TrackerOutput {
                publish: None,
                log: Some(TrackerLog::ChainHeadUnavailable),
                next: TrackerAction::WaitChainHead,
            },
            TrackerEvent::RoundOk(header) => {
                let stale = match self.published {
                    Some(p) => header.id.seqno < p,
                    None => false,
                };
                self.phase = TrackerPhase::Idle;
                if stale {
                    TrackerOutput {
                        publish: None,
                        log: Some(TrackerLog::StaleResultDiscarded),
                        next: TrackerAction::Cooldown,
                    }
                } else {
                    self.published = Some(header.id.seqno);
                    TrackerOutput {
                        publish: Some(header),
                        log: None,
                        next: TrackerAction::Cooldown,
                    }
                }
            },
            TrackerEvent::RoundFailed(e) => {
                let anchor = match self.head {
                    Some(a) => a,
                    None => {
                        proof {
                            assert(false);
                        }
                        BlockId { workchain: 0, shard: 0, seqno: 0 }
                    },
                };
                TrackerOutput {
                    publish: None,
                    log: Some(TrackerLog::DiscoveryFailed(e)),
                    next: TrackerAction::StartRound {
                        anchor,
                        bounds: Self::hint_bounds(self.published),
                    },
                }
            },
            TrackerEvent::CooldownOver => {
                let anchor = match self.head {
                    Some(a) => a,
                    None => {
                        proof {
                            assert(false);
                        }
                        BlockId { workchain: 0, shard: 0, seqno: 0 }
                    },
                };
                self.phase = TrackerPhase::Discovering;
                TrackerOutput {
                    publish: None,
                    log: None,
                    next: TrackerAction::StartRound {
                        anchor,
                        bounds: Self::hint_bounds(self.published),
                    },
                }
            },
        }
    }

    /// Computes [`hint_for`] in executable code.
    fn hint_bounds(published: Option<u32>) -> (r: Option<SearchBounds>)
        ensures
            r == hint_for(published),
    {
        match published {
            None => None,
            Some(p) => {
                let high = if p <= u32::MAX - HINT_WINDOW { p + HINT_WINDOW } else { u32::MAX };
                Some(SearchBounds { low: p, high })
            },
        }
    }
}

/// The seqnos published while feeding a sequence of events, in publication
/// order.
pub open spec fn published_during(s: TrackerState, events: Seq<TrackerEvent>) -> Seq<u32>
    decreases events.len(),
{
    if events.len() == 0 {
        Seq::empty()
    } else {
        let first = tracker_step(s, events[0]);
        let rest = published_during(first.0, events.drop_first());
        match first.1.publish {
            Some(h) => seq![h.id.seqno] + rest,
            None => rest,
        }
    }
}

/// A seqno sequence that never decreases.
pub open spec fn non_decreasing(q: Seq<u32>) -> bool {
    forall|i: int, j: int| 0 <= i <= j < q.len() ==> q[i] <= q[j]
}

/// Monotonicity: whatever events the actor is fed, in whatever order, the
/// published seqnos it emits never decrease — and never fall below what was
/// already published when the run began.
pub proof fn lemma_published_monotone(s: TrackerState, events: Seq<TrackerEvent>)
    ensures
        non_decreasing(published_during(s, events)),
        s.published matches Some(p) ==> forall|i: int|
            0 <= i < published_during(s, events).len()
                ==> p <= #[trigger] published_during(s, events)[i],
    decreases events.len(),
{
    if events.len() > 0 {
        let first = tracker_step(s, events[0]);
        let rest = published_during(first.0, events.drop_first());
        lemma_published_monotone(first.0, events.drop_first());
        match first.1.publish {
            Some(h) => {
                assert(first.0.published == Some(h.id.seqno));
                assert(forall|i: int| 0 <= i < rest.len() ==> h.id.seqno <= #[trigger] rest[i]);
                assert(published_during(s, events) == seq![h.id.seqno] + rest);
                assert(forall|i: int|
                    0 <= i < published_during(s, events).len()
                        ==> published_during(s, events)[i] == (seq![h.id.seqno] + rest)[i]);
            },
            None => {
                assert(first.0.published == s.published);
            },
        }
    }
}

} // verus!
