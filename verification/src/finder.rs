//! Binary-search discovery of the earliest fetchable block.
//!
//! A server may prune old history at any time, so there is a boundary seqno
//! `b`: blocks at or above `b` can still be fetched, blocks below it cannot.
//! [`Finder`] locates that boundary by bisection. It is a state machine: the
//! caller asks [`Finder::next_probe`] which seqno to look up, performs the
//! remote lookup, and hands the classified reply to [`Finder::on_probe`],
//! until [`Finder::result`] yields the earliest fetchable header or the
//! error that aborted the round.

use vstd::prelude::*;
use vstd::arithmetic::mul::{lemma_mul_inequality, lemma_mul_is_associative};
use vstd::arithmetic::power2::{lemma2_to64, lemma_pow2_unfold, pow2};
use crate::block::{BlockHeader, BlockId, GENESIS_SEQNO};

verus! {

/// How many times one probe is attempted before a transient failure aborts
/// the whole round: the first try plus the retries after a short delay.
pub const PROBE_ATTEMPTS: u32 = 3;

/// How long to pause before retrying a probe that failed transiently, in
/// milliseconds.
pub const RETRY_DELAY_MS: u64 = 500;

/// Why a lookup, or a whole discovery round, failed.
#[derive(Clone, Copy, Debug, PartialEq, Eq, Structural)]
pub enum LookupError {
    /// The block is gone: the server has pruned it. During a search this is
    /// an expected signal that narrows the window, not an error.
    Pruned,
    /// A transport failure (timeout, disconnect): worth retrying.
    Transient,
    /// A malformed or unexpected response: retried like a transient failure
    /// but logged at higher severity.
    Protocol,
}

/// The classified outcome of one remote lookup.
#[derive(Clone, Copy, Debug)]
pub enum ProbeOutcome {
    /// The block exists and its header came back.
    Fetchable(BlockHeader),
    /// The lookup failed, as classified by [`LookupError`].
    Failed(LookupError),
}

/// An optional seqno window `[low, high]` believed to contain the boundary.
/// It is a hint, not a guarantee: the search tolerates it being wrong in
/// either direction.
#[derive(Clone, Copy, Debug, PartialEq, Eq, Structural)]
pub struct SearchBounds {
    /// The boundary is believed to be at or above this seqno.
    pub low: u32,
    /// Some block at or below this seqno is believed fetchable.
    pub high: u32,
}

/// Which probe the search is waiting on, or how it ended.
#[derive(Clone, Copy, Debug, PartialEq, Eq, Structural)]
pub enum FinderPhase {
    /// Probing the hint window's high end, hoping to shortcut the search.
    HintHigh,
    /// Probing just below the hint window's low end, to confirm the window.
    HintLow,
    /// Probing the midpoint of the open window `(lo, hi)`.
    Bisect,
    /// The window is closed; fetching the header of `hi` itself.
    Fetch,
    /// Finished: the earliest fetchable header is known.
    Done,
    /// Aborted by repeated failures; the round may be retried by the caller.
    Aborted(LookupError),
}

/// The binary-search state machine.
///
/// Invariant ([`Finder::wf`]): every seqno in `(lo, hi]` may still hold the
/// boundary; `hi` is believed fetchable, `lo` is believed not to be (or is
/// the genesis seqno). Each decisive probe shrinks the window until
/// `hi - lo <= 1`, at which point `hi` is the earliest fetchable block.
pub struct Finder {
    /// The block the search was anchored on: known fetchable, so the
    /// boundary is at or below its seqno.
    pub anchor: BlockId,
    /// Believed unfetchable (or genesis); strictly below the boundary.
    pub lo: u32,
    /// Believed fetchable; the boundary is at or below it.
    pub hi: u32,
    /// The hint window's low end, while a hint phase is active.
    pub hint_low: u32,
    /// The hint window's high end, while a hint phase is active.
    pub hint_high: u32,
    /// Consecutive failed attempts at the current probe.
    pub attempts: u32,
    /// The header of `hi`, once some probe has returned it.
    pub found: Option<BlockHeader>,
    /// What the search is waiting on, or how it ended.
    pub phase: FinderPhase,
    /// How many decisive probes the bisection has made so far.
    pub probes: Ghost<nat>,
    /// The window size when the bisection began.
    pub span0: Ghost<nat>,
}

/// Holds when one lookup reply agrees with a fetchability boundary at
/// `boundary`: a fetchable reply means the probed seqno is at or above the
/// boundary, a pruned reply means it is below; transport failures say
/// nothing about the boundary.
pub open spec fn outcome_consistent(outcome: ProbeOutcome, probed: u32, boundary: u32) -> bool {
    match outcome {
        ProbeOutcome::Fetchable(_) => boundary <= probed,
        ProbeOutcome::Failed(e) => e is Pruned ==> probed < boundary,
    }
}

/// One lookup reply carries the search from `before` to `after`: what
/// [`Finder::on_probe`] guarantees of every step it takes — both states are
/// well-formed, and every boundary that the window admitted and that the
/// reply is consistent with stays admitted.
pub open spec fn probe_transition(before: Finder, outcome: ProbeOutcome, after: Finder) -> bool {
    &&& before.wf()
    &&& before.is_probing()
    &&& after.wf()
    &&& forall|b: u32|
        before.tracks(b) && outcome_consistent(outcome, before.pending_seqno(), b)
            ==> #[trigger] after.tracks(b)
}

impl Finder {
    /// The search is still waiting on a lookup.
    pub open spec fn is_probing(self) -> bool {
        match self.phase {
            FinderPhase::HintHigh => true,
            FinderPhase::HintLow => true,
            FinderPhase::Bisect => true,
            FinderPhase::Fetch => true,
            FinderPhase::Done => false,
            FinderPhase::Aborted(_) => false,
        }
    }

    /// The seqno the pending lookup probes.
    pub open spec fn pending_seqno(self) -> u32
        recommends
            self.is_probing(),
    {
        match self.phase {
            FinderPhase::HintHigh => self.hint_high,
            FinderPhase::HintLow => ((self.hint_low - 1) as u32),
            FinderPhase::Bisect => ((self.lo + (self.hi - self.lo) / 2) as u32),
            _ => self.hi,
        }
    }

    /// Well-formedness: the bounds are ordered and below the anchor, any
    /// cached header belongs to `hi`, each phase's own bookkeeping holds,
    /// and while bisecting, a window of size `n` after `k` decisive probes
    /// satisfies `(n - 1) * 2^k <= span0 - 1`, which bounds the number of
    /// probes logarithmically.
    pub open spec fn wf(self) -> bool {
        &&& self.lo <= self.hi <= self.anchor.seqno
        &&& (self.found matches Some(h) ==> h.id.seqno == self.hi)
        &&& (self.is_probing() ==> self.attempts < PROBE_ATTEMPTS)
        &&& match self.phase {
            FinderPhase::HintHigh => self.lo < self.hint_high <= self.hi
                && self.hint_low <= self.hint_high,
            FinderPhase::HintLow => self.hint_low >= 1 && self.lo < self.hint_low - 1 < self.hi,
            FinderPhase::Bisect => {
                &&& self.hi - self.lo >= 2
                &&& self.span0@ >= 2
                &&& (self.hi - self.lo - 1) * pow2(self.probes@) <= self.span0@ - 1
            },
            FinderPhase::Fetch => self.hi - self.lo <= 1 && self.found is None,
            FinderPhase::Done => self.hi - self.lo <= 1 && self.found is Some,
            FinderPhase::Aborted(_) => true,
        }
    }

    /// The search still admits a fetchability boundary at `boundary`:
    /// everything the search has concluded so far places the boundary in
    /// `(lo, hi]`.
    pub open spec fn tracks(self, boundary: u32) -> bool {
        self.lo < boundary <= self.hi
    }

    /// Begins a search for the earliest fetchable block at or below the
    /// anchor. With no hint the whole range from genesis up to the anchor is
    /// bisected; a usable hint is probed first at its high end.
    pub fn start(anchor: BlockId, bounds: Option<SearchBounds>) -> (f: Finder)
        ensures
            f.wf(),
            f.is_probing(),
            f.anchor == anchor,
            f.lo == GENESIS_SEQNO && f.hi == anchor.seqno,
            f.found is None,
            forall|b: u32| GENESIS_SEQNO < b <= anchor.seqno ==> #[trigger] f.tracks(b),
            bounds is None ==> (f.phase is Bisect || f.phase is Fetch),
            f.phase is Bisect ==> f.probes@ == 0 && f.span0@ == f.hi - f.lo,
            bounds matches Some(w) ==> (w.high > GENESIS_SEQNO && anchor.seqno > GENESIS_SEQNO
                ==> f.phase is HintHigh
                    && f.hint_high == (if w.high <= anchor.seqno { w.high } else { anchor.seqno })
                    && f.hint_low == (if w.low <= f.hint_high { w.low } else { f.hint_high })),
    {
        let lo: u32 = GENESIS_SEQNO;
        let hi: u32 = anchor.seqno;
        if let Some(w) = bounds {
            let clamped_high: u32 = if w.high <= hi { w.high } else { hi };
            if clamped_high > lo {
                let clamped_low: u32 = if w.low <= clamped_high { w.low } else { clamped_high };
                return Finder {
                    anchor,
                    lo,
                    hi,
                    hint_low: clamped_low,
                    hint_high: clamped_high,
                    attempts: 0,
                    found: None,
                    phase: FinderPhase::HintHigh,
                    probes: Ghost(0),
                    span0: Ghost(0),
                };
            }
        }
        proof { lemma2_to64(); }
        Self::close_or_bisect(anchor, lo, hi, None, Ghost(0), Ghost((hi - lo) as nat))
    }

    /// Rebuilds the machine around a narrowed window: keeps bisecting while
    /// the window is open, otherwise settles on `hi` (already fetched, or
    /// fetched by one last lookup).
    fn close_or_bisect(
        anchor: BlockId,
        lo: u32,
        hi: u32,
        found: Option<BlockHeader>,
        probes: Ghost<nat>,
        span0: Ghost<nat>,
    ) -> (f: Finder)
        requires
            lo <= hi <= anchor.seqno,
            found matches Some(h) ==> h.id.seqno == hi,
            hi - lo >= 2 ==> span0@ >= 2 && (hi - lo - 1) * pow2(probes@) <= span0@ - 1,
        ensures
            f.wf(),
            f == (Finder {
                anchor,
                lo,
                hi,
                hint_low: 0,
                hint_high: 0,
                attempts: 0,
                found,
                phase: f.phase,
                probes,
                span0,
            }),
            f.phase == (if hi - lo >= 2 {
                FinderPhase::Bisect
            } else if found is Some {
                FinderPhase::Done
            } else {
                FinderPhase::Fetch
            }),
    {
        let phase = if hi - lo >= 2 {
            FinderPhase::Bisect
        } else if found.is_some() {
            FinderPhase::Done
        } else {
            FinderPhase::Fetch
        };
        Finder { anchor, lo, hi, hint_low: 0, hint_high: 0, attempts: 0, found, phase, probes, span0 }
    }

    /// Books one more failed attempt at the pending probe; after
    /// [`PROBE_ATTEMPTS`] consecutive failures the round aborts, with the
    /// window untouched.
    fn retry_or_abort(self, error: LookupError) -> (f: Finder)
        requires
            self.wf(),
            self.is_probing(),
        ensures
            f.wf(),
            f == (Finder { attempts: f.attempts, phase: f.phase, ..self }),
            self.attempts + 1 < PROBE_ATTEMPTS ==> f.phase == self.phase
                && f.attempts == self.attempts + 1,
            self.attempts + 1 >= PROBE_ATTEMPTS ==> f.phase == FinderPhase::Aborted(error),
    {
        if self.attempts + 1 < PROBE_ATTEMPTS {
            Finder { attempts: self.attempts + 1, ..self }
        } else {
            Finder { phase: FinderPhase::Aborted(error), ..self }
        }
    }

    /// The seqno the caller should look up next, or `None` once the search
    /// has finished or aborted.
    pub fn next_probe(&self) -> (r: Option<u32>)
        requires
            self.wf(),
        ensures
            r == (if self.is_probing() { Some(self.pending_seqno()) } else { None::<u32> }),
    {
        match self.phase {
            FinderPhase::HintHigh => Some(self.hint_high),
            FinderPhase::HintLow => Some(self.hint_low - 1),
            FinderPhase::Bisect => Some(self.lo + (self.hi - self.lo) / 2),
            FinderPhase::Fetch => Some(self.hi),
            FinderPhase::Done => None,
            FinderPhase::Aborted(_) => None,
        }
    }

    /// True while the pending probe is a retry, for which the caller should
    /// pause [`RETRY_DELAY_MS`] before looking up again.
    pub fn needs_retry_delay(&self) -> (r: bool)
        ensures
            r == (self.attempts > 0),
    {
        self.attempts > 0
    }

    /// Feeds the outcome of the pending lookup into the search.
    ///
    /// A fetchable reply for the probed seqno lowers `hi` to it; a pruned
    /// reply raises `lo` (except at the final fetch of `hi` itself, whose
    /// pruning aborts the round); transport failures and mismatched headers
    /// are retried in place, and abort the round after [`PROBE_ATTEMPTS`]
    /// consecutive failures without moving the window. Whatever the reply,
    /// every fetchability boundary consistent with all replies so far stays
    /// inside the window.
    pub fn on_probe(self, outcome: ProbeOutcome) -> (f: Finder)
        requires
            self.wf(),
            self.is_probing(),
        ensures
            f.wf(),
            f.anchor == self.anchor,
            probe_transition(self, outcome, f),
            forall|b: u32|
                self.tracks(b) && outcome_consistent(outcome, self.pending_seqno(), b)
                    ==> #[trigger] f.tracks(b),
            // a fetchable reply for the probed seqno pins the high bound to it
            outcome matches ProbeOutcome::Fetchable(h) ==> (h.id.seqno == self.pending_seqno()
                ==> f.lo == self.lo && f.hi == self.pending_seqno() && f.found == Some(h)
                    && !(f.phase is Aborted)),
            // after a fetchable reply the search goes on below the new high
            // bound: it first confirms the hint's low end where one is still
            // worth probing, else bisects while the window is open, else is done
            outcome matches ProbeOutcome::Fetchable(h) ==> (h.id.seqno == self.pending_seqno()
                ==> f.phase == (if self.phase is HintHigh && self.hint_low >= 1
                    && self.hint_low - 1 > self.lo && self.hint_low - 1 < self.pending_seqno() {
                    FinderPhase::HintLow
                } else if self.pending_seqno() - self.lo >= 2 {
                    FinderPhase::Bisect
                } else {
                    FinderPhase::Done
                })),
            // a transient or protocol failure never moves the window
            outcome matches ProbeOutcome::Failed(e) && !(e is Pruned)
                ==> f.lo == self.lo && f.hi == self.hi && f.found == self.found,
            outcome matches ProbeOutcome::Failed(e) ==> (!(e is Pruned)
                && self.attempts + 1 < PROBE_ATTEMPTS
                ==> f.phase == self.phase && f.attempts == self.attempts + 1),
            outcome matches ProbeOutcome::Failed(e) ==> (!(e is Pruned)
                && self.attempts + 1 >= PROBE_ATTEMPTS
                ==> f.phase == FinderPhase::Aborted(e)),
            // a header for some other seqno is a protocol failure, retried in place
            outcome matches ProbeOutcome::Fetchable(h) ==> (h.id.seqno != self.pending_seqno()
                ==> f.lo == self.lo && f.hi == self.hi && f.found == self.found
                    && (f.phase == self.phase
                        || f.phase == FinderPhase::Aborted(LookupError::Protocol))),
            // a pruned reply raises the low bound: to the probed seqno while
            // bisecting or confirming the hint's low end ...
            outcome matches ProbeOutcome::Failed(e) ==> (e is Pruned && !(self.phase is Fetch)
                ==> f.hi == self.hi && f.found == self.found && self.lo <= f.lo < f.hi),
            outcome matches ProbeOutcome::Failed(e) ==> (e is Pruned
                && (self.phase is Bisect || self.phase is HintLow)
                ==> f.lo == self.pending_seqno()),
            // ... after which the search bisects on while the window is open
            outcome matches ProbeOutcome::Failed(e) ==> (e is Pruned && !(self.phase is Fetch)
                ==> f.phase == (if f.hi - f.lo >= 2 {
                    FinderPhase::Bisect
                } else if f.found is Some {
                    FinderPhase::Done
                } else {
                    FinderPhase::Fetch
                })),
            // ... and to the hint's own low end when the whole hint window is gone
            outcome matches ProbeOutcome::Failed(e) ==> (e is Pruned && self.phase is HintHigh
                && self.lo < self.hint_low < self.hi ==> f.lo == self.hint_low),
            // pruning of `hi` itself means the anchor is gone: the round aborts
            outcome matches ProbeOutcome::Failed(e) ==> (e is Pruned && self.phase is Fetch
                ==> f == (Finder { phase: FinderPhase::Aborted(LookupError::Pruned), ..self })),
            // once done, the window is closed on the found header
            f.phase is Done ==> (f.found matches Some(h) && h.id.seqno == f.hi
                && f.hi - f.lo <= 1),
            // bisection bookkeeping: the span is fixed when bisection begins
            self.phase is Bisect && f.phase is Bisect ==> f.span0 == self.span0,
            !(self.phase is Bisect) && f.phase is Bisect ==> f.probes@ == 0
                && f.span0@ == f.hi - f.lo,
    {
        match outcome {
            ProbeOutcome::Fetchable(header) => {
                let pending = match self.phase {
                    FinderPhase::HintHigh => self.hint_high,
                    FinderPhase::HintLow => self.hint_low - 1,
                    FinderPhase::Bisect => self.lo + (self.hi - self.lo) / 2,
                    _ => self.hi,
                };
                if header.id.seqno != pending {
                    // the server answered about some other block: malformed
                    return self.retry_or_abort(LookupError::Protocol);
                }
                let new_hi = pending;
                if matches!(self.phase, FinderPhase::HintHigh) && self.hint_low >= 1
                    && self.hint_low - 1 > self.lo && self.hint_low - 1 < new_hi {
                    // the window's high end held a block; now confirm that
                    // the boundary is not below the window's low end
                    return Finder {
                        hi: new_hi,
                        found: Some(header),
                        attempts: 0,
                        phase: FinderPhase::HintLow,
                        ..self
                    };
                }
                proof {
                    lemma2_to64();
                    if self.phase is Bisect && new_hi - self.lo >= 2 {
                        self.lemma_halved_window(new_hi - self.lo);
                    }
                }
                let (probes, span0): (Ghost<nat>, Ghost<nat>) = if matches!(
                    self.phase,
                    FinderPhase::Bisect,
                ) {
                    (Ghost(self.probes@ + 1), self.span0)
                } else {
                    (Ghost(0), Ghost((new_hi - self.lo) as nat))
                };
                Self::close_or_bisect(self.anchor, self.lo, new_hi, Some(header), probes, span0)
            },
            ProbeOutcome::Failed(error) => {
                if !matches!(error, LookupError::Pruned) {
                    return self.retry_or_abort(error);
                }
                match self.phase {
                    FinderPhase::HintHigh => {
                        // the whole hint window is gone; restart the wide
                        // search above its low end
                        let new_lo = if self.hint_low > self.lo && self.hint_low < self.hi {
                            self.hint_low
                        } else if self.hint_low >= self.hi {
                            self.hi - 1
                        } else {
                            self.lo
                        };
                        proof { lemma2_to64(); }
                        Self::close_or_bisect(
                            self.anchor,
                            new_lo,
                            self.hi,
                            self.found,
                            Ghost(0),
                            Ghost((self.hi - new_lo) as nat),
                        )
                    },
                    FinderPhase::HintLow => {
                        let new_lo = self.hint_low - 1;
                        proof { lemma2_to64(); }
                        Self::close_or_bisect(
                            self.anchor,
                            new_lo,
                            self.hi,
                            self.found,
                            Ghost(0),
                            Ghost((self.hi - new_lo) as nat),
                        )
                    },
                    FinderPhase::Bisect => {
                        let new_lo = self.lo + (self.hi - self.lo) / 2;
                        proof {
                            if self.hi - new_lo >= 2 {
                                self.lemma_halved_window(self.hi - new_lo);
                            }
                        }
                        Self::close_or_bisect(
                            self.anchor,
                            new_lo,
                            self.hi,
                            self.found,
                            Ghost(self.probes@ + 1),
                            self.span0,
                        )
                    },
                    _ => {
                        // only the final fetch of `hi` is left, and `hi` is
                        // gone too: the anchor itself must have been pruned
                        Finder { phase: FinderPhase::Aborted(LookupError::Pruned), ..self }
                    },
                }
            },
        }
    }

    /// One decisive bisection probe at most halves the open window: if the
    /// window shrinks from `hi - lo` to `n2`, the bookkeeping inequality of
    /// [`Finder::wf`] carries over to `probes + 1`.
    proof fn lemma_halved_window(self, n2: int)
        requires
            self.wf(),
            self.phase is Bisect,
            2 <= n2,
            2 * n2 <= self.hi - self.lo + 1,
        ensures
            (n2 - 1) * pow2(self.probes@ + 1) <= self.span0@ - 1,
    {
        let n = self.hi - self.lo;
        let k = self.probes@;
        lemma_pow2_unfold(k + 1);
        assert(2 * (n2 - 1) <= n - 1);
        lemma_mul_inequality(2 * (n2 - 1), n - 1, pow2(k) as int);
        lemma_mul_is_associative(n2 - 1, 2, pow2(k) as int);
    }

    /// The finished search's result: the earliest fetchable header, or the
    /// error that aborted the round; `None` while probes are still pending.
    pub fn result(&self) -> (r: Option<Result<BlockHeader, LookupError>>)
        requires
            self.wf(),
        ensures
            self.phase is Done ==> r == Some(Result::<BlockHeader, LookupError>::Ok(
                self.found->Some_0,
            )),
            self.phase matches FinderPhase::Aborted(e) ==> r == Some(
                Result::<BlockHeader, LookupError>::Err(e),
            ),
            self.is_probing() ==> r is None,
    {
        match self.phase {
            FinderPhase::Done => match self.found {
                Some(h) => Some(Ok(h)),
                None => None,
            },
            FinderPhase::Aborted(e) => Some(Err(e)),
            _ => None,
        }
    }
}

/// Binary-search correctness: a search that finished, and whose replies all
/// agreed with a fetchability boundary at `b` (so the window still tracks
/// `b`), ended at exactly `b`: the found header is the header at seqno `b`.
pub proof fn lemma_done_finds_boundary(f: Finder, b: u32)
    requires
        f.wf(),
        f.phase is Done,
        f.tracks(b),
    ensures
        f.hi == b,
        f.found matches Some(h) && h.id.seqno == b,
{
}

/// Binary-search correctness over a whole round: take any run of the
/// search — a trace of states linked step by step as [`Finder::on_probe`]
/// guarantees, with every reply consistent with a fetchability boundary at
/// `b` — that begins with `b` admitted by the window and ends `Done`. Then
/// the search found exactly the block at `b`.
pub proof fn lemma_run_finds_boundary(trace: Seq<Finder>, outcomes: Seq<ProbeOutcome>, b: u32)
    requires
        trace.len() == outcomes.len() + 1,
        trace.first().wf(),
        trace.first().tracks(b),
        forall|i: int| 0 <= i < outcomes.len()
            ==> probe_transition(trace[i], #[trigger] outcomes[i], trace[i + 1]),
        forall|i: int| 0 <= i < outcomes.len()
            ==> outcome_consistent(#[trigger] outcomes[i], trace[i].pending_seqno(), b),
        trace.last().phase is Done,
    ensures
        trace.last().hi == b,
        trace.last().found matches Some(h) && h.id.seqno == b,
    decreases outcomes.len(),
{
    if outcomes.len() == 0 {
        lemma_done_finds_boundary(trace.first(), b);
    } else {
        let shorter_trace = trace.drop_first();
        let shorter_outcomes = outcomes.drop_first();
        assert(probe_transition(trace[0], outcomes[0], trace[0 as int + 1]));
        assert(shorter_trace.first() == trace[1]);
        assert(shorter_trace.first().tracks(b));
        assert forall|i: int| 0 <= i < shorter_outcomes.len() implies probe_transition(
            shorter_trace[i],
            #[trigger] shorter_outcomes[i],
            shorter_trace[i + 1],
        ) && outcome_consistent(
            shorter_outcomes[i],
            shorter_trace[i].pending_seqno(),
            b,
        ) by {
            assert(shorter_outcomes[i] == outcomes[i + 1]);
            assert(shorter_trace[i] == trace[i + 1]);
            assert(shorter_trace[i + 1] == trace[i + 2]);
            assert(probe_transition(trace[i + 1], outcomes[i + 1], trace[i + 1 + 1]));
            assert(outcome_consistent(outcomes[i + 1], trace[i + 1].pending_seqno(), b));
        }
        lemma_run_finds_boundary(shorter_trace, shorter_outcomes, b);
    }
}

/// Probe-count bound: while the bisection is still open, the number `k` of
/// decisive probes it has made satisfies `2^k <= span - 1` for the window
/// size `span` the bisection began with, so a search over a window of size
/// `span` bisects fewer than `log2(span) + 1` times.
pub proof fn lemma_bisect_probe_bound(f: Finder)
    requires
        f.wf(),
        f.phase is Bisect,
    ensures
        pow2(f.probes@) <= f.span0@ - 1,
{
    lemma_mul_inequality(1, f.hi - f.lo - 1, pow2(f.probes@) as int);
}

} // verus!
