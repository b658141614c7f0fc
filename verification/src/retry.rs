//! The submission/retry policy: one attempt per candidate block, target
//! block advancing by one from the height observed before the loop started,
//! stopping on the first inclusion or after the fixed attempt budget. The
//! network work of an attempt (build, submit, await) happens outside this
//! crate; this module decides what each attempt targets and when the run is
//! over.
use vstd::prelude::*;
use crate::config::MAX_ATTEMPTS;

verus! {

/// What the relay resolved one submission attempt to.
pub enum AttemptOutcome {
    /// The bundle's transactions were mined in the target block.
    Included {
        /// Hash of the included bundle.
        bundle_hash: Vec<u8>,
        /// Hashes of the bundle's transactions.
        tx_hashes: Vec<Vec<u8>>,
    },
    /// The bundle was not included in the target block.
    NotIncluded,
    /// The await phase resolved to some other error.
    Failed,
}

/// How a whole run ended: the terminal signal the caller receives instead
/// of having to read console text.
pub enum RunOutcome {
    /// Some attempt's bundle was mined in its target block.
    Included {
        /// Index of the successful attempt.
        attempt: u64,
        /// Hash of the included bundle.
        bundle_hash: Vec<u8>,
        /// Hashes of the bundle's transactions.
        tx_hashes: Vec<Vec<u8>>,
    },
    /// The attempt budget ran out with no inclusion; not an error.
    Exhausted,
}

/// The retry loop's state: the block height captured once before the loop
/// started, and how many attempts have been resolved so far.
pub struct RetrySession {
    /// Height observed before the first attempt; never changes.
    pub base_height: u64,
    /// Index of the next attempt, in `[0, MAX_ATTEMPTS]`.
    pub attempt: u64,
}

impl RetrySession {
    /// Attempt index stays within budget and every target block this
    /// session can name fits in a block number.
    pub open spec fn wf(self) -> bool {
        &&& self.attempt <= MAX_ATTEMPTS
        &&& self.base_height + MAX_ATTEMPTS <= u64::MAX
    }

    /// Starts a run at the observed chain height.
    pub fn new(base_height: u64) -> (r: Self)
        requires
            base_height + MAX_ATTEMPTS <= u64::MAX,
        ensures
            r.wf(),
            r.base_height == base_height,
            r.attempt == 0,
    {
        RetrySession { base_height, attempt: 0 }
    }

    /// The block the next attempt targets: the captured base height plus
    /// the attempt index, regardless of how far the chain has advanced
    /// since the run started.
    pub fn target_block(&self) -> (r: u64)
        requires
            self.wf(),
            self.attempt < MAX_ATTEMPTS,
        ensures
            r == self.base_height + self.attempt,
    {
        self.base_height + self.attempt
    }

    /// Records the outcome of the current attempt. On inclusion the run is
    /// over at this attempt and no later block is ever targeted; otherwise
    /// the attempt index advances, and the run ends silently in
    /// `Exhausted` exactly when the budget is used up.
    pub fn record(&mut self, outcome: AttemptOutcome) -> (r: Option<RunOutcome>)
        requires
            old(self).wf(),
            old(self).attempt < MAX_ATTEMPTS,
        ensures
            final(self).wf(),
            final(self).base_height == old(self).base_height,
            outcome is Included ==> {
                &&& final(self).attempt == old(self).attempt
                &&& r matches Some(o) && o matches RunOutcome::Included {
                    attempt,
                    bundle_hash,
                    tx_hashes,
                } && attempt == old(self).attempt && bundle_hash@ == outcome->bundle_hash@
                    && tx_hashes@ == outcome->tx_hashes@
            },
            !(outcome is Included) ==> {
                &&& final(self).attempt == old(self).attempt + 1
                &&& (final(self).attempt == MAX_ATTEMPTS <==> r == Some(RunOutcome::Exhausted))
                &&& (final(self).attempt < MAX_ATTEMPTS <==> r is None)
            },
    {
        match outcome {
            AttemptOutcome::Included { bundle_hash, tx_hashes } => Some(
                RunOutcome::Included { attempt: self.attempt, bundle_hash, tx_hashes },
            ),
            _ => {
                self.attempt = self.attempt + 1;
                if self.attempt == MAX_ATTEMPTS {
                    Some(RunOutcome::Exhausted)
                } else {
                    None
                }
            },
        }
    }
}

/// Number of build/submit/await cycles the loop performs when the attempts
/// resolve as given (`true` = included): one cycle per unsuccessful attempt
/// up to the first successful one, which is also a cycle.
pub open spec fn cycles(included: Seq<bool>) -> nat
    decreases included.len(),
{
    if included.len() == 0 {
        0
    } else if included[0] {
        1
    } else {
        1 + cycles(included.drop_first())
    }
}

/// Whether some attempt in the sequence was included.
pub open spec fn any_included(included: Seq<bool>) -> bool {
    exists|k: int| 0 <= k < included.len() && included[k]
}

/// The per-attempt inclusion results of a recorded outcome sequence.
pub open spec fn inclusion_flags(outcomes: Seq<AttemptOutcome>) -> Seq<bool> {
    Seq::new(outcomes.len(), |i: int| outcomes[i] is Included)
}

/// Replays the retry loop against a recorded sequence of per-attempt
/// outcomes: one build/submit/await cycle per outcome, in order, stopping
/// at the first inclusion or when the attempt budget is spent. Returns the
/// number of cycles performed, the block each cycle targeted, and how the
/// run ended (`None` when the recording ended before the run did).
pub fn run_recorded(base_height: u64, outcomes: Vec<AttemptOutcome>) -> (r: (
    u64,
    Vec<u64>,
    Option<RunOutcome>,
))
    requires
        base_height + MAX_ATTEMPTS <= u64::MAX,
        outcomes@.len() <= MAX_ATTEMPTS,
    ensures
        r.0 == cycles(inclusion_flags(outcomes@)),
        r.1@.len() == r.0,
        forall|j: int| 0 <= j < r.1@.len() ==> r.1@[j] == base_height + j,
        any_included(inclusion_flags(outcomes@)) ==> (r.2 matches Some(o) && o matches
            RunOutcome::Included { attempt, bundle_hash, tx_hashes } && {
            &&& attempt + 1 == r.0
            &&& 0 <= attempt < outcomes@.len()
            &&& outcomes@[attempt as int] is Included
            &&& forall|j: int| 0 <= j < attempt ==> !(outcomes@[j] is Included)
            &&& bundle_hash@ == outcomes@[attempt as int]->bundle_hash@
            &&& tx_hashes@ == outcomes@[attempt as int]->tx_hashes@
        }),
        !any_included(inclusion_flags(outcomes@)) && outcomes@.len() == MAX_ATTEMPTS ==> r.2
            == Some(RunOutcome::Exhausted),
        !any_included(inclusion_flags(outcomes@)) && outcomes@.len() < MAX_ATTEMPTS ==> r.2
            is None,
{
    let ghost all = outcomes@;
    let ghost flags = inclusion_flags(all);
    let mut rest = outcomes;
    let mut session = RetrySession::new(base_height);
    let mut targets: Vec<u64> = Vec::new();
    let mut i: usize = 0;
    #[verifier::loop_isolation(false)]
    while rest.len() > 0
        invariant
            session.wf(),
            session.base_height == base_height,
            session.attempt == i,
            i == 0 || i < MAX_ATTEMPTS,
            flags == inclusion_flags(all),
            i + rest@.len() == all.len(),
            rest@ == all.subrange(i as int, all.len() as int),
            all.len() <= MAX_ATTEMPTS,
            targets@.len() == i,
            forall|j: int| 0 <= j < i ==> targets@[j] == base_height + j,
            forall|j: int| 0 <= j < i ==> !flags[j],
        decreases rest@.len(),
    {
        let target = session.target_block();
        targets.push(target);
        let outcome = rest.remove(0);
        let ghost this_outcome = outcome;
        proof {
            assert(this_outcome == all[i as int]);
        }
        let stepped = session.record(outcome);
        match stepped {
            Some(ended) => {
                proof {
                    if this_outcome is Included {
                        assert(flags[i as int]);
                        lemma_stops_at_first_success(flags, i as int);
                        assert forall|j: int| 0 <= j < i implies !(all[j] is Included) by {
                            assert(!flags[j]);
                        };
                    } else {
                        assert(session.attempt == i + 1);
                        assert(session.attempt == MAX_ATTEMPTS);
                        assert(all.len() == MAX_ATTEMPTS);
                        assert(forall|j: int| 0 <= j < all.len() ==> !flags[j]) by {
                            assert(forall|j: int| 0 <= j < i ==> !flags[j]);
                            assert(!flags[i as int]);
                        };
                        lemma_exhaustion_runs_all_attempts(flags);
                    }
                }
                let cycles_done = (i as u64) + 1;
                return (cycles_done, targets, Some(ended));
            },
            None => {},
        }
        i = i + 1;
    }
    proof {
        assert(forall|j: int| 0 <= j < all.len() ==> !flags[j]);
        lemma_exhaustion_runs_all_attempts(flags);
    }
    (i as u64, targets, None)
}

/// The loop never runs past the first success: if attempt `k` is the first
/// included one, exactly `k + 1` cycles happen, so no block after
/// `base + k` is ever attempted.
pub proof fn lemma_stops_at_first_success(included: Seq<bool>, k: int)
    requires
        0 <= k < included.len(),
        included[k],
        forall|j: int| 0 <= j < k ==> !included[j],
    ensures
        cycles(included) == k + 1,
    decreases k,
{
    if k == 0 {
    } else {
        lemma_stops_at_first_success(included.drop_first(), k - 1);
    }
}

/// Exhaustion is silent and exact: a run whose attempts are all
/// unsuccessful performs one cycle per attempt and no more.
pub proof fn lemma_exhaustion_runs_all_attempts(included: Seq<bool>)
    requires
        forall|j: int| 0 <= j < included.len() ==> !included[j],
    ensures
        cycles(included) == included.len(),
    decreases included.len(),
{
    if included.len() > 0 {
        lemma_exhaustion_runs_all_attempts(included.drop_first());
    }
}

} // verus!
