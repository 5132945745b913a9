//! The shared best-score tracker: which candidates improve on what was seen,
//! which of them are logged, and the best one logged so far.
//!
//! Acceptance decisions are made one at a time on the tracker, so the zero
//! counts of logged candidates never decrease in the order the tracker made
//! them. Callers that share the tracker behind a lock and write each line
//! before releasing it get the same order in their log.

use vstd::prelude::*;
use crate::address::{is_score_of, uniform_run, Address, Score};
use crate::generator::GenerationResult;

verus! {

/// Candidates with fewer leading zero nibbles are never logged.
pub const MIN_LOGGED_ZEROS: usize = 3;

/// What the tracker made of a candidate.
#[derive(Clone, Copy, Debug, PartialEq, Eq, Structural)]
pub enum Outcome {
    /// Fewer zeros than the best so far, or as many without a longer run.
    Discarded,
    /// Raised the best zero count, but has too few zeros to be logged.
    Unlogged,
    /// A new best, to be logged.
    Logged,
}

/// The outcome of a candidate scoring `score` against the running maxima.
pub open spec fn outcome_of(max_zero: int, max_repeat: int, score: Score) -> Outcome {
    if score.zero_count < max_zero || (score.zero_count == max_zero && score.repeat_run
        <= max_repeat) {
        Outcome::Discarded
    } else if score.zero_count < MIN_LOGGED_ZEROS {
        Outcome::Unlogged
    } else {
        Outcome::Logged
    }
}

/// The acceptance decision for `score` against the running maxima.
pub fn decide(max_zero: usize, max_repeat: usize, score: Score) -> (r: Outcome)
    ensures
        r == outcome_of(max_zero as int, max_repeat as int, score),
{
    if score.zero_count < max_zero || (score.zero_count == max_zero && score.repeat_run
        <= max_repeat) {
        Outcome::Discarded
    } else if score.zero_count < MIN_LOGGED_ZEROS {
        Outcome::Unlogged
    } else {
        Outcome::Logged
    }
}

/// A candidate with fewer zeros than some earlier value of the best zero
/// count: since that count never decreases, the tracker would discard it.
pub fn is_dominated(observed_max_zero: usize, score: Score) -> (r: bool)
    ensures
        r == (score.zero_count < observed_max_zero),
{
    score.zero_count < observed_max_zero
}

/// The running maxima, the best logged candidate, and (as ghost state) the
/// zero counts of all logged candidates in the order they were logged.
pub struct ScoreTracker {
    pub max_zero_count: usize,
    pub max_repeat_run: usize,
    pub best: Option<(Address, GenerationResult)>,
    pub logged: Ghost<Seq<int>>,
}

/// The values of `s` never decrease.
pub open spec fn non_decreasing(s: Seq<int>) -> bool {
    forall|i: int, j: int| 0 <= i <= j < s.len() ==> s[i] <= s[j]
}

impl ScoreTracker {
    /// The logged zero counts never decrease and none exceeds the best zero
    /// count; a best candidate is held exactly when something was logged.
    pub open spec fn wf(&self) -> bool {
        &&& non_decreasing(self.logged@)
        &&& forall|i: int| 0 <= i < self.logged@.len() ==> #[trigger] self.logged@[i]
            <= self.max_zero_count
        &&& (self.best is Some <==> self.logged@.len() > 0)
    }

    /// A tracker that has seen nothing.
    pub fn new() -> (r: Self)
        ensures
            r.wf(),
            r.max_zero_count == 0,
            r.max_repeat_run == 0,
            r.best is None,
            r.logged@.len() == 0,
    {
        ScoreTracker {
            max_zero_count: 0,
            max_repeat_run: 0,
            best: None,
            logged: Ghost(Seq::empty()),
        }
    }

    /// Weighs a candidate with its score. A candidate that is not discarded
    /// raises the best zero count to its own; a logged one also raises the best
    /// repeat run where its run is longer, and becomes the best candidate.
    pub fn offer(&mut self, address: Address, data: GenerationResult, score: Score) -> (r: Outcome)
        requires
            old(self).wf(),
        ensures
            final(self).wf(),
            r == outcome_of(
                old(self).max_zero_count as int,
                old(self).max_repeat_run as int,
                score,
            ),
            r == Outcome::Discarded ==> *final(self) == *old(self),
            r != Outcome::Discarded ==> final(self).max_zero_count == score.zero_count
                && old(self).max_zero_count <= score.zero_count,
            r == Outcome::Unlogged ==> final(self).max_repeat_run == old(self).max_repeat_run
                && final(self).best == old(self).best && final(self).logged@ == old(self).logged@,
            r == Outcome::Logged ==> final(self).best == Some((address, data))
                && final(self).logged@ == old(self).logged@.push(score.zero_count as int)
                && final(self).max_repeat_run == if score.repeat_run > old(self).max_repeat_run {
                score.repeat_run
            } else {
                old(self).max_repeat_run
            },
    {
        let outcome = decide(self.max_zero_count, self.max_repeat_run, score);
        match outcome {
            Outcome::Discarded => {},
            Outcome::Unlogged => {
                self.max_zero_count = score.zero_count;
            },
            Outcome::Logged => {
                self.max_zero_count = score.zero_count;
                if score.repeat_run > self.max_repeat_run {
                    self.max_repeat_run = score.repeat_run;
                }
                self.best = Some((address, data));
                self.logged = Ghost(self.logged@.push(score.zero_count as int));
            },
        }
        outcome
    }
}

/// Each newly logged candidate has at least as many leading zeros as every
/// candidate logged before it: the log's zero counts never decrease.
pub proof fn lemma_logged_zero_counts_never_decrease(before: ScoreTracker, score: Score)
    requires
        before.wf(),
        outcome_of(before.max_zero_count as int, before.max_repeat_run as int, score)
            == Outcome::Logged,
    ensures
        forall|i: int| 0 <= i < before.logged@.len() ==> #[trigger] before.logged@[i]
            <= score.zero_count,
        non_decreasing(before.logged@.push(score.zero_count as int)),
{
    let after = before.logged@.push(score.zero_count as int);
    assert forall|i: int, j: int| 0 <= i <= j < after.len() implies after[i] <= after[j] by {
        if j == before.logged@.len() && i < j {
            assert(before.logged@[i] <= before.max_zero_count);
            assert(after[i] == before.logged@[i]);
        } else if j < before.logged@.len() {
            assert(after[i] == before.logged@[i] && after[j] == before.logged@[j]);
        }
    }
}

/// A tracker that has seen nothing never discards an address's score: the
/// first candidate always raises the best zero count.
pub proof fn lemma_first_candidate_is_accepted(address: Seq<u8>, score: Score)
    requires
        address.len() == 20,
        is_score_of(address, score),
    ensures
        outcome_of(0, 0, score) != Outcome::Discarded,
{
    if score.zero_count == 0 {
        let tail = crate::address::hex_text(address).subrange(0, 40);
        assert(uniform_run(tail, 0, 1));
    }
}

} // verus!
