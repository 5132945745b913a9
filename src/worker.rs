//! The decisions of a search worker and of the coordinator around it; the
//! loop itself, its shared counters and the log file belong to the caller.

use vstd::prelude::*;
use crate::address::{address_text, address_text_of, hex_text, Address, Score};
use crate::log::{log_line, log_line_of};
use crate::generator::{same_strategy, secret_bytes, GenerationResult, Generator, InvalidState};
use crate::tracker::{outcome_of, Outcome, ScoreTracker};

verus! {

/// Why a worker stopped.
#[derive(Clone, Copy, Debug, PartialEq, Eq, Structural)]
pub enum StopReason {
    /// The cancellation signal was set.
    Cancelled,
    /// A candidate reached the target zero count.
    TargetReached,
}

/// A candidate scoring `score` reaches the target zero count.
pub open spec fn reaches_target(score: Score, target_zero_count: int) -> bool {
    score.zero_count >= target_zero_count
}

/// Loop top: a worker stops, before generating, once cancellation is signalled.
pub fn stop_before_generating(cancelled: bool) -> (r: Option<StopReason>)
    ensures
        r == (if cancelled {
            Some(StopReason::Cancelled)
        } else {
            None::<StopReason>
        }),
{
    if cancelled {
        Some(StopReason::Cancelled)
    } else {
        None
    }
}

/// After a candidate: a worker stops once its own candidate reaches the
/// target zero count, whether or not the candidate was accepted.
pub fn stop_after_candidate(score: Score, target_zero_count: usize) -> (r: Option<StopReason>)
    ensures
        r == (if reaches_target(score, target_zero_count as int) {
            Some(StopReason::TargetReached)
        } else {
            None::<StopReason>
        }),
{
    if score.zero_count >= target_zero_count {
        Some(StopReason::TargetReached)
    } else {
        None
    }
}

/// With a target of zero leading zeros, a worker stops on its first candidate,
/// which a tracker that has seen nothing accepts.
pub proof fn lemma_zero_target_stops_on_first(address: Seq<u8>, score: Score)
    requires
        address.len() == 20,
        crate::address::is_score_of(address, score),
    ensures
        outcome_of(0, 0, score) != Outcome::Discarded,
        reaches_target(score, 0),
{
    crate::tracker::lemma_first_candidate_is_accepted(address, score);
}

/// Generation rate in hundredths of a candidate per second: `count` over the
/// elapsed time, taken as at least one second.
pub fn generation_rate_centi(count: u64, elapsed_millis: u128) -> (r: u128)
    ensures
        r == (count as int * 100_000) / (if elapsed_millis < 1000 {
            1000
        } else {
            elapsed_millis as int
        }),
{
    let millis: u128 = if elapsed_millis < 1000 {
        1000
    } else {
        elapsed_millis
    };
    let scaled: u128 = count as u128 * 100_000;
    scaled / millis
}

/// The final report: the text of the best logged address and its revealed
/// secret, or `None` where nothing was logged.
pub fn final_report(tracker: &ScoreTracker, generator: &Generator) -> (r: Result<
    Option<(String, String)>,
    InvalidState,
>)
    ensures
        tracker.best is None ==> r == Ok::<Option<(String, String)>, InvalidState>(None),
        tracker.best matches Some(b) ==> (!same_strategy(generator, b.1) ==> r
            == Err::<Option<(String, String)>, InvalidState>(InvalidState::WrongStrategy)) && (
        same_strategy(generator, b.1) ==> (r matches Ok(Some(t)) && t.0@ == address_text_of(b.0@)
            && t.1@ == hex_text(secret_bytes(b.1)))),
{
    match &tracker.best {
        None => Ok(None),
        Some((address, data)) => {
            let secret = generator.reveal_secret(*data);
            match secret {
                Ok(s) => Ok(Some((address_text(address), s))),
                Err(e) => Err(e),
            }
        },
    }
}

/// The log line of a logged candidate: its sequence number, address text,
/// zero count and revealed secret. A result of another strategy is an
/// invalid state.
pub fn log_entry(
    generator: &Generator,
    sequence_number: u64,
    address: &Address,
    data: GenerationResult,
    score: Score,
) -> (r: Result<String, InvalidState>)
    ensures
        same_strategy(generator, data) ==> (r matches Ok(line) && line@ == log_line_of(
            sequence_number as nat,
            address@,
            score.zero_count as nat,
            hex_text(secret_bytes(data)),
        )),
        !same_strategy(generator, data) ==> r == Err::<String, InvalidState>(
            InvalidState::WrongStrategy,
        ),
{
    match generator.reveal_secret(data) {
        Ok(secret) => Ok(log_line(sequence_number, address, score.zero_count, secret.as_str())),
        Err(e) => Err(e),
    }
}

} // verus!
