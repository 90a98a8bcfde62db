//! Scoring engine: how a user's streak score moves when they act, given
//! how many rounds they sat out since their previous action.

use vstd::prelude::*;
use crate::state::USER_SCORE_BASE_INC;

verus! {

/// The score a user holds after acting with `missed_rounds` rounds between
/// this action's round and their previous one. The rules, in priority
/// order: fewer than 2 missed rounds grows the streak by one; more than 20
/// resets it to zero; more than 10 (and at most 20) decays it by one,
/// floored at zero; anything in between (2 to 10) leaves it unchanged.
pub open spec fn score_after(score: int, missed_rounds: int) -> int {
    if missed_rounds < 2 {
        score + 1
    } else if missed_rounds > 20 {
        0
    } else if missed_rounds > 10 {
        if score >= 1 {
            score - 1
        } else {
            0
        }
    } else {
        score
    }
}

/// Apply the streak policy for one action.
pub fn update_score(score: u64, missed_rounds: u64) -> (new_score: u64)
    requires
        missed_rounds < 2 ==> score < u64::MAX,
    ensures
        new_score == score_after(score as int, missed_rounds as int),
{
    if missed_rounds < 2 {
        score + USER_SCORE_BASE_INC
    } else if missed_rounds > 20 {
        0
    } else if missed_rounds > 10 {
        if score >= USER_SCORE_BASE_INC {
            score - USER_SCORE_BASE_INC
        } else {
            0
        }
    } else {
        score
    }
}

/// A score never goes negative, never moves up by more than one step, and
/// never drops by more than one step in a single action unless the hard
/// reset (more than 20 missed rounds) sends it straight to zero.
pub proof fn lemma_score_bounds(score: int, missed_rounds: int)
    requires
        score >= 0,
    ensures
        score_after(score, missed_rounds) >= 0,
        score_after(score, missed_rounds) <= score + 1,
        score_after(score, missed_rounds) >= score - 1 || (missed_rounds > 20
            && score_after(score, missed_rounds) == 0),
{
}

} // verus!
