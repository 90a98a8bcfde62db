//! Round controller: decides from the slot clock whether the current round
//! advances, and fixes the cap of a newly entered round.

use vstd::prelude::*;
use crate::state::ROUND_CAP_DEC;
use crate::state::ROUND_CAP_START;
use crate::state::SLOTS_PER_ROUND;
use crate::state::X1GameState;
use crate::state::X1RoundState;

verus! {

/// How many whole rounds fit into the slots elapsed since the last
/// rollover.
pub open spec fn elapsed_rounds(slot: u64, last_round_slot: u64) -> int {
    (slot - last_round_slot) / (SLOTS_PER_ROUND as int)
}

/// Whether the shrinking cap schedule still sits strictly above zero at
/// the given round index. Once this fails, rounds stop advancing for good
/// (the soft freeze of the game).
pub open spec fn cap_schedule_open(current_round: u64) -> bool {
    (ROUND_CAP_START as int) > (ROUND_CAP_DEC as int) * (current_round as int)
}

/// Whether an action at `slot` starts a new round: at least one whole
/// round has elapsed and the cap schedule is still open.
pub open spec fn rolls_over(g: X1GameState, slot: u64) -> bool {
    elapsed_rounds(slot, g.last_round_slot) > 0 && cap_schedule_open(g.current_round)
}

/// The round an action at `slot` is resolved against: the current round,
/// advanced by the elapsed whole rounds when a rollover fires.
pub open spec fn resolved_round(g: X1GameState, slot: u64) -> int {
    if rolls_over(g, slot) {
        g.current_round + elapsed_rounds(slot, g.last_round_slot)
    } else {
        g.current_round as int
    }
}

/// The reward budget frozen for a round entered at index `round`: the
/// start budget shrunk by `ROUND_CAP_DEC` per index, clamped at zero so a
/// rollover far past the end of the schedule never wraps around.
pub open spec fn cap_for(round: int) -> int {
    if (ROUND_CAP_START as int) > (ROUND_CAP_DEC as int) * round {
        (ROUND_CAP_START as int) - (ROUND_CAP_DEC as int) * round
    } else {
        0
    }
}

/// Later rounds never get a larger budget than earlier ones.
pub proof fn lemma_cap_nonincreasing(r1: int, r2: int)
    requires
        r1 <= r2,
    ensures
        cap_for(r2) <= cap_for(r1),
{
}

/// A round's cap never exceeds the start of the schedule.
pub proof fn lemma_cap_bounded(round: int)
    requires
        round >= 0,
    ensures
        0 <= cap_for(round) <= ROUND_CAP_START,
{
}

/// Advance `game` to the round resolved for `slot`, and, when a rollover
/// fires, stamp the newly entered round's cap into `round_state` (the
/// record of the round the action is aimed at). Point totals are not
/// touched here.
pub fn advance_rounds(game: &mut X1GameState, round_state: &mut X1RoundState, slot: u64)
    requires
        slot > old(game).last_round_slot,
    ensures
        final(game).current_round == resolved_round(*old(game), slot),
        final(game).total_points == old(game).total_points,
        final(round_state).total_points == old(round_state).total_points,
        rolls_over(*old(game), slot) ==> final(game).last_round_slot == slot
            && final(round_state).cap == cap_for(resolved_round(*old(game), slot)),
        !rolls_over(*old(game), slot) ==> *final(game) == *old(game)
            && *final(round_state) == *old(round_state),
{
    let round_inc: u64 = (slot - game.last_round_slot) / SLOTS_PER_ROUND;
    if round_inc > 0 && ROUND_CAP_START > ROUND_CAP_DEC * (game.current_round as u128) {
        proof {
            vstd::arithmetic::div_mod::lemma_div_is_ordered(
                slot - game.last_round_slot,
                u64::MAX as int,
                SLOTS_PER_ROUND as int,
            );
        }
        game.current_round = game.current_round + round_inc;
        game.last_round_slot = slot;

        let dec_total: u128 = ROUND_CAP_DEC * (game.current_round as u128);
        round_state.cap = if ROUND_CAP_START > dec_total {
            ROUND_CAP_START - dec_total
        } else {
            0
        };
    }
}

} // verus!
