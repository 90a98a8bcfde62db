//! Points ledger: the points one action grants, and how they fan out into
//! the global, round, user and user-round counters.

use vstd::prelude::*;
use crate::state::POINTS_BASE;
use crate::state::X1GameState;
use crate::state::X1RoundState;
use crate::state::X1UserRoundState;
use crate::state::X1UserState;

verus! {

/// Points one action grants to a user who, after the streak update, holds
/// `score`: the base amount scaled by the streak.
pub open spec fn points_for(score: int) -> int {
    (POINTS_BASE as int) * (score + 1)
}

/// Whether one accrual for a user holding `us.score` fits the machine
/// integers of the four counters.
pub open spec fn accrual_fits(
    g: X1GameState,
    rs: X1RoundState,
    us: X1UserState,
    urs: X1UserRoundState,
) -> bool {
    &&& us.score < u64::MAX
    &&& g.total_points + points_for(us.score as int) <= u128::MAX
    &&& rs.total_points + points_for(us.score as int) <= u128::MAX
    &&& urs.points + points_for(us.score as int) <= u128::MAX
    &&& us.user_points + points_for(us.score as int) <= u128::MAX
}

/// Grant this action's points — `points_for` of the already-updated score
/// — to all four counters at once, and record `round` as the user's last
/// acted round. Nothing else moves.
pub fn accrue_points(
    game: &mut X1GameState,
    round_state: &mut X1RoundState,
    user: &mut X1UserState,
    user_round: &mut X1UserRoundState,
    round: u64,
)
    requires
        accrual_fits(*old(game), *old(round_state), *old(user), *old(user_round)),
    ensures
        final(game).total_points == old(game).total_points + points_for(old(user).score as int),
        final(game).current_round == old(game).current_round,
        final(game).last_round_slot == old(game).last_round_slot,
        final(round_state).total_points == old(round_state).total_points + points_for(
            old(user).score as int,
        ),
        final(round_state).cap == old(round_state).cap,
        final(user_round).points == old(user_round).points + points_for(old(user).score as int),
        final(user_round).minted_points == old(user_round).minted_points,
        final(user).user_points == old(user).user_points + points_for(old(user).score as int),
        final(user).score == old(user).score,
        final(user).last_round == round,
{
    let new_points: u128 = POINTS_BASE * ((user.score as u128) + 1);
    game.total_points = game.total_points + new_points;
    round_state.total_points = round_state.total_points + new_points;
    user_round.points = user_round.points + new_points;
    user.user_points = user.user_points + new_points;
    user.last_round = round;
}

} // verus!
