//! Settlement engine: the one-time, proportional payout of a closed
//! round's cap to one user, and the laws that make it safe — a pair never
//! settles twice, and a round never pays out more than its cap.

use vstd::prelude::*;
use crate::state::X1GameError;
use crate::state::X1GameState;
use crate::state::X1RoundState;
use crate::state::X1UserRoundState;

verus! {

/// The reward owed to a user who earned `points` of the `total_points` of
/// a round with budget `cap`: the proportional share, rounded down so that
/// fractional dust is never paid.
pub open spec fn reward_of(cap: int, total_points: int, points: int) -> int {
    (cap * points) / total_points
}

/// Everything one settlement leaves behind: its verdict — on success the
/// amount the host must credit — and the user-round record as the action
/// would commit it.
pub struct SettleOutcome {
    pub result: Result<u128, X1GameError>,
    pub user_round: X1UserRoundState,
}

/// The mathematical model of one settlement. In order: a round not yet
/// closed is rejected; a pair with nothing earned, or a round in which
/// nothing was earned at all, settles as a no-op paying zero; a pair that
/// already settled is rejected; otherwise the proportional reward is paid
/// and the record is marked settled by moving `minted_points` from zero to
/// the pair's points.
pub open spec fn settle_spec(
    current_round: u64,
    rs: X1RoundState,
    urs: X1UserRoundState,
    round: u64,
) -> SettleOutcome {
    if round >= current_round {
        SettleOutcome { result: Err(X1GameError::WrongRound), user_round: urs }
    } else if urs.points == 0 || rs.total_points == 0 {
        SettleOutcome { result: Ok(0), user_round: urs }
    } else if urs.minted_points != 0 {
        SettleOutcome { result: Err(X1GameError::AlreadyMinted), user_round: urs }
    } else {
        SettleOutcome {
            result: Ok(reward_of(rs.cap as int, rs.total_points as int, urs.points as int) as u128),
            user_round: X1UserRoundState { points: urs.points, minted_points: urs.points },
        }
    }
}

/// Settle the claimed `round` for the user behind `user_round`. On `Ok`
/// the returned amount is what the host must credit to the user — the
/// engine computes it and marks the pair settled; issuing the credit and
/// committing the record atomically is the host's part. On `Err` the
/// record does not move.
pub fn mint(
    game: &X1GameState,
    round_state: &X1RoundState,
    user_round: &mut X1UserRoundState,
    round: u64,
) -> (r: Result<u128, X1GameError>)
    requires
        (round_state.cap as int) * (old(user_round).points as int) <= u128::MAX,
    ensures
        ({
            let o = settle_spec(game.current_round, *round_state, *old(user_round), round);
            &&& r == o.result
            &&& *final(user_round) == o.user_round
        }),
        r is Err ==> *final(user_round) == *old(user_round),
        r == Err::<u128, X1GameError>(X1GameError::WrongRound) <==> round >= game.current_round,
        r == Err::<u128, X1GameError>(X1GameError::AlreadyMinted) <==> round < game.current_round
            && old(user_round).points > 0 && round_state.total_points > 0
            && old(user_round).minted_points != 0,
{
    if round >= game.current_round {
        return Err(X1GameError::WrongRound);
    }
    if user_round.points > 0 && round_state.total_points > 0 {
        if user_round.minted_points != 0 {
            return Err(X1GameError::AlreadyMinted);
        }
        let reward: u128 = round_state.cap * user_round.points / round_state.total_points;
        user_round.minted_points = user_round.minted_points + user_round.points;
        Ok(reward)
    } else {
        Ok(0)
    }
}

/// Idempotent settlement: once a pair with points in a closed, nonempty
/// round settles, a second settlement of the same pair fails with
/// `AlreadyMinted` and leaves `minted_points` — now the pair's points —
/// untouched.
pub proof fn lemma_settlement_idempotent(
    current_round: u64,
    rs: X1RoundState,
    urs: X1UserRoundState,
    round: u64,
)
    requires
        round < current_round,
        urs.points > 0,
        rs.total_points > 0,
        urs.minted_points == 0,
    ensures
        ({
            let first = settle_spec(current_round, rs, urs, round);
            let second = settle_spec(current_round, rs, first.user_round, round);
            &&& first.user_round.minted_points == urs.points
            &&& second.result == Err::<u128, X1GameError>(X1GameError::AlreadyMinted)
            &&& second.user_round == first.user_round
        }),
{
}

/// The settled mark never moves except from zero to the pair's points: a
/// settlement either leaves the record alone or stamps `minted_points`
/// with `points`, so it never decreases and never exceeds `points` once
/// consistent.
pub proof fn lemma_minted_monotonic(
    current_round: u64,
    rs: X1RoundState,
    urs: X1UserRoundState,
    round: u64,
)
    ensures
        ({
            let o = settle_spec(current_round, rs, urs, round);
            &&& o.user_round.points == urs.points
            &&& o.user_round.minted_points >= urs.minted_points
            &&& o.user_round.minted_points == urs.minted_points || (urs.minted_points == 0
                && o.user_round.minted_points == urs.points)
        }),
{
}

} // verus!
