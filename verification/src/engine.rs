//! The two ledger actions that drive the game forward: initializing the
//! global record, and a click — one action by one user in one round.

use vstd::prelude::*;
use crate::points::accrue_points;
use crate::points::points_for;
use crate::rounds::advance_rounds;
use crate::rounds::cap_for;
use crate::rounds::resolved_round;
use crate::rounds::rolls_over;
use crate::scoring::lemma_score_bounds;
use crate::scoring::score_after;
use crate::scoring::update_score;
use crate::state::X1GameError;
use crate::state::X1GameState;
use crate::state::X1RoundState;
use crate::state::X1UserRoundState;
use crate::state::X1UserState;

verus! {

/// Everything one click leaves behind: its verdict and the four records as
/// the action would commit them. On an `Err` verdict all four records are
/// the ones the action started from.
pub struct ClickOutcome {
    pub result: Result<(), X1GameError>,
    pub game: X1GameState,
    pub round_state: X1RoundState,
    pub user: X1UserState,
    pub user_round: X1UserRoundState,
}

/// The mathematical model of one click, from the records it starts from.
/// In order: a clock reading that does not move past the last rollover is
/// rejected; the action is resolved against the possibly advanced round,
/// and a rollover stamps the entered round's cap; a claimed round other
/// than the resolved one is rejected; a user record whose last acted round
/// lies past the claimed one is rejected; otherwise the streak policy
/// updates the score and the granted points fan out into all four
/// counters.
pub open spec fn click_spec(
    g: X1GameState,
    rs: X1RoundState,
    us: X1UserState,
    urs: X1UserRoundState,
    round: u64,
    slot: u64,
) -> ClickOutcome {
    if slot <= g.last_round_slot {
        ClickOutcome {
            result: Err(X1GameError::BadSlotValue),
            game: g,
            round_state: rs,
            user: us,
            user_round: urs,
        }
    } else {
        let g1 = X1GameState {
            current_round: resolved_round(g, slot) as u64,
            last_round_slot: if rolls_over(g, slot) {
                slot
            } else {
                g.last_round_slot
            },
            total_points: g.total_points,
        };
        let rs1 = X1RoundState {
            cap: if rolls_over(g, slot) {
                cap_for(resolved_round(g, slot)) as u128
            } else {
                rs.cap
            },
            total_points: rs.total_points,
        };
        if round != g1.current_round {
            ClickOutcome {
                result: Err(X1GameError::WrongRound),
                game: g,
                round_state: rs,
                user: us,
                user_round: urs,
            }
        } else if us.last_round > round {
            ClickOutcome {
                result: Err(X1GameError::BadParam),
                game: g,
                round_state: rs,
                user: us,
                user_round: urs,
            }
        } else {
            let new_score = score_after(us.score as int, round - us.last_round);
            let new_points = points_for(new_score);
            ClickOutcome {
                result: Ok(()),
                game: X1GameState {
                    current_round: g1.current_round,
                    last_round_slot: g1.last_round_slot,
                    total_points: (g.total_points + new_points) as u128,
                },
                round_state: X1RoundState {
                    cap: rs1.cap,
                    total_points: (rs.total_points + new_points) as u128,
                },
                user: X1UserState {
                    last_round: round,
                    score: new_score as u64,
                    user_points: (us.user_points + new_points) as u128,
                },
                user_round: X1UserRoundState {
                    points: (urs.points + new_points) as u128,
                    minted_points: urs.minted_points,
                },
            }
        }
    }
}

/// Whether one click, whatever round it lands in, fits the machine
/// integers of the score and the four point counters. The score can grow
/// by at most one step, so the points granted never exceed
/// `points_for` of one step above the current score.
pub open spec fn click_fits(
    g: X1GameState,
    rs: X1RoundState,
    us: X1UserState,
    urs: X1UserRoundState,
) -> bool {
    &&& us.score <= u64::MAX - 2
    &&& g.total_points + points_for(us.score + 1) <= u128::MAX
    &&& rs.total_points + points_for(us.score + 1) <= u128::MAX
    &&& urs.points + points_for(us.score + 1) <= u128::MAX
    &&& us.user_points + points_for(us.score + 1) <= u128::MAX
}

/// Set up the global record: the game starts in round 1, with the round
/// clock rooted at the given slot. Lifetime points survive a repeated
/// setup of an existing record.
pub fn initialize(game: &mut X1GameState, slot: u64)
    ensures
        final(game).current_round == 1,
        final(game).last_round_slot == slot,
        final(game).total_points == old(game).total_points,
{
    game.current_round = 1;
    game.last_round_slot = slot;
}

/// One click by one user: `game` is the global record, `round_state` and
/// `user_round` are the records of the claimed round, `user` the record of
/// the acting user. On an `Err` no record moves, so a failed action
/// commits nothing.
pub fn click(
    game: &mut X1GameState,
    round_state: &mut X1RoundState,
    user: &mut X1UserState,
    user_round: &mut X1UserRoundState,
    round: u64,
    slot: u64,
) -> (r: Result<(), X1GameError>)
    requires
        click_fits(*old(game), *old(round_state), *old(user), *old(user_round)),
    ensures
        ({
            let o = click_spec(*old(game), *old(round_state), *old(user), *old(user_round), round, slot);
            &&& r == o.result
            &&& *final(game) == o.game
            &&& *final(round_state) == o.round_state
            &&& *final(user) == o.user
            &&& *final(user_round) == o.user_round
        }),
        r is Err ==> *final(game) == *old(game) && *final(round_state) == *old(round_state)
            && *final(user) == *old(user) && *final(user_round) == *old(user_round),
        r is Ok <==> slot > old(game).last_round_slot && round == resolved_round(*old(game), slot)
            && old(user).last_round <= round,
        r == Err::<(), X1GameError>(X1GameError::BadSlotValue) <==> slot <= old(
            game,
        ).last_round_slot,
        r == Err::<(), X1GameError>(X1GameError::WrongRound) <==> slot > old(game).last_round_slot
            && round != resolved_round(*old(game), slot),
        r == Err::<(), X1GameError>(X1GameError::BadParam) <==> slot > old(game).last_round_slot
            && round == resolved_round(*old(game), slot) && old(user).last_round > round,
{
    if slot <= game.last_round_slot {
        return Err(X1GameError::BadSlotValue);
    }
    proof {
        lemma_resolved_round_fits(*game, slot);
    }
    let mut g = *game;
    let mut rs = *round_state;
    advance_rounds(&mut g, &mut rs, slot);

    if round != g.current_round {
        return Err(X1GameError::WrongRound);
    }
    if user.last_round > round {
        return Err(X1GameError::BadParam);
    }
    let mut us = *user;
    let mut urs = *user_round;
    let missed_rounds: u64 = round - us.last_round;
    proof {
        lemma_score_bounds(us.score as int, missed_rounds as int);
    }
    us.score = update_score(us.score, missed_rounds);
    accrue_points(&mut g, &mut rs, &mut us, &mut urs, round);

    *game = g;
    *round_state = rs;
    *user = us;
    *user_round = urs;
    Ok(())
}

/// A click aimed at any round other than the resolved current one fails
/// with `WrongRound` and moves no record — even when the clock itself
/// triggered a rollover, nothing of it is committed.
pub proof fn lemma_round_agreement(
    g: X1GameState,
    rs: X1RoundState,
    us: X1UserState,
    urs: X1UserRoundState,
    round: u64,
    slot: u64,
)
    requires
        slot > g.last_round_slot,
        round != resolved_round(g, slot),
    ensures
        ({
            let o = click_spec(g, rs, us, urs, round, slot);
            &&& o.result == Err::<(), X1GameError>(X1GameError::WrongRound)
            &&& o.game == g
            &&& o.round_state == rs
            &&& o.user == us
            &&& o.user_round == urs
        }),
{
    lemma_resolved_round_fits(g, slot);
}

/// The resolved round index always fits a machine word: a rollover only
/// fires while the cap schedule is open, which bounds the current round,
/// and the elapsed rounds are a 64-bit slot span shrunk 256-fold.
pub proof fn lemma_resolved_round_fits(g: X1GameState, slot: u64)
    requires
        slot > g.last_round_slot,
    ensures
        0 <= resolved_round(g, slot) <= u64::MAX,
{
    if rolls_over(g, slot) {
        vstd::arithmetic::div_mod::lemma_div_is_ordered(
            slot - g.last_round_slot,
            u64::MAX as int,
            256,
        );
        vstd::arithmetic::div_mod::lemma_div_pos_is_pos(slot - g.last_round_slot, 256);
    }
}

/// The current round never moves backwards, and a user's last acted round
/// never runs ahead of it: every click, successful or not, preserves
/// both. This is why a click can never find a negative span of missed
/// rounds through records the engine itself wrote.
pub proof fn lemma_round_monotonic(
    g: X1GameState,
    rs: X1RoundState,
    us: X1UserState,
    urs: X1UserRoundState,
    round: u64,
    slot: u64,
)
    requires
        us.last_round <= g.current_round,
    ensures
        ({
            let o = click_spec(g, rs, us, urs, round, slot);
            &&& o.game.current_round >= g.current_round
            &&& o.user.last_round <= o.game.current_round
        }),
{
    if slot > g.last_round_slot {
        lemma_resolved_round_fits(g, slot);
        if rolls_over(g, slot) {
            vstd::arithmetic::div_mod::lemma_div_pos_is_pos(slot - g.last_round_slot, 256);
        }
    }
}

/// A closed round is frozen whole: a click claiming a round below the
/// current one fails, so neither the cap nor the point total of a closed
/// round's record ever moves again, and neither does any user's share of
/// it. Settlement reads the round record without writing it. This is what
/// lets a closed round's cap, total and shares be settled against as
/// fixed quantities.
pub proof fn lemma_closed_round_frozen(
    g: X1GameState,
    rs: X1RoundState,
    us: X1UserState,
    urs: X1UserRoundState,
    round: u64,
    slot: u64,
)
    requires
        round < g.current_round,
    ensures
        ({
            let o = click_spec(g, rs, us, urs, round, slot);
            &&& o.result is Err
            &&& o.round_state == rs
            &&& o.user_round == urs
            &&& o.game == g
            &&& o.user == us
        }),
{
    if slot > g.last_round_slot {
        lemma_resolved_round_fits(g, slot);
        if rolls_over(g, slot) {
            vstd::arithmetic::div_mod::lemma_div_pos_is_pos(slot - g.last_round_slot, 256);
        }
    }
}

/// A successful click grows the round's point total and the acting user's
/// share of it by the same amount, so the shares of a round always sum to
/// at most its total — the hypothesis under which settlement conserves
/// the cap.
pub proof fn lemma_round_points_balance(
    g: X1GameState,
    rs: X1RoundState,
    us: X1UserState,
    urs: X1UserRoundState,
    round: u64,
    slot: u64,
)
    requires
        click_fits(g, rs, us, urs),
    ensures
        ({
            let o = click_spec(g, rs, us, urs, round, slot);
            o.round_state.total_points - rs.total_points == o.user_round.points - urs.points
        }),
{
    let o = click_spec(g, rs, us, urs, round, slot);
    if o.result is Ok {
        lemma_score_bounds(us.score as int, round - us.last_round);
    }
}

/// Cap freeze: once a round has been entered (its index is at most the
/// current one), no click can alter the cap stamped into its record. A
/// rollover would advance past it, and the round check then rejects the
/// action wholesale; settlement never writes a round record at all.
pub proof fn lemma_cap_frozen(
    g: X1GameState,
    rs: X1RoundState,
    us: X1UserState,
    urs: X1UserRoundState,
    round: u64,
    slot: u64,
)
    requires
        round <= g.current_round,
    ensures
        click_spec(g, rs, us, urs, round, slot).round_state.cap == rs.cap,
{
    if slot > g.last_round_slot {
        lemma_resolved_round_fits(g, slot);
        if rolls_over(g, slot) {
            vstd::arithmetic::div_mod::lemma_div_pos_is_pos(slot - g.last_round_slot, 256);
            assert(resolved_round(g, slot) > g.current_round);
        }
    }
}

} // verus!
