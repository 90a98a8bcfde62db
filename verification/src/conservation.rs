//! Conservation law: however a closed round's point total is split among
//! its participants, the floor-rounded proportional rewards never sum past
//! the round's cap. Floor division may leave dust behind; it is never paid.

use vstd::prelude::*;
use crate::settlement::reward_of;

verus! {

/// Whether every entry of a sequence of point amounts is non-negative.
pub open spec fn all_nonneg(ps: Seq<int>) -> bool {
    forall|i: int| 0 <= i < ps.len() ==> ps[i] >= 0
}

/// Sum of a sequence of point amounts.
pub open spec fn sum_points(ps: Seq<int>) -> int
    decreases ps.len(),
{
    if ps.len() == 0 {
        0
    } else {
        ps[0] + sum_points(ps.drop_first())
    }
}

/// Sum of the rewards owed to each entry of `ps` in a round with budget
/// `cap` and point total `total_points`.
pub open spec fn sum_rewards(cap: int, total_points: int, ps: Seq<int>) -> int
    decreases ps.len(),
{
    if ps.len() == 0 {
        0
    } else {
        reward_of(cap, total_points, ps[0]) + sum_rewards(cap, total_points, ps.drop_first())
    }
}

proof fn lemma_sum_points_nonneg(ps: Seq<int>)
    requires
        all_nonneg(ps),
    ensures
        sum_points(ps) >= 0,
    decreases ps.len(),
{
    if ps.len() > 0 {
        assert(all_nonneg(ps.drop_first()));
        lemma_sum_points_nonneg(ps.drop_first());
    }
}

/// Floor division distributes superadditively over a sum of numerators:
/// rounding two shares down separately loses at least as much as rounding
/// their total down once.
proof fn lemma_div_superadditive(a: int, b: int, d: int)
    requires
        a >= 0,
        b >= 0,
        d > 0,
    ensures
        a / d + b / d <= (a + b) / d,
{
    vstd::arithmetic::div_mod::lemma_fundamental_div_mod(a, d);
    vstd::arithmetic::div_mod::lemma_fundamental_div_mod(b, d);
    vstd::arithmetic::div_mod::lemma_mod_bound(a, d);
    vstd::arithmetic::div_mod::lemma_mod_bound(b, d);
    let q = a / d + b / d;
    assert(a + b >= d * q) by {
        vstd::arithmetic::mul::lemma_mul_is_distributive_add(d, a / d, b / d);
    }
    vstd::arithmetic::div_mod::lemma_div_is_ordered(d * q, a + b, d);
    vstd::arithmetic::div_mod::lemma_div_multiples_vanish(q, d);
}

/// The summed rewards of any split never exceed the reward its pooled
/// points would earn in one piece.
proof fn lemma_sum_rewards_le_pooled(cap: int, total_points: int, ps: Seq<int>)
    requires
        cap >= 0,
        total_points > 0,
        all_nonneg(ps),
    ensures
        sum_rewards(cap, total_points, ps) <= reward_of(cap, total_points, sum_points(ps)),
    decreases ps.len(),
{
    if ps.len() == 0 {
        vstd::arithmetic::div_mod::lemma_div_of0(total_points);
        assert(reward_of(cap, total_points, 0) == 0);
    } else {
        let rest = ps.drop_first();
        assert(all_nonneg(rest));
        lemma_sum_rewards_le_pooled(cap, total_points, rest);
        lemma_sum_points_nonneg(rest);
        vstd::arithmetic::mul::lemma_mul_nonnegative(cap, ps[0]);
        vstd::arithmetic::mul::lemma_mul_nonnegative(cap, sum_points(rest));
        lemma_div_superadditive(cap * ps[0], cap * sum_points(rest), total_points);
        assert(cap * ps[0] + cap * sum_points(rest) == cap * sum_points(ps)) by {
            vstd::arithmetic::mul::lemma_mul_is_distributive_add(cap, ps[0], sum_points(rest));
        }
    }
}

/// Conservation: when the split accounts for at most the round's point
/// total, the rewards paid out sum to at most the round's cap.
pub proof fn lemma_conservation(cap: int, total_points: int, ps: Seq<int>)
    requires
        cap >= 0,
        total_points > 0,
        all_nonneg(ps),
        sum_points(ps) <= total_points,
    ensures
        sum_rewards(cap, total_points, ps) <= cap,
{
    lemma_sum_rewards_le_pooled(cap, total_points, ps);
    lemma_sum_points_nonneg(ps);
    assert(cap * sum_points(ps) <= cap * total_points) by {
        vstd::arithmetic::mul::lemma_mul_inequality(sum_points(ps), total_points, cap);
        vstd::arithmetic::mul::lemma_mul_is_commutative(cap, sum_points(ps));
        vstd::arithmetic::mul::lemma_mul_is_commutative(cap, total_points);
    }
    vstd::arithmetic::div_mod::lemma_div_is_ordered(
        cap * sum_points(ps),
        cap * total_points,
        total_points,
    );
    assert((cap * total_points) / total_points == cap) by {
        vstd::arithmetic::mul::lemma_mul_is_commutative(cap, total_points);
        vstd::arithmetic::div_mod::lemma_div_multiples_vanish(cap, total_points);
    }
}

/// When no share leaves a floor-division remainder, nothing is lost:
/// scaled by the point total, the summed rewards weigh exactly as much as
/// the cap weighted by the summed points.
proof fn lemma_sum_rewards_exact(cap: int, total_points: int, ps: Seq<int>)
    requires
        total_points > 0,
        forall|i: int| 0 <= i < ps.len() ==> (cap * ps[i]) % total_points == 0,
    ensures
        total_points * sum_rewards(cap, total_points, ps) == cap * sum_points(ps),
    decreases ps.len(),
{
    if ps.len() == 0 {
    } else {
        let rest = ps.drop_first();
        assert(forall|i: int| 0 <= i < rest.len() ==> rest[i] == ps[i + 1]);
        lemma_sum_rewards_exact(cap, total_points, rest);
        vstd::arithmetic::div_mod::lemma_fundamental_div_mod(cap * ps[0], total_points);
        vstd::arithmetic::mul::lemma_mul_is_distributive_add(
            total_points,
            reward_of(cap, total_points, ps[0]),
            sum_rewards(cap, total_points, rest),
        );
        vstd::arithmetic::mul::lemma_mul_is_distributive_add(cap, ps[0], sum_points(rest));
    }
}

/// The equality side of conservation: when the split accounts for the
/// whole point total and no share leaves a floor-division remainder, the
/// rewards paid out sum to exactly the cap — dust is the only loss.
pub proof fn lemma_conservation_equality(cap: int, total_points: int, ps: Seq<int>)
    requires
        total_points > 0,
        sum_points(ps) == total_points,
        forall|i: int| 0 <= i < ps.len() ==> (cap * ps[i]) % total_points == 0,
    ensures
        sum_rewards(cap, total_points, ps) == cap,
{
    lemma_sum_rewards_exact(cap, total_points, ps);
    assert(total_points * sum_rewards(cap, total_points, ps) == total_points * cap) by {
        vstd::arithmetic::mul::lemma_mul_is_commutative(cap, total_points);
    }
    vstd::arithmetic::mul::lemma_mul_equality_converse(
        total_points,
        sum_rewards(cap, total_points, ps),
        cap,
    );
}

/// One user's reward alone never exceeds the cap: their points are part of
/// the round's total, so their share is at most the whole.
pub proof fn lemma_reward_le_cap(cap: int, total_points: int, points: int)
    requires
        cap >= 0,
        total_points > 0,
        0 <= points <= total_points,
    ensures
        0 <= reward_of(cap, total_points, points) <= cap,
{
    let ps = seq![points];
    assert(ps.drop_first() =~= Seq::<int>::empty());
    assert(sum_points(Seq::<int>::empty()) == 0);
    assert(sum_rewards(cap, total_points, Seq::<int>::empty()) == 0);
    assert(sum_points(ps) == ps[0] + sum_points(ps.drop_first()));
    assert(sum_rewards(cap, total_points, ps) == reward_of(cap, total_points, ps[0])
        + sum_rewards(cap, total_points, ps.drop_first()));
    assert(sum_points(ps) == points);
    assert(sum_rewards(cap, total_points, ps) == reward_of(cap, total_points, points));
    lemma_conservation(cap, total_points, ps);
    vstd::arithmetic::mul::lemma_mul_nonnegative(cap, points);
    vstd::arithmetic::div_mod::lemma_div_pos_is_pos(cap * points, total_points);
}

} // verus!
