use x1_game::settlement::mint;
use x1_game::state::X1GameError;
use x1_game::state::X1GameState;
use x1_game::state::X1RoundState;
use x1_game::state::X1UserRoundState;

fn game_in_round(current_round: u64) -> X1GameState {
    X1GameState { last_round_slot: 0, current_round, total_points: 0 }
}

#[test]
fn mint_rejects_open_round() {
    let game = game_in_round(3);
    let round_state = X1RoundState { cap: 1000, total_points: 10 };
    let mut user_round = X1UserRoundState { points: 10, minted_points: 0 };
    assert_eq!(mint(&game, &round_state, &mut user_round, 3), Err(X1GameError::WrongRound));
    assert_eq!(mint(&game, &round_state, &mut user_round, 4), Err(X1GameError::WrongRound));
    assert_eq!(user_round.minted_points, 0);
}

#[test]
fn mint_without_points_is_a_noop() {
    let game = game_in_round(3);
    let round_state = X1RoundState { cap: 1000, total_points: 10 };
    let mut user_round = X1UserRoundState { points: 0, minted_points: 0 };
    assert_eq!(mint(&game, &round_state, &mut user_round, 2), Ok(0));
    assert_eq!(user_round.minted_points, 0);
    // A no-op does not mark the pair settled, so it stays a no-op.
    assert_eq!(mint(&game, &round_state, &mut user_round, 2), Ok(0));
}

#[test]
fn mint_of_empty_round_is_a_noop() {
    let game = game_in_round(3);
    let round_state = X1RoundState { cap: 1000, total_points: 0 };
    let mut user_round = X1UserRoundState { points: 10, minted_points: 0 };
    assert_eq!(mint(&game, &round_state, &mut user_round, 2), Ok(0));
    assert_eq!(user_round.minted_points, 0);
}

#[test]
fn mint_pays_proportional_floor_share() {
    let game = game_in_round(5);
    let round_state = X1RoundState { cap: 1000, total_points: 300 };
    let mut user_round = X1UserRoundState { points: 100, minted_points: 0 };
    assert_eq!(mint(&game, &round_state, &mut user_round, 4), Ok(333));
    assert_eq!(user_round.points, 100);
    assert_eq!(user_round.minted_points, 100);
}

#[test]
fn mint_twice_fails_and_keeps_the_mark() {
    let game = game_in_round(5);
    let round_state = X1RoundState { cap: 1000, total_points: 300 };
    let mut user_round = X1UserRoundState { points: 100, minted_points: 0 };
    assert_eq!(mint(&game, &round_state, &mut user_round, 4), Ok(333));
    assert_eq!(user_round.minted_points, 100);
    assert_eq!(mint(&game, &round_state, &mut user_round, 4), Err(X1GameError::AlreadyMinted));
    assert_eq!(user_round.minted_points, 100);
    assert_eq!(user_round.points, 100);
}

// Three users split a round three ways: floor division pays each 333 of a
// 1000 cap and the dust of 1 stays unminted.
#[test]
fn rewards_of_a_round_sum_below_its_cap() {
    let game = game_in_round(9);
    let round_state = X1RoundState { cap: 1000, total_points: 3 };
    let mut paid: u128 = 0;
    for _ in 0..3 {
        let mut user_round = X1UserRoundState { points: 1, minted_points: 0 };
        let r = mint(&game, &round_state, &mut user_round, 8);
        assert_eq!(r, Ok(333));
        paid += r.unwrap();
    }
    assert_eq!(paid, 999);
    assert!(paid <= round_state.cap);
}

// When every share divides the cap without remainder, the whole cap is
// paid out: 1000 split 1:1:2 over 4 points pays 250, 250 and 500.
#[test]
fn exact_shares_pay_out_the_whole_cap() {
    let game = game_in_round(9);
    let round_state = X1RoundState { cap: 1000, total_points: 4 };
    let mut paid: u128 = 0;
    for points in [1u128, 1, 2] {
        let mut user_round = X1UserRoundState { points, minted_points: 0 };
        let r = mint(&game, &round_state, &mut user_round, 8);
        assert_eq!(r, Ok(250 * points));
        paid += r.unwrap();
    }
    assert_eq!(paid, round_state.cap);
}

#[test]
fn sole_participant_takes_the_whole_cap() {
    let game = game_in_round(2);
    let round_state = X1RoundState { cap: 9_999_900, total_points: 200 };
    let mut user_round = X1UserRoundState { points: 200, minted_points: 0 };
    assert_eq!(mint(&game, &round_state, &mut user_round, 1), Ok(9_999_900));
    assert_eq!(user_round.minted_points, 200);
}
