use x1_game::engine::click;
use x1_game::engine::initialize;
use x1_game::settlement::mint;
use x1_game::state::X1GameError;
use x1_game::state::X1GameState;
use x1_game::state::X1RoundState;
use x1_game::state::X1UserRoundState;
use x1_game::state::X1UserState;

fn fresh_game() -> X1GameState {
    let mut game = X1GameState::default();
    initialize(&mut game, 0);
    game
}

#[test]
fn initialize_starts_round_one() {
    let game = fresh_game();
    assert_eq!(game.current_round, 1);
    assert_eq!(game.last_round_slot, 0);
    assert_eq!(game.total_points, 0);
}

#[test]
fn initialize_keeps_lifetime_points() {
    let mut game = X1GameState { last_round_slot: 7, current_round: 9, total_points: 1234 };
    initialize(&mut game, 50);
    assert_eq!(game.current_round, 1);
    assert_eq!(game.last_round_slot, 50);
    assert_eq!(game.total_points, 1234);
}

// The worked scenario: one user clicks in round 1, then in round 2 after a
// rollover, then settles round 1.
#[test]
fn scenario_two_rounds_and_settlement() {
    let mut game = fresh_game();
    let mut round1 = X1RoundState::default();
    let mut round2 = X1RoundState::default();
    let mut user = X1UserState::default();
    let mut user_round1 = X1UserRoundState::default();
    let mut user_round2 = X1UserRoundState::default();

    // First click at slot 1 with round 1: no rollover, streak starts.
    let r = click(&mut game, &mut round1, &mut user, &mut user_round1, 1, 1);
    assert_eq!(r, Ok(()));
    assert_eq!(game.current_round, 1);
    assert_eq!(game.last_round_slot, 0);
    assert_eq!(user.score, 1);
    assert_eq!(game.total_points, 200);
    assert_eq!(round1.total_points, 200);
    assert_eq!(user_round1.points, 200);
    assert_eq!(user.user_points, 200);
    assert_eq!(user.last_round, 1);

    // A click at slot 300 with round 2: one round elapsed, the entered
    // round's cap freezes at 10_000_000 - 100 * 2.
    let r = click(&mut game, &mut round2, &mut user, &mut user_round2, 2, 300);
    assert_eq!(r, Ok(()));
    assert_eq!(game.current_round, 2);
    assert_eq!(game.last_round_slot, 300);
    assert_eq!(round2.cap, 9_999_800);
    assert_eq!(user.score, 2);
    assert_eq!(user_round2.points, 300);
    assert_eq!(round2.total_points, 300);
    assert_eq!(game.total_points, 500);
    assert_eq!(user.user_points, 500);

    // Round 1 is now closed: the only participant settles its whole cap.
    // Round 1 was never entered by a rollover, so its lazily created
    // record still carries a zero cap, and the full cap paid out is zero.
    let r = mint(&game, &round1, &mut user_round1, 1);
    assert_eq!(r, Ok(round1.cap));
    assert_eq!(round1.cap, 0);
    assert_eq!(user_round1.minted_points, user_round1.points);
}

#[test]
fn click_rejects_stale_clock() {
    let mut game = fresh_game();
    let mut round1 = X1RoundState::default();
    let mut user = X1UserState::default();
    let mut user_round = X1UserRoundState::default();
    let r = click(&mut game, &mut round1, &mut user, &mut user_round, 1, 0);
    assert_eq!(r, Err(X1GameError::BadSlotValue));
    assert_eq!(game, fresh_game());
    assert_eq!(round1, X1RoundState::default());
    assert_eq!(user, X1UserState::default());
    assert_eq!(user_round, X1UserRoundState::default());
}

// A claimed round other than the resolved one fails and commits nothing,
// even though the clock alone would have started a new round.
#[test]
fn click_rejects_wrong_round_without_mutation() {
    let mut game = fresh_game();
    let mut round_state = X1RoundState::default();
    let mut user = X1UserState::default();
    let mut user_round = X1UserRoundState::default();
    // Slot 300 resolves to round 2; claiming round 1 must fail.
    let r = click(&mut game, &mut round_state, &mut user, &mut user_round, 1, 300);
    assert_eq!(r, Err(X1GameError::WrongRound));
    assert_eq!(game.current_round, 1);
    assert_eq!(game.last_round_slot, 0);
    assert_eq!(round_state, X1RoundState::default());
    assert_eq!(user, X1UserState::default());
    assert_eq!(user_round, X1UserRoundState::default());
}

#[test]
fn click_rejects_user_record_from_the_future() {
    let mut game = fresh_game();
    let mut round_state = X1RoundState::default();
    let mut user = X1UserState { last_round: 5, score: 3, user_points: 900 };
    let mut user_round = X1UserRoundState::default();
    let r = click(&mut game, &mut round_state, &mut user, &mut user_round, 1, 10);
    assert_eq!(r, Err(X1GameError::BadParam));
    assert_eq!(user, X1UserState { last_round: 5, score: 3, user_points: 900 });
    assert_eq!(game, fresh_game());
}

// Once the shrinking cap schedule is exhausted, rounds stop advancing and
// the game freezes in its last round.
#[test]
fn rounds_freeze_when_schedule_closes() {
    let mut game = X1GameState { last_round_slot: 0, current_round: 100_000, total_points: 0 };
    let mut round_state = X1RoundState::default();
    let mut user = X1UserState { last_round: 100_000, score: 0, user_points: 0 };
    let mut user_round = X1UserRoundState::default();
    // Plenty of slots elapsed, yet the round stays put; a click on the
    // frozen round still succeeds.
    let r = click(&mut game, &mut round_state, &mut user, &mut user_round, 100_000, 10_000);
    assert_eq!(r, Ok(()));
    assert_eq!(game.current_round, 100_000);
    assert_eq!(game.last_round_slot, 0);
    assert_eq!(round_state.cap, 0);
    assert_eq!(user.score, 1);
}

// A rollover that jumps past the end of the cap schedule clamps the
// entered round's cap at zero instead of wrapping around.
#[test]
fn rollover_past_schedule_clamps_cap_at_zero() {
    let mut game = X1GameState { last_round_slot: 0, current_round: 99_999, total_points: 0 };
    let mut round_state = X1RoundState::default();
    let mut user = X1UserState { last_round: 99_999, score: 0, user_points: 0 };
    let mut user_round = X1UserRoundState::default();
    // 256_000 slots elapse: 1000 rounds pass at once.
    let r = click(&mut game, &mut round_state, &mut user, &mut user_round, 100_999, 256_000);
    assert_eq!(r, Ok(()));
    assert_eq!(game.current_round, 100_999);
    assert_eq!(round_state.cap, 0);
}

#[test]
fn rollover_cap_follows_schedule() {
    let mut game = X1GameState { last_round_slot: 1000, current_round: 41, total_points: 0 };
    let mut round_state = X1RoundState::default();
    let mut user = X1UserState::default();
    let mut user_round = X1UserRoundState::default();
    // 512 slots elapse: two rounds pass, landing in round 43.
    let r = click(&mut game, &mut round_state, &mut user, &mut user_round, 43, 1512);
    assert_eq!(r, Ok(()));
    assert_eq!(game.current_round, 43);
    assert_eq!(game.last_round_slot, 1512);
    assert_eq!(round_state.cap, 10_000_000 - 100 * 43);
}
