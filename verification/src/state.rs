//! The record types held by the host ledger, and the engine's configuration
//! constants and error taxonomy.

use vstd::prelude::*;

verus! {

/// Number of clock slots that one round lasts.
pub const SLOTS_PER_ROUND: u64 = 256;

/// Theoretical reward budget at round index zero; each round's cap shrinks
/// from it by `ROUND_CAP_DEC` per index.
pub const ROUND_CAP_START: u128 = 10_000_000;

/// Amount by which the reward budget shrinks per round index.
pub const ROUND_CAP_DEC: u128 = 100;

/// Points granted by one action are this base times (score + 1).
pub const POINTS_BASE: u128 = 100;

/// Step by which a user's streak score grows or decays.
pub const USER_SCORE_BASE_INC: u64 = 1;

/// The global singleton record: which round is current, when it started,
/// and the lifetime point total over all users and rounds.
#[derive(Clone, Copy, Debug, PartialEq, Eq, Structural)]
pub struct X1GameState {
    /// Clock reading at the last round rollover.
    pub last_round_slot: u64,
    /// Index of the round actions must currently be tagged with (>= 1 once
    /// the game is initialized).
    pub current_round: u64,
    /// Points accrued by all users across all rounds.
    pub total_points: u128,
}

/// One record per round number, created lazily as a zero record on the
/// first action that references the round.
#[derive(Clone, Copy, Debug, PartialEq, Eq, Structural)]
pub struct X1RoundState {
    /// The round's fixed total reward budget, assigned exactly once when
    /// the round is entered by a rollover and immutable thereafter.
    pub cap: u128,
    /// Points accrued by all users within this round.
    pub total_points: u128,
}

/// One record per (user, round) pair, created lazily as a zero record.
#[derive(Clone, Copy, Debug, PartialEq, Eq, Structural)]
pub struct X1UserRoundState {
    /// Points this user earned in this round.
    pub points: u128,
    /// Points already settled for this round: zero until settlement, then
    /// equal to `points` forever.
    pub minted_points: u128,
}

/// One record per participant, created lazily as a zero record.
#[derive(Clone, Copy, Debug, PartialEq, Eq, Structural)]
pub struct X1UserState {
    /// The last round this user acted in.
    pub last_round: u64,
    /// Engagement streak score; grows on steady participation, decays or
    /// resets after missed rounds.
    pub score: u64,
    /// Lifetime points of this user across all rounds.
    pub user_points: u128,
}

/// Why an action was rejected. Every rejection aborts the whole action:
/// the caller commits no state on an `Err`.
#[derive(Clone, Copy, Debug, PartialEq, Eq, Structural)]
pub enum X1GameError {
    /// The token mint was already set up.
    MintIsAlreadyActive,
    /// The token mint has not started or is over.
    MintIsNotActive,
    /// The supplied clock reading does not move forward.
    BadSlotValue,
    /// A supplied parameter is inconsistent with the records it refers to.
    BadParam,
    /// The claimed round is not the one the action needs: for a click, not
    /// the resolved current round; for a settlement, not a closed round.
    WrongRound,
    /// This (user, round) pair was already settled.
    AlreadyMinted,
}

impl Default for X1GameState {
    /// The zero record the ledger materializes on first touch.
    fn default() -> (g: X1GameState)
        ensures
            g == (X1GameState { last_round_slot: 0, current_round: 0, total_points: 0 }),
    {
        X1GameState { last_round_slot: 0, current_round: 0, total_points: 0 }
    }
}

impl Default for X1RoundState {
    /// The zero record the ledger materializes on first touch.
    fn default() -> (rs: X1RoundState)
        ensures
            rs == (X1RoundState { cap: 0, total_points: 0 }),
    {
        X1RoundState { cap: 0, total_points: 0 }
    }
}

impl Default for X1UserRoundState {
    /// The zero record the ledger materializes on first touch.
    fn default() -> (urs: X1UserRoundState)
        ensures
            urs == (X1UserRoundState { points: 0, minted_points: 0 }),
    {
        X1UserRoundState { points: 0, minted_points: 0 }
    }
}

impl Default for X1UserState {
    /// The zero record the ledger materializes on first touch.
    fn default() -> (us: X1UserState)
        ensures
            us == (X1UserState { last_round: 0, score: 0, user_points: 0 }),
    {
        X1UserState { last_round: 0, score: 0, user_points: 0 }
    }
}

} // verus!
