//! Round-based click game engine.
//!
//! Actions arrive tagged with a round number. Rounds advance on an external
//! slot clock, and each newly entered round is assigned a frozen reward
//! budget (its cap) that shrinks as the round index grows. Every action
//! updates the acting user's engagement score under a streak/decay/reset
//! policy, and accrues points into global, round, user and user-round
//! counters. Once a round has closed, each participant's share of its cap
//! can be settled exactly once, proportionally to the points they earned in
//! that round.
//!
//! The host ledger that stores the records, authenticates callers and
//! performs the actual token credit is an external collaborator: the engine
//! here is the pure state transition over in-memory record copies.

pub mod conservation;
pub mod engine;
pub mod points;
pub mod rounds;
pub mod scoring;
pub mod settlement;
pub mod state;
