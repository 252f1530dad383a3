//! Settlement core of a provably-fair Plinko gambling engine.
//!
//! The crate models the game-state machine and the payout/accounting rules:
//! a wager is accepted and escrowed (`instructions::play_game`), a verifiable
//! random seed is committed to, ball outcomes are derived from the seed once
//! the oracle answers, and funds are reconciled between the player, the
//! pooled house bankroll and the fee sink (`instructions::fulfill_random_words`).
//! The ledger store, the value-transfer primitive and the randomness oracle
//! are external collaborators: callers hand their results in as plain values.

pub mod account;
pub mod errors;
pub mod instructions;
