//! Commitment-based adjudication for two-player games.
//!
//! A hidden fact (a case solution, a target coordinate) is bound by a
//! collision-resistant digest before play begins, and every later claim is
//! checked by recomputing that digest rather than by trusting a mediator.
//! Two protocol variants share the machinery: a single-commitment variant,
//! where guesses are hashed and compared against a stored commitment, and a
//! two-phase commit-reveal variant, where both players commit, then reveal,
//! and an adjudicator bound by its own prior commitment resolves the winner.

pub mod codec;
pub mod detective;
pub mod proof_gate;
pub mod resolution;
pub mod score;
pub mod seek;
