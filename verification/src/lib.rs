//! Real-time decision core of a game-playing agent.
//!
//! Given a per-tick observation of the environment, the cascade returns an
//! action by escalating through progressively slower decision tiers:
//! a rule engine, an exact-match local cache, a remote similarity search,
//! and a deterministic random fallback that guarantees every call ends in
//! a decision.
//!
//! Fractional quantities (health fractions, confidences, scores, weights,
//! thresholds) are carried throughout as integers in thousandths, so `1000`
//! stands for the fraction one.

pub mod cache;
pub mod cascade;
pub mod clock;
pub mod game;
pub mod rag;
pub mod strategy;
pub mod text;
pub mod wire;

pub use game::Action;
pub use game::Decision;
pub use game::GameState;
