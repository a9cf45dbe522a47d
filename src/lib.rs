//! Two-party simultaneous-choice match: each player commits to one of four
//! tactical formations, and a fixed score matrix decides the winner once both
//! have committed.
mod contract;
mod digest;
mod game;
mod laws;
mod score;

pub use contract::ZkTacticalMatchContract;
pub use digest::keccak256_of;
pub use game::{
    apply_outcome, check_tactic, commit_outcome, fresh_game, record_after, resolve_notices,
    resolve_outcome, settle_outcome, settled, submit_outcome, unit_of, winner_of, DataKey, Error,
    Game, HubEvent, Identity,
};
pub use laws::{
    lemma_invalid_tactic, lemma_no_second_submission, lemma_resolve_needs_both, lemma_resolve_twice,
    lemma_sessions_independent, lemma_stranger_refused, lemma_submissions_commute,
    lemma_tie_goes_to_first,
};
pub use score::{get_score, score_table, Tactic};
