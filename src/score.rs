use vstd::prelude::*;

verus! {

/// A tactical formation; `index` gives its number in the score matrix.
#[derive(Clone, Copy, Debug, PartialEq, Eq, Structural)]
pub enum Tactic {
    Defensive,
    Balanced,
    Aggressive,
    AllOut,
}

impl Tactic {
    pub open spec fn spec_index(self) -> u32 {
        match self {
            Tactic::Defensive => 0,
            Tactic::Balanced => 1,
            Tactic::Aggressive => 2,
            Tactic::AllOut => 3,
        }
    }

    /// The tactic's number: 0 Defensive, 1 Balanced, 2 Aggressive, 3 AllOut.
    pub fn index(&self) -> (r: u32)
        ensures
            r == self.spec_index(),
            r <= 3,
    {
        match self {
            Tactic::Defensive => 0,
            Tactic::Balanced => 1,
            Tactic::Aggressive => 2,
            Tactic::AllOut => 3,
        }
    }
}

/// The score matrix: row is the first player's tactic, column the second's,
/// entry the pair (first player's score, second player's score). Pairs with a
/// tactic outside 0..=3 score (0, 0).
pub open spec fn score_table(t1: u32, t2: u32) -> (u32, u32) {
    match (t1, t2) {
        (0, 0) => (0, 0),
        (0, 1) => (0, 1),
        (0, 2) => (1, 1),
        (0, 3) => (2, 2),
        (1, 0) => (1, 0),
        (1, 1) => (1, 1),
        (1, 2) => (1, 2),
        (1, 3) => (2, 3),
        (2, 0) => (1, 1),
        (2, 1) => (2, 1),
        (2, 2) => (2, 2),
        (2, 3) => (3, 3),
        (3, 0) => (2, 2),
        (3, 1) => (3, 2),
        (3, 2) => (3, 3),
        (3, 3) => (4, 4),
        _ => (0, 0),
    }
}

/// Looks up the scores of a tactic pair in the score matrix.
pub fn get_score(tactic1: u32, tactic2: u32) -> (r: (u32, u32))
    ensures
        r == score_table(tactic1, tactic2),
{
    match (tactic1, tactic2) {
        (0, 0) => (0, 0),
        (0, 1) => (0, 1),
        (0, 2) => (1, 1),
        (0, 3) => (2, 2),
        (1, 0) => (1, 0),
        (1, 1) => (1, 1),
        (1, 2) => (1, 2),
        (1, 3) => (2, 3),
        (2, 0) => (1, 1),
        (2, 1) => (2, 1),
        (2, 2) => (2, 2),
        (2, 3) => (3, 3),
        (3, 0) => (2, 2),
        (3, 1) => (3, 2),
        (3, 2) => (3, 3),
        (3, 3) => (4, 4),
        _ => (0, 0),
    }
}

} // verus!
