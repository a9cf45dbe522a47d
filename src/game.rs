use crate::digest::{keccak256, keccak256_of};
use crate::score::{get_score, score_table};
use vstd::prelude::*;

verus! {

/// A participant's identity token (a player, the admin or the hub).
#[derive(Clone, Copy, Debug, PartialEq, Eq, Structural)]
pub struct Identity {
    pub id: u64,
}

/// The ways an operation on a session can fail.
#[derive(Clone, Copy, Debug, PartialEq, Eq, Structural)]
pub enum Error {
    GameNotFound,
    NotPlayer,
    AlreadySubmitted,
    BothPlayersNotSubmitted,
    GameAlreadyEnded,
    InvalidTactic,
    InvalidProof,
    SessionExists,
}

/// The keys under which the persisted records are stored.
#[derive(Clone, Copy, Debug, PartialEq, Eq, Structural)]
pub enum DataKey {
    Game(u32),
    GameHubAddress,
    Admin,
}

/// A notification owed to the hub.
#[derive(Clone, Copy, Debug, PartialEq, Eq, Structural)]
pub enum HubEvent {
    Started {
        session_id: u32,
        player1: Identity,
        player2: Identity,
        player1_points: i128,
        player2_points: i128,
    },
    Ended { session_id: u32, player1_won: bool },
}

/// One session's record.
#[derive(Clone, Copy, Debug, PartialEq, Eq)]
pub struct Game {
    pub player1: Identity,
    pub player2: Identity,
    pub player1_points: i128,
    pub player2_points: i128,
    pub player1_proof_hash: Option<[u8; 32]>,
    pub player2_proof_hash: Option<[u8; 32]>,
    pub player1_tactic: Option<u32>,
    pub player2_tactic: Option<u32>,
    pub player1_score: Option<u32>,
    pub player2_score: Option<u32>,
    pub winner: Option<Identity>,
}

/// The success or error that an operation with outcome `o` reports.
pub open spec fn unit_of(o: Result<Game, Error>) -> Result<(), Error> {
    match o {
        Ok(_) => Ok(()),
        Err(e) => Err(e),
    }
}

/// The winner, or the error, that a settlement with outcome `o` reports.
pub open spec fn winner_of(o: Result<Game, Error>) -> Result<Identity, Error> {
    match o {
        Ok(g) => Ok(g.winner->Some_0),
        Err(e) => Err(e),
    }
}

/// Accepts a tactic in 0..=3 and refuses any other with `InvalidTactic`.
pub fn check_tactic(tactic: u32) -> (r: Result<(), Error>)
    ensures
        tactic <= 3 ==> r == Ok::<(), Error>(()),
        tactic > 3 ==> r == Err::<(), Error>(Error::InvalidTactic),
{
    if tactic > 3 {
        Err(Error::InvalidTactic)
    } else {
        Ok(())
    }
}

/// A fresh session: both players and stakes, every optional field empty.
pub open spec fn fresh_game(p1: Identity, p2: Identity, pts1: i128, pts2: i128) -> Game {
    Game {
        player1: p1,
        player2: p2,
        player1_points: pts1,
        player2_points: pts2,
        player1_proof_hash: None,
        player2_proof_hash: None,
        player1_tactic: None,
        player2_tactic: None,
        player1_score: None,
        player2_score: None,
        winner: None,
    }
}

/// The record after settlement with tactics `t1`, `t2`: the matrix scores, and
/// the first player as winner unless the second scored strictly more.
pub open spec fn settled(g: Game, t1: u32, t2: u32) -> Game {
    let s = score_table(t1, t2);
    Game {
        player1_score: Some(s.0),
        player2_score: Some(s.1),
        winner: Some(if s.0 >= s.1 { g.player1 } else { g.player2 }),
        ..g
    }
}

impl Game {
    /// Distinct players; a tactic in 0..=3 stored together with its commitment;
    /// scores and winner present exactly when the session is settled, and then
    /// as the matrix gives them.
    pub open spec fn wf(self) -> bool {
        &&& self.player1 != self.player2
        &&& self.player1_proof_hash is Some <==> self.player1_tactic is Some
        &&& self.player2_proof_hash is Some <==> self.player2_tactic is Some
        &&& (self.player1_tactic matches Some(t) ==> t <= 3)
        &&& (self.player2_tactic matches Some(t) ==> t <= 3)
        &&& if self.winner is Some {
            &&& self.player1_tactic is Some
            &&& self.player2_tactic is Some
            &&& self == settled(
                self,
                self.player1_tactic->Some_0,
                self.player2_tactic->Some_0,
            )
        } else {
            self.player1_score is None && self.player2_score is None
        }
    }

    /// A fresh session record between two distinct players.
    pub fn new(player1: Identity, player2: Identity, player1_points: i128, player2_points: i128) -> (r: Game)
        requires
            player1 != player2,
        ensures
            r == fresh_game(player1, player2, player1_points, player2_points),
            r.wf(),
    {
        Game {
            player1,
            player2,
            player1_points,
            player2_points,
            player1_proof_hash: None,
            player2_proof_hash: None,
            player1_tactic: None,
            player2_tactic: None,
            player1_score: None,
            player2_score: None,
            winner: None,
        }
    }

    /// Stores `player`'s tactic with its commitment. Refused, in this order: a
    /// tactic above 3, a settled record, a stranger, a player who already
    /// committed.
    pub fn commit(&mut self, player: Identity, tactic: u32, commitment: [u8; 32]) -> (r: Result<(), Error>)
        ensures
            old(self).wf() ==> final(self).wf(),
            r == unit_of(commit_outcome(*old(self), player, tactic, commitment)),
            *final(self) == record_after(*old(self), commit_outcome(*old(self), player, tactic, commitment)),
    {
        let checked = check_tactic(tactic);
        if checked.is_err() {
            return checked;
        }
        if self.winner.is_some() {
            return Err(Error::GameAlreadyEnded);
        }
        if player == self.player1 {
            if self.player1_proof_hash.is_some() {
                return Err(Error::AlreadySubmitted);
            }
            self.player1_proof_hash = Some(commitment);
            self.player1_tactic = Some(tactic);
        } else if player == self.player2 {
            if self.player2_proof_hash.is_some() {
                return Err(Error::AlreadySubmitted);
            }
            self.player2_proof_hash = Some(commitment);
            self.player2_tactic = Some(tactic);
        } else {
            return Err(Error::NotPlayer);
        }
        Ok(())
    }

    /// Derives the commitment from `proof` as its Keccak-256 digest and then
    /// acts as `commit`.
    pub fn submit(&mut self, env: &soroban_sdk::Env, player: Identity, tactic: u32, proof: &Vec<u8>) -> (r: Result<(), Error>)
        ensures
            old(self).wf() ==> final(self).wf(),
            exists|c: [u8; 32]|
                {
                    &&& c@ == keccak256_of(proof@)
                    &&& r == unit_of(commit_outcome(*old(self), player, tactic, c))
                    &&& *final(self) == record_after(*old(self), commit_outcome(*old(self), player, tactic, c))
                },
    {
        let commitment = keccak256(env, proof);
        self.commit(player, tactic, commitment)
    }

    /// Settles the record once both tactics are in: the matrix scores and the
    /// winner, the first player on a tie. A settled record keeps its winner.
    pub fn settle(&mut self) -> (r: Result<Identity, Error>)
        ensures
            old(self).wf() ==> final(self).wf(),
            r == winner_of(settle_outcome(*old(self))),
            *final(self) == record_after(*old(self), settle_outcome(*old(self))),
    {
        if let Some(winner) = self.winner {
            return Ok(winner);
        }
        let tactic1 = match self.player1_tactic {
            Some(t) => t,
            None => return Err(Error::BothPlayersNotSubmitted),
        };
        let tactic2 = match self.player2_tactic {
            Some(t) => t,
            None => return Err(Error::BothPlayersNotSubmitted),
        };
        let (score1, score2) = get_score(tactic1, tactic2);
        let winner = if score1 >= score2 {
            self.player1
        } else {
            self.player2
        };
        self.player1_score = Some(score1);
        self.player2_score = Some(score2);
        self.winner = Some(winner);
        Ok(winner)
    }
}

/// What a submission of `tactic` with `commitment` by `player` makes of the
/// record `g`: the new record, or the error, checked in this order.
pub open spec fn commit_outcome(g: Game, player: Identity, tactic: u32, commitment: [u8; 32]) -> Result<
    Game,
    Error,
> {
    if tactic > 3 {
        Err(Error::InvalidTactic)
    } else if g.winner is Some {
        Err(Error::GameAlreadyEnded)
    } else if player == g.player1 {
        if g.player1_proof_hash is Some {
            Err(Error::AlreadySubmitted)
        } else {
            Ok(Game { player1_proof_hash: Some(commitment), player1_tactic: Some(tactic), ..g })
        }
    } else if player == g.player2 {
        if g.player2_proof_hash is Some {
            Err(Error::AlreadySubmitted)
        } else {
            Ok(Game { player2_proof_hash: Some(commitment), player2_tactic: Some(tactic), ..g })
        }
    } else {
        Err(Error::NotPlayer)
    }
}

/// What settling the record `g` makes of it: the settled record (`g` itself if
/// already settled), or the error.
pub open spec fn settle_outcome(g: Game) -> Result<Game, Error> {
    if g.winner is Some {
        Ok(g)
    } else if g.player1_tactic is None || g.player2_tactic is None {
        Err(Error::BothPlayersNotSubmitted)
    } else {
        Ok(settled(g, g.player1_tactic->Some_0, g.player2_tactic->Some_0))
    }
}

/// What a submission makes of session `sid`: a tactic above 3 is refused
/// first, then an unknown session, then as `commit_outcome` says.
pub open spec fn submit_outcome(
    games: Map<u32, Game>,
    sid: u32,
    player: Identity,
    tactic: u32,
    commitment: [u8; 32],
) -> Result<Game, Error> {
    if tactic > 3 {
        Err(Error::InvalidTactic)
    } else if !games.contains_key(sid) {
        Err(Error::GameNotFound)
    } else {
        commit_outcome(games[sid], player, tactic, commitment)
    }
}

/// What resolving session `sid` makes of it.
pub open spec fn resolve_outcome(games: Map<u32, Game>, sid: u32) -> Result<Game, Error> {
    if !games.contains_key(sid) {
        Err(Error::GameNotFound)
    } else {
        settle_outcome(games[sid])
    }
}

/// The record after an operation whose outcome is `o`.
pub open spec fn record_after(g: Game, o: Result<Game, Error>) -> Game {
    match o {
        Ok(n) => n,
        Err(_) => g,
    }
}

/// The sessions after an operation on `sid` whose outcome is `o`.
pub open spec fn apply_outcome(games: Map<u32, Game>, sid: u32, o: Result<Game, Error>) -> Map<
    u32,
    Game,
> {
    match o {
        Ok(g) => games.insert(sid, g),
        Err(_) => games,
    }
}

/// The hub notices after resolving `sid`: one `Ended` notice when this call
/// settled the session, none otherwise.
pub open spec fn resolve_notices(
    notices: Seq<HubEvent>,
    games: Map<u32, Game>,
    sid: u32,
) -> Seq<HubEvent> {
    match resolve_outcome(games, sid) {
        Ok(g) => if games[sid].winner is None {
            notices.push(
                HubEvent::Ended {
                    session_id: sid,
                    player1_won: g.player1_score->Some_0 >= g.player2_score->Some_0,
                },
            )
        } else {
            notices
        },
        Err(_) => notices,
    }
}

} // verus!
