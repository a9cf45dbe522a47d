use crate::digest::{keccak256, keccak256_of};
use crate::game::{
    apply_outcome, check_tactic, fresh_game, resolve_notices, resolve_outcome, submit_outcome, unit_of,
    winner_of, Error, Game, HubEvent, Identity,
};
use std::collections::HashMap;
use vstd::prelude::*;

verus! {

broadcast use vstd::std_specs::hash::group_hash_axioms;

/// The match service: its admin, its hub, the sessions by id, and the hub
/// notices not yet delivered, oldest first.
pub struct ZkTacticalMatchContract {
    admin: Identity,
    game_hub: Identity,
    games: HashMap<u32, Game>,
    notices: Vec<HubEvent>,
}

impl ZkTacticalMatchContract {
    pub closed spec fn admin_spec(&self) -> Identity {
        self.admin
    }

    pub closed spec fn hub_spec(&self) -> Identity {
        self.game_hub
    }

    /// The stored sessions, by id.
    pub closed spec fn sessions(&self) -> Map<u32, Game> {
        self.games@
    }

    /// The hub notices not yet delivered, oldest first.
    pub closed spec fn pending(&self) -> Seq<HubEvent> {
        self.notices@
    }

    /// Every stored session is well formed.
    pub closed spec fn wf(&self) -> bool {
        forall|sid: u32| #[trigger] self.games@.contains_key(sid) ==> self.games@[sid].wf()
    }

    /// A service with no sessions and no pending notices.
    pub fn new(admin: Identity, game_hub: Identity) -> (r: Self)
        ensures
            r.wf(),
            r.admin_spec() == admin,
            r.hub_spec() == game_hub,
            r.sessions() == Map::<u32, Game>::empty(),
            r.pending() == Seq::<HubEvent>::empty(),
    {
        ZkTacticalMatchContract { admin, game_hub, games: HashMap::new(), notices: Vec::new() }
    }

    /// Opens session `session_id` between two distinct players, and queues a
    /// `Started` notice for the hub. An id already in use is refused.
    pub fn start_game(
        &mut self,
        session_id: u32,
        player1: Identity,
        player2: Identity,
        player1_points: i128,
        player2_points: i128,
    ) -> (r: Result<(), Error>)
        requires
            old(self).wf(),
            player1 != player2,
        ensures
            final(self).wf(),
            final(self).admin_spec() == old(self).admin_spec(),
            final(self).hub_spec() == old(self).hub_spec(),
            old(self).sessions().contains_key(session_id) ==> {
                &&& r == Err::<(), Error>(Error::SessionExists)
                &&& final(self).sessions() == old(self).sessions()
                &&& final(self).pending() == old(self).pending()
            },
            !old(self).sessions().contains_key(session_id) ==> {
                &&& r == Ok::<(), Error>(())
                &&& final(self).sessions() == old(self).sessions().insert(
                    session_id,
                    fresh_game(player1, player2, player1_points, player2_points),
                )
                &&& final(self).pending() == old(self).pending().push(
                    HubEvent::Started {
                        session_id,
                        player1,
                        player2,
                        player1_points,
                        player2_points,
                    },
                )
            },
    {
        if self.games.contains_key(&session_id) {
            return Err(Error::SessionExists);
        }
        self.notices.push(
            HubEvent::Started { session_id, player1, player2, player1_points, player2_points },
        );
        let game = Game::new(player1, player2, player1_points, player2_points);
        self.games.insert(session_id, game);
        Ok(())
    }

    /// Stores `player`'s tactic with the commitment `commitment` in session
    /// `session_id`. Refused, in this order: a tactic above 3, an unknown
    /// session, a settled session, a stranger to the session, a player who
    /// already committed.
    pub fn commit_tactic(
        &mut self,
        session_id: u32,
        player: Identity,
        tactic: u32,
        commitment: [u8; 32],
    ) -> (r: Result<(), Error>)
        requires
            old(self).wf(),
        ensures
            final(self).wf(),
            r == unit_of(submit_outcome(old(self).sessions(), session_id, player, tactic, commitment)),
            final(self).sessions() == apply_outcome(
                old(self).sessions(),
                session_id,
                submit_outcome(old(self).sessions(), session_id, player, tactic, commitment),
            ),
            final(self).pending() == old(self).pending(),
            final(self).admin_spec() == old(self).admin_spec(),
            final(self).hub_spec() == old(self).hub_spec(),
    {
        let checked = check_tactic(tactic);
        if checked.is_err() {
            return checked;
        }
        let mut game: Game = match self.games.get(&session_id) {
            Some(g) => *g,
            None => return Err(Error::GameNotFound),
        };
        let r = game.commit(player, tactic, commitment);
        if r.is_err() {
            return r;
        }
        self.games.insert(session_id, game);
        Ok(())
    }

    /// Derives the commitment from `proof` as its Keccak-256 digest and then
    /// acts as `commit_tactic`.
    pub fn submit_tactic(
        &mut self,
        env: &soroban_sdk::Env,
        session_id: u32,
        player: Identity,
        tactic: u32,
        proof: &Vec<u8>,
    ) -> (r: Result<(), Error>)
        requires
            old(self).wf(),
        ensures
            final(self).wf(),
            exists|c: [u8; 32]|
                {
                    &&& c@ == keccak256_of(proof@)
                    &&& r == unit_of(
                        submit_outcome(old(self).sessions(), session_id, player, tactic, c),
                    )
                    &&& final(self).sessions() == apply_outcome(
                        old(self).sessions(),
                        session_id,
                        submit_outcome(old(self).sessions(), session_id, player, tactic, c),
                    )
                },
            final(self).pending() == old(self).pending(),
            final(self).admin_spec() == old(self).admin_spec(),
            final(self).hub_spec() == old(self).hub_spec(),
    {
        let commitment = keccak256(env, proof);
        self.commit_tactic(session_id, player, tactic, commitment)
    }

    /// Settles session `session_id` once both tactics are in: the matrix
    /// scores, the winner (the first player on a tie), and one `Ended` notice.
    /// A settled session returns its stored winner and changes nothing.
    pub fn resolve_match(&mut self, session_id: u32) -> (r: Result<Identity, Error>)
        requires
            old(self).wf(),
        ensures
            final(self).wf(),
            r == winner_of(resolve_outcome(old(self).sessions(), session_id)),
            final(self).sessions() == apply_outcome(
                old(self).sessions(),
                session_id,
                resolve_outcome(old(self).sessions(), session_id),
            ),
            final(self).pending() == resolve_notices(
                old(self).pending(),
                old(self).sessions(),
                session_id,
            ),
            final(self).admin_spec() == old(self).admin_spec(),
            final(self).hub_spec() == old(self).hub_spec(),
    {
        let mut game: Game = match self.games.get(&session_id) {
            Some(g) => *g,
            None => return Err(Error::GameNotFound),
        };
        if let Some(winner) = game.winner {
            proof {
                assert(self.games@.insert(session_id, game) =~= self.games@);
            }
            return Ok(winner);
        }
        let r = game.settle();
        if let Ok(winner) = r {
            self.games.insert(session_id, game);
            self.notices.push(
                HubEvent::Ended {
                    session_id,
                    player1_won: game.player1_score.unwrap() >= game.player2_score.unwrap(),
                },
            );
        }
        r
    }

    /// The stored record of session `session_id`.
    pub fn get_game(&self, session_id: u32) -> (r: Result<Game, Error>)
        ensures
            self.sessions().contains_key(session_id) ==> r == Ok::<Game, Error>(
                self.sessions()[session_id],
            ),
            !self.sessions().contains_key(session_id) ==> r == Err::<Game, Error>(
                Error::GameNotFound,
            ),
    {
        match self.games.get(&session_id) {
            Some(g) => Ok(*g),
            None => Err(Error::GameNotFound),
        }
    }

    /// Hands over the hub notices not yet delivered, oldest first, and clears
    /// them.
    pub fn take_notices(&mut self) -> (r: Vec<HubEvent>)
        requires
            old(self).wf(),
        ensures
            final(self).wf(),
            r@ == old(self).pending(),
            final(self).pending() == Seq::<HubEvent>::empty(),
            final(self).sessions() == old(self).sessions(),
            final(self).admin_spec() == old(self).admin_spec(),
            final(self).hub_spec() == old(self).hub_spec(),
    {
        let mut taken: Vec<HubEvent> = Vec::new();
        core::mem::swap(&mut taken, &mut self.notices);
        taken
    }

    /// The current admin.
    pub fn get_admin(&self) -> (r: Identity)
        ensures
            r == self.admin_spec(),
    {
        self.admin
    }

    /// Replaces the admin.
    pub fn set_admin(&mut self, new_admin: Identity)
        requires
            old(self).wf(),
        ensures
            final(self).wf(),
            final(self).admin_spec() == new_admin,
            final(self).hub_spec() == old(self).hub_spec(),
            final(self).sessions() == old(self).sessions(),
            final(self).pending() == old(self).pending(),
    {
        self.admin = new_admin;
    }

    /// The current hub.
    pub fn get_hub(&self) -> (r: Identity)
        ensures
            r == self.hub_spec(),
    {
        self.game_hub
    }

    /// Replaces the hub.
    pub fn set_hub(&mut self, new_hub: Identity)
        requires
            old(self).wf(),
        ensures
            final(self).wf(),
            final(self).hub_spec() == new_hub,
            final(self).admin_spec() == old(self).admin_spec(),
            final(self).sessions() == old(self).sessions(),
            final(self).pending() == old(self).pending(),
    {
        self.game_hub = new_hub;
    }
}

} // verus!
