use crate::game::{
    apply_outcome, fresh_game, resolve_notices, resolve_outcome, submit_outcome, unit_of,
    winner_of, Error, Game, HubEvent, Identity,
};
use crate::score::score_table;
use vstd::prelude::*;

verus! {

/// Resolving a session that resolved once reports the same winner again,
/// leaves the sessions as they are and queues no further hub notice.
pub proof fn lemma_resolve_twice(games: Map<u32, Game>, notices: Seq<HubEvent>, sid: u32)
    requires
        resolve_outcome(games, sid) is Ok,
    ensures
        ({
            let games1 = apply_outcome(games, sid, resolve_outcome(games, sid));
            let notices1 = resolve_notices(notices, games, sid);
            &&& winner_of(resolve_outcome(games1, sid)) == winner_of(resolve_outcome(games, sid))
            &&& apply_outcome(games1, sid, resolve_outcome(games1, sid)) == games1
            &&& resolve_notices(notices1, games1, sid) == notices1
        }),
{
    let games1 = apply_outcome(games, sid, resolve_outcome(games, sid));
    assert(games1.insert(sid, games1[sid]) =~= games1);
}

/// A player whose submission to a session succeeded is refused with
/// `AlreadySubmitted` on any later valid submission to that session.
pub proof fn lemma_no_second_submission(
    games: Map<u32, Game>,
    sid: u32,
    player: Identity,
    tactic: u32,
    commitment: [u8; 32],
    tactic2: u32,
    commitment2: [u8; 32],
)
    requires
        submit_outcome(games, sid, player, tactic, commitment) is Ok,
        tactic2 <= 3,
    ensures
        ({
            let games1 = apply_outcome(
                games,
                sid,
                submit_outcome(games, sid, player, tactic, commitment),
            );
            submit_outcome(games1, sid, player, tactic2, commitment2) == Err::<Game, Error>(
                Error::AlreadySubmitted,
            )
        }),
{
}

/// Resolving a session in which a commitment is missing fails with
/// `BothPlayersNotSubmitted`.
pub proof fn lemma_resolve_needs_both(games: Map<u32, Game>, sid: u32)
    requires
        games.contains_key(sid),
        games[sid].wf(),
        games[sid].player1_proof_hash is None || games[sid].player2_proof_hash is None,
    ensures
        resolve_outcome(games, sid) == Err::<Game, Error>(Error::BothPlayersNotSubmitted),
        apply_outcome(games, sid, resolve_outcome(games, sid)) == games,
{
}

/// A tactic of 4 or more is refused with `InvalidTactic`, whatever the session,
/// and the sessions stay as they were.
pub proof fn lemma_invalid_tactic(
    games: Map<u32, Game>,
    sid: u32,
    player: Identity,
    tactic: u32,
    commitment: [u8; 32],
)
    requires
        tactic >= 4,
    ensures
        unit_of(submit_outcome(games, sid, player, tactic, commitment)) == Err::<(), Error>(
            Error::InvalidTactic,
        ),
        apply_outcome(games, sid, submit_outcome(games, sid, player, tactic, commitment))
            == games,
{
}

/// An identity that is neither player of an open session is refused with
/// `NotPlayer` when it submits a valid tactic.
pub proof fn lemma_stranger_refused(
    games: Map<u32, Game>,
    sid: u32,
    player: Identity,
    tactic: u32,
    commitment: [u8; 32],
)
    requires
        games.contains_key(sid),
        games[sid].winner is None,
        player != games[sid].player1,
        player != games[sid].player2,
        tactic <= 3,
    ensures
        submit_outcome(games, sid, player, tactic, commitment) == Err::<Game, Error>(
            Error::NotPlayer,
        ),
{
}

/// On equal scores the first player wins.
pub proof fn lemma_tie_goes_to_first(games: Map<u32, Game>, sid: u32)
    requires
        games.contains_key(sid),
        games[sid].winner is None,
        games[sid].player1_tactic is Some,
        games[sid].player2_tactic is Some,
        score_table(games[sid].player1_tactic->Some_0, games[sid].player2_tactic->Some_0).0
            == score_table(games[sid].player1_tactic->Some_0, games[sid].player2_tactic->Some_0).1,
    ensures
        winner_of(resolve_outcome(games, sid)) == Ok::<Identity, Error>(games[sid].player1),
{
}

/// Starting, submitting to or resolving session `a` leaves the record of
/// any other session `b`, or its absence, as it was.
pub proof fn lemma_sessions_independent(
    games: Map<u32, Game>,
    a: u32,
    b: u32,
    player: Identity,
    tactic: u32,
    commitment: [u8; 32],
    player1: Identity,
    player2: Identity,
    points1: i128,
    points2: i128,
)
    requires
        a != b,
    ensures
        ({
            let started = games.insert(a, fresh_game(player1, player2, points1, points2));
            let submitted = apply_outcome(
                games,
                a,
                submit_outcome(games, a, player, tactic, commitment),
            );
            let resolved = apply_outcome(games, a, resolve_outcome(games, a));
            &&& started.contains_key(b) == games.contains_key(b)
            &&& submitted.contains_key(b) == games.contains_key(b)
            &&& resolved.contains_key(b) == games.contains_key(b)
            &&& games.contains_key(b) ==> {
                &&& started[b] == games[b]
                &&& submitted[b] == games[b]
                &&& resolved[b] == games[b]
            }
        }),
{
}

/// The two players' submissions commute: either order leaves the same
/// sessions.
pub proof fn lemma_submissions_commute(
    games: Map<u32, Game>,
    sid: u32,
    tactic1: u32,
    commitment1: [u8; 32],
    tactic2: u32,
    commitment2: [u8; 32],
)
    requires
        games.contains_key(sid),
        games[sid].wf(),
    ensures
        ({
            let p1 = games[sid].player1;
            let p2 = games[sid].player2;
            let first_then_second = apply_outcome(
                apply_outcome(games, sid, submit_outcome(games, sid, p1, tactic1, commitment1)),
                sid,
                submit_outcome(
                    apply_outcome(games, sid, submit_outcome(games, sid, p1, tactic1, commitment1)),
                    sid,
                    p2,
                    tactic2,
                    commitment2,
                ),
            );
            let second_then_first = apply_outcome(
                apply_outcome(games, sid, submit_outcome(games, sid, p2, tactic2, commitment2)),
                sid,
                submit_outcome(
                    apply_outcome(games, sid, submit_outcome(games, sid, p2, tactic2, commitment2)),
                    sid,
                    p1,
                    tactic1,
                    commitment1,
                ),
            );
            first_then_second == second_then_first
        }),
{
    let p1 = games[sid].player1;
    let p2 = games[sid].player2;
    let a = apply_outcome(games, sid, submit_outcome(games, sid, p1, tactic1, commitment1));
    let b = apply_outcome(games, sid, submit_outcome(games, sid, p2, tactic2, commitment2));
    let ab = apply_outcome(a, sid, submit_outcome(a, sid, p2, tactic2, commitment2));
    let ba = apply_outcome(b, sid, submit_outcome(b, sid, p1, tactic1, commitment1));
    assert(ab =~= ba);
}

} // verus!
