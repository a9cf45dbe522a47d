use soroban_sdk::Env;
use zk_tactical_match::{
    check_tactic, get_score, Error, Game, HubEvent, Identity, Tactic, ZkTacticalMatchContract,
};

const P1: Identity = Identity { id: 1 };
const P2: Identity = Identity { id: 2 };

fn service() -> ZkTacticalMatchContract {
    ZkTacticalMatchContract::new(Identity { id: 100 }, Identity { id: 101 })
}

fn started(session_id: u32) -> ZkTacticalMatchContract {
    let mut c = service();
    c.start_game(session_id, P1, P2, 10, 20).unwrap();
    c
}

#[test]
fn score_matrix_every_entry() {
    let table: [[(u32, u32); 4]; 4] = [
        [(0, 0), (0, 1), (1, 1), (2, 2)],
        [(1, 0), (1, 1), (1, 2), (2, 3)],
        [(1, 1), (2, 1), (2, 2), (3, 3)],
        [(2, 2), (3, 2), (3, 3), (4, 4)],
    ];
    for t1 in 0..4u32 {
        for t2 in 0..4u32 {
            assert_eq!(get_score(t1, t2), table[t1 as usize][t2 as usize]);
        }
    }
}

#[test]
fn score_matrix_examples() {
    assert_eq!(get_score(0, 2), (1, 1));
    assert_eq!(get_score(1, 3), (2, 3));
    assert_eq!(get_score(3, 3), (4, 4));
}

#[test]
fn score_matrix_out_of_range_is_zero() {
    assert_eq!(get_score(4, 0), (0, 0));
    assert_eq!(get_score(0, 4), (0, 0));
    assert_eq!(get_score(u32::MAX, u32::MAX), (0, 0));
}

#[test]
fn tactic_indices() {
    assert_eq!(Tactic::Defensive.index(), 0);
    assert_eq!(Tactic::Balanced.index(), 1);
    assert_eq!(Tactic::Aggressive.index(), 2);
    assert_eq!(Tactic::AllOut.index(), 3);
}

#[test]
fn start_records_fresh_session_and_notice() {
    let mut c = started(5);
    let g = c.get_game(5).unwrap();
    assert_eq!(g.player1, P1);
    assert_eq!(g.player2, P2);
    assert_eq!(g.player1_points, 10);
    assert_eq!(g.player2_points, 20);
    assert!(g.player1_tactic.is_none() && g.player2_tactic.is_none());
    assert!(g.player1_proof_hash.is_none() && g.player2_proof_hash.is_none());
    assert!(g.player1_score.is_none() && g.player2_score.is_none());
    assert!(g.winner.is_none());
    let n = c.take_notices();
    assert_eq!(
        n,
        vec![HubEvent::Started {
            session_id: 5,
            player1: P1,
            player2: P2,
            player1_points: 10,
            player2_points: 20,
        }]
    );
    assert!(c.take_notices().is_empty());
}

#[test]
fn start_on_used_id_is_refused() {
    let mut c = started(5);
    c.take_notices();
    let r = c.start_game(5, Identity { id: 7 }, Identity { id: 8 }, 1, 1);
    assert_eq!(r, Err(Error::SessionExists));
    assert_eq!(c.get_game(5).unwrap().player1, P1);
    assert!(c.take_notices().is_empty());
}

#[test]
fn unknown_session_is_not_found() {
    let env = Env::default();
    let mut c = started(1);
    assert_eq!(c.get_game(2), Err(Error::GameNotFound));
    assert_eq!(c.resolve_match(2), Err(Error::GameNotFound));
    assert_eq!(c.submit_tactic(&env, 2, P1, 0, &vec![1]), Err(Error::GameNotFound));
}

#[test]
fn invalid_tactic_checked_before_lookup_and_leaves_state() {
    let mut c = started(1);
    let before = c.get_game(1).unwrap();
    assert_eq!(c.commit_tactic(1, P1, 4, [0; 32]), Err(Error::InvalidTactic));
    assert_eq!(c.commit_tactic(1, P1, u32::MAX, [0; 32]), Err(Error::InvalidTactic));
    assert_eq!(c.commit_tactic(99, P1, 4, [0; 32]), Err(Error::InvalidTactic));
    assert_eq!(c.get_game(1).unwrap(), before);
}

#[test]
fn submission_after_settlement_is_refused() {
    let mut c = started(1);
    c.commit_tactic(1, P1, 0, [1; 32]).unwrap();
    c.commit_tactic(1, P2, 0, [2; 32]).unwrap();
    c.resolve_match(1).unwrap();
    assert_eq!(c.commit_tactic(1, P1, 0, [3; 32]), Err(Error::GameAlreadyEnded));
    assert_eq!(c.commit_tactic(1, Identity { id: 9 }, 0, [3; 32]), Err(Error::GameAlreadyEnded));
}

#[test]
fn second_player_cannot_submit_twice() {
    let mut c = started(1);
    c.commit_tactic(1, P2, 3, [2; 32]).unwrap();
    assert_eq!(c.commit_tactic(1, P2, 0, [5; 32]), Err(Error::AlreadySubmitted));
    let g = c.get_game(1).unwrap();
    assert_eq!(g.player2_tactic, Some(3));
    assert_eq!(g.player2_proof_hash, Some([2; 32]));
}

#[test]
fn commitment_and_tactic_are_stored_in_the_callers_slot() {
    let mut c = started(1);
    c.commit_tactic(1, P1, 2, [7; 32]).unwrap();
    let g = c.get_game(1).unwrap();
    assert_eq!(g.player1_tactic, Some(2));
    assert_eq!(g.player1_proof_hash, Some([7; 32]));
    assert_eq!(g.player2_tactic, None);
    assert_eq!(g.player2_proof_hash, None);
}

#[test]
fn submitted_commitment_is_keccak_of_proof() {
    let env = Env::default();
    let mut c = started(1);
    c.submit_tactic(&env, 1, P1, 1, &Vec::new()).unwrap();
    let expected: [u8; 32] = [
        0xc5, 0xd2, 0x46, 0x01, 0x86, 0xf7, 0x23, 0x3c, 0x92, 0x7e, 0x7d, 0xb2, 0xdc, 0xc7, 0x03,
        0xc0, 0xe5, 0x00, 0xb6, 0x53, 0xca, 0x82, 0x27, 0x3b, 0x7b, 0xfa, 0xd8, 0x04, 0x5d, 0x85,
        0xa4, 0x70,
    ];
    assert_eq!(c.get_game(1).unwrap().player1_proof_hash, Some(expected));
}

#[test]
fn different_proofs_give_different_commitments() {
    let env = Env::default();
    let mut c = started(1);
    let proof1: Vec<u8> = vec![0, 0, 0, 1];
    let proof2: Vec<u8> = vec![0, 0, 0, 2];
    c.submit_tactic(&env, 1, P1, 1, &proof1).unwrap();
    c.submit_tactic(&env, 1, P2, 2, &proof2).unwrap();
    let g = c.get_game(1).unwrap();
    let h1 = g.player1_proof_hash.unwrap();
    let h2 = g.player2_proof_hash.unwrap();
    assert_ne!(h1, h2);
    assert_ne!(h1.to_vec(), proof1);
}

#[test]
fn second_player_wins_on_higher_score() {
    let mut c = started(1);
    c.commit_tactic(1, P1, 1, [0; 32]).unwrap();
    c.commit_tactic(1, P2, 3, [0; 32]).unwrap();
    assert_eq!(c.resolve_match(1), Ok(P2));
    let g = c.get_game(1).unwrap();
    assert_eq!((g.player1_score, g.player2_score), (Some(2), Some(3)));
    assert_eq!(g.winner, Some(P2));
}

#[test]
fn tie_goes_to_first_player() {
    for t in 0..4u32 {
        let mut c = started(1);
        c.commit_tactic(1, P2, t, [0; 32]).unwrap();
        c.commit_tactic(1, P1, t, [0; 32]).unwrap();
        assert_eq!(c.resolve_match(1), Ok(P1));
    }
    let mut c = started(1);
    c.commit_tactic(1, P1, 0, [0; 32]).unwrap();
    c.commit_tactic(1, P2, 2, [0; 32]).unwrap();
    assert_eq!(c.resolve_match(1), Ok(P1));
}

#[test]
fn resolve_notifies_hub_once() {
    let mut c = started(4);
    c.take_notices();
    c.commit_tactic(4, P1, 1, [0; 32]).unwrap();
    c.commit_tactic(4, P2, 2, [0; 32]).unwrap();
    assert!(c.take_notices().is_empty());
    assert_eq!(c.resolve_match(4), Ok(P2));
    assert_eq!(c.resolve_match(4), Ok(P2));
    assert_eq!(
        c.take_notices(),
        vec![HubEvent::Ended { session_id: 4, player1_won: false }]
    );
}

#[test]
fn failed_resolve_changes_nothing() {
    let mut c = started(1);
    c.take_notices();
    let before = c.get_game(1).unwrap();
    assert_eq!(c.resolve_match(1), Err(Error::BothPlayersNotSubmitted));
    c.commit_tactic(1, P2, 0, [0; 32]).unwrap();
    assert_eq!(c.resolve_match(1), Err(Error::BothPlayersNotSubmitted));
    assert_eq!(c.get_game(1).unwrap().player1_tactic, before.player1_tactic);
    assert!(c.take_notices().is_empty());
}

#[test]
fn sessions_evolve_independently() {
    let mut c = started(10);
    c.start_game(11, Identity { id: 3 }, Identity { id: 4 }, 5, 5).unwrap();
    let other = c.get_game(11).unwrap();
    c.commit_tactic(10, P1, 0, [1; 32]).unwrap();
    c.commit_tactic(10, P2, 1, [1; 32]).unwrap();
    c.resolve_match(10).unwrap();
    assert_eq!(c.get_game(11).unwrap(), other);
    assert_eq!(c.commit_tactic(11, P1, 0, [1; 32]), Err(Error::NotPlayer));
}

#[test]
fn admin_and_hub_can_be_replaced() {
    let mut c = service();
    assert_eq!(c.get_admin(), Identity { id: 100 });
    assert_eq!(c.get_hub(), Identity { id: 101 });
    c.set_admin(Identity { id: 200 });
    c.set_hub(Identity { id: 201 });
    assert_eq!(c.get_admin(), Identity { id: 200 });
    assert_eq!(c.get_hub(), Identity { id: 201 });
}

#[test]
fn tactic_check_bounds() {
    assert_eq!(check_tactic(0), Ok(()));
    assert_eq!(check_tactic(3), Ok(()));
    assert_eq!(check_tactic(4), Err(Error::InvalidTactic));
}

#[test]
fn record_commit_and_settle() {
    let mut g = Game::new(P1, P2, 3, 4);
    assert_eq!(g.settle(), Err(Error::BothPlayersNotSubmitted));
    assert_eq!(g.commit(P1, 9, [0; 32]), Err(Error::InvalidTactic));
    assert_eq!(g.commit(Identity { id: 5 }, 1, [0; 32]), Err(Error::NotPlayer));
    assert_eq!(g.commit(P1, 2, [4; 32]), Ok(()));
    assert_eq!(g.commit(P1, 2, [4; 32]), Err(Error::AlreadySubmitted));
    assert_eq!(g.commit(P2, 1, [5; 32]), Ok(()));
    assert_eq!(g.settle(), Ok(P1));
    assert_eq!((g.player1_score, g.player2_score), (Some(2), Some(1)));
    let settled = g;
    assert_eq!(g.settle(), Ok(P1));
    assert_eq!(g, settled);
    assert_eq!(g.commit(P2, 1, [5; 32]), Err(Error::GameAlreadyEnded));
}

#[test]
fn record_submit_hashes_the_proof() {
    let env = Env::default();
    let mut g = Game::new(P1, P2, 0, 0);
    g.submit(&env, P2, 0, &Vec::new()).unwrap();
    assert_eq!(g.player2_tactic, Some(0));
    assert_eq!(g.player2_proof_hash.unwrap()[0], 0xc5);
    assert_eq!(g.player2_proof_hash.unwrap()[31], 0x70);
}

#[test]
fn submission_order_does_not_matter() {
    let mut a = started(1);
    a.commit_tactic(1, P1, 2, [1; 32]).unwrap();
    a.commit_tactic(1, P2, 3, [2; 32]).unwrap();
    let mut b = started(1);
    b.commit_tactic(1, P2, 3, [2; 32]).unwrap();
    b.commit_tactic(1, P1, 2, [1; 32]).unwrap();
    assert_eq!(a.get_game(1), b.get_game(1));
}
