use zk_games::codec::AccountId;
use zk_games::detective::{GameState, GameStatus, ZkDetectiveContract};
use zk_games::proof_gate::{UltraHonkVerifierContract, VerifierError};
use zk_games::score::score_value;

fn solved_game(start: u32, solve: u32, wrong: u32, clues: u32, rooms: u32) -> GameState {
    GameState {
        session_id: 1,
        case_id: 1,
        player1: AccountId { id: 2 },
        player2: AccountId { id: 3 },
        start_ledger: start,
        solve_ledger: solve,
        clues_inspected: clues,
        rooms_visited: rooms,
        wrong_accusations: wrong,
        status: GameStatus::Solved,
        winner: Some(AccountId { id: 2 }),
    }
}

#[test]
fn test_clean_solve_scores_base() {
    assert_eq!(score_value(100, 100, 0, 0, 0), 10000);
    assert_eq!(ZkDetectiveContract::compute_score(&solved_game(100, 100, 0, 0, 0)), 10000);
}

#[test]
fn test_each_wrong_attempt_costs_500() {
    assert_eq!(score_value(100, 100, 1, 0, 0), 9500);
    assert_eq!(score_value(100, 100, 2, 0, 0), 9000);
    // Floored at zero overall: 25 wrong attempts would go to -2500
    assert_eq!(score_value(100, 100, 25, 0, 0), 0);
}

#[test]
fn test_elapsed_ticks_subtract_one_each_up_to_cap() {
    assert_eq!(score_value(100, 1100, 0, 0, 0), 9000);
    assert_eq!(score_value(100, 5100, 0, 0, 0), 5000);
    // Capped at 5000 ticks
    assert_eq!(score_value(100, 1_000_100, 0, 0, 0), 5000);
    // A clock running backwards costs nothing
    assert_eq!(score_value(1100, 100, 0, 0, 0), 10000);
}

#[test]
fn test_exploration_bonus() {
    assert_eq!(score_value(100, 100, 0, 8, 4), 11000);
    assert_eq!(
        ZkDetectiveContract::compute_score(&solved_game(100, 200, 1, 6, 4)),
        10000 - 100 - 500 + 600 + 200
    );
}

#[test]
fn test_verify_outcome_mapping() {
    assert_eq!(
        UltraHonkVerifierContract::verify_outcome(false, false),
        Err(VerifierError::InvalidVk)
    );
    assert_eq!(
        UltraHonkVerifierContract::verify_outcome(false, true),
        Err(VerifierError::InvalidVk)
    );
    assert_eq!(
        UltraHonkVerifierContract::verify_outcome(true, false),
        Err(VerifierError::VerificationFailed)
    );
    assert_eq!(UltraHonkVerifierContract::verify_outcome(true, true), Ok(()));
}

#[test]
fn test_verifier_holds_key() {
    let vk: Vec<u8> = vec![1, 2, 3, 4];
    let verifier = UltraHonkVerifierContract::new(vk.clone());
    assert_eq!(verifier.vk_bytes(), &vk);
}
