use soroban_sdk::Env;
use zk_games::codec::{AccountId, Bytes32};
use zk_games::detective::{
    compute_commitment, validate_accusation_ids, Error, GameStatus, ZkDetectiveContract,
};

fn setup_test() -> (Env, ZkDetectiveContract, AccountId, AccountId, AccountId) {
    let env = Env::default();
    let admin = AccountId { id: 1 };
    let hub = AccountId { id: 99 };
    let contract = ZkDetectiveContract::new(admin, hub);
    let player1 = AccountId { id: 2 };
    let player2 = AccountId { id: 3 };
    (env, contract, admin, player1, player2)
}

fn case_salt() -> Bytes32 {
    Bytes32 { bytes: [0xAB; 32] }
}

/// Setup a test with a case already created.
/// Solution: suspect=1, weapon=1, room=1.
fn setup_with_case() -> (Env, ZkDetectiveContract, AccountId, AccountId, AccountId, Bytes32) {
    let (env, mut contract, admin, player1, player2) = setup_test();
    let salt = case_salt();
    let commitment = compute_commitment(&env, 1, 1, 1, &salt);
    contract.create_case(1, commitment).unwrap();
    (env, contract, admin, player1, player2, salt)
}

/// Setup a test with case + active game session, started at tick 100.
fn setup_with_game() -> (Env, ZkDetectiveContract, AccountId, AccountId, AccountId, Bytes32) {
    let (env, mut contract, admin, player1, player2, salt) = setup_with_case();
    let points: i128 = 100_0000000;
    contract
        .start_game(100, 1, player1, player2, points, points, 1)
        .unwrap();
    (env, contract, admin, player1, player2, salt)
}

#[test]
fn test_constructor_sets_admin() {
    let (_env, contract, admin, _p1, _p2) = setup_test();
    assert_eq!(contract.get_admin(), admin);
}

#[test]
fn test_constructor_sets_hub() {
    let (_env, contract, _admin, _p1, _p2) = setup_test();
    let _hub = contract.get_hub();
}

#[test]
fn test_create_case() {
    let (env, mut contract, _admin, _p1, _p2) = setup_test();
    let salt = case_salt();
    let commitment = compute_commitment(&env, 1, 1, 1, &salt);
    contract.create_case(1, commitment).unwrap();

    let stored = contract.get_case(1).unwrap();
    assert_eq!(stored, commitment);
}

#[test]
fn test_create_multiple_cases() {
    let (env, mut contract, _admin, _p1, _p2) = setup_test();
    let salt = case_salt();

    let comm1 = compute_commitment(&env, 1, 1, 1, &salt);
    let comm2 = compute_commitment(&env, 2, 3, 4, &salt);

    contract.create_case(1, comm1).unwrap();
    contract.create_case(2, comm2).unwrap();

    assert_eq!(contract.get_case(1).unwrap(), comm1);
    assert_eq!(contract.get_case(2).unwrap(), comm2);
}

#[test]
fn test_create_case_duplicate_rejected() {
    let (env, mut contract, _admin, _p1, _p2) = setup_test();
    let salt = case_salt();
    let commitment = compute_commitment(&env, 1, 1, 1, &salt);

    contract.create_case(1, commitment).unwrap();

    let result = contract.create_case(1, commitment);
    assert_eq!(result, Err(Error::CaseAlreadyExists));
}

#[test]
fn test_get_case_not_found() {
    let (_env, contract, _admin, _p1, _p2) = setup_test();
    let result = contract.get_case(999);
    assert_eq!(result, Err(Error::CaseNotFound));
}

#[test]
fn test_start_game() {
    let (_env, mut contract, _admin, player1, player2, _salt) = setup_with_case();
    let points: i128 = 100_0000000;

    contract
        .start_game(100, 1, player1, player2, points, points, 1)
        .unwrap();

    let game = contract.get_game(1).unwrap();
    assert_eq!(game.session_id, 1);
    assert_eq!(game.case_id, 1);
    assert_eq!(game.player1, player1);
    assert_eq!(game.player2, player2);
    assert_eq!(game.start_ledger, 100);
    assert_eq!(game.status, GameStatus::Active);
    assert_eq!(game.wrong_accusations, 0);
    assert_eq!(game.clues_inspected, 0);
    assert_eq!(game.rooms_visited, 0);
    assert!(game.winner.is_none());
}

#[test]
fn test_start_game_case_not_found() {
    let (_env, mut contract, _admin, player1, player2) = setup_test();
    let result = contract.start_game(100, 1, player1, player2, 100, 100, 999);
    assert_eq!(result, Err(Error::CaseNotFound));
}

#[test]
fn test_start_game_duplicate_session() {
    let (_env, mut contract, _admin, player1, player2, _salt) = setup_with_case();
    let points: i128 = 100;

    contract
        .start_game(100, 1, player1, player2, points, points, 1)
        .unwrap();

    let result = contract.start_game(100, 1, player1, player2, points, points, 1);
    assert_eq!(result, Err(Error::SessionAlreadyExists));
}

#[test]
fn test_update_progress() {
    let (_env, mut contract, _admin, player1, _player2, _salt) = setup_with_game();

    contract.update_progress(1, player1, 5, 3).unwrap();

    let game = contract.get_game(1).unwrap();
    assert_eq!(game.clues_inspected, 5);
    assert_eq!(game.rooms_visited, 3);
}

#[test]
fn test_update_progress_not_player() {
    let (_env, mut contract, _admin, _player1, _player2, _salt) = setup_with_game();

    let outsider = AccountId { id: 50 };
    let result = contract.update_progress(1, outsider, 5, 3);
    assert_eq!(result, Err(Error::NotPlayer));
}

#[test]
fn test_update_progress_game_not_active() {
    let (env, mut contract, _admin, player1, _player2, salt) = setup_with_game();

    // Solve the game first
    contract.accuse(&env, 100, 1, player1, 1, 1, 1, &salt).unwrap();

    let result = contract.update_progress(1, player1, 5, 3);
    assert_eq!(result, Err(Error::GameNotActive));
}

#[test]
fn test_correct_accusation() {
    let (env, mut contract, _admin, player1, _player2, salt) = setup_with_game();

    // Correct: suspect=1, weapon=1, room=1
    let result = contract.accuse(&env, 100, 1, player1, 1, 1, 1, &salt).unwrap();
    assert!(result);

    let game = contract.get_game(1).unwrap();
    assert_eq!(game.status, GameStatus::Solved);
    assert_eq!(game.winner, Some(player1));
    assert_eq!(game.wrong_accusations, 0);
}

#[test]
fn test_wrong_accusation() {
    let (env, mut contract, _admin, player1, _player2, _salt) = setup_with_game();

    // Wrong accusation with a different salt (will produce different hash)
    let wrong_salt = Bytes32 { bytes: [0xFF; 32] };
    let result = contract
        .accuse(&env, 100, 1, player1, 2, 3, 4, &wrong_salt)
        .unwrap();
    assert!(!result);

    let game = contract.get_game(1).unwrap();
    assert_eq!(game.status, GameStatus::Active);
    assert_eq!(game.wrong_accusations, 1);
    assert!(game.winner.is_none());
}

#[test]
fn test_multiple_wrong_accusations() {
    let (env, mut contract, _admin, player1, _player2, _salt) = setup_with_game();

    let wrong_salt = Bytes32 { bytes: [0xFF; 32] };

    // Three wrong accusations
    contract
        .accuse(&env, 100, 1, player1, 2, 1, 1, &wrong_salt)
        .unwrap();
    contract
        .accuse(&env, 100, 1, player1, 1, 2, 1, &wrong_salt)
        .unwrap();
    contract
        .accuse(&env, 100, 1, player1, 1, 1, 2, &wrong_salt)
        .unwrap();

    let game = contract.get_game(1).unwrap();
    assert_eq!(game.wrong_accusations, 3);
    assert_eq!(game.status, GameStatus::Active);
}

#[test]
fn test_correct_after_wrong() {
    let (env, mut contract, _admin, player1, _player2, salt) = setup_with_game();

    let wrong_salt = Bytes32 { bytes: [0xFF; 32] };
    contract
        .accuse(&env, 100, 1, player1, 9, 5, 5, &wrong_salt)
        .unwrap();

    // Now correct
    let result = contract.accuse(&env, 100, 1, player1, 1, 1, 1, &salt).unwrap();
    assert!(result);

    let game = contract.get_game(1).unwrap();
    assert_eq!(game.status, GameStatus::Solved);
    assert_eq!(game.wrong_accusations, 1);
}

#[test]
fn test_accuse_not_player() {
    let (env, mut contract, _admin, _player1, _player2, salt) = setup_with_game();

    let outsider = AccountId { id: 50 };
    let result = contract.accuse(&env, 100, 1, outsider, 1, 1, 1, &salt);
    assert_eq!(result, Err(Error::NotPlayer));
}

#[test]
fn test_accuse_game_already_solved() {
    let (env, mut contract, _admin, player1, player2, salt) = setup_with_game();

    // Player 1 solves it
    contract.accuse(&env, 100, 1, player1, 1, 1, 1, &salt).unwrap();

    // Player 2 tries to accuse -- game already ended
    let result = contract.accuse(&env, 100, 1, player2, 1, 1, 1, &salt);
    assert_eq!(result, Err(Error::GameNotActive));
}

#[test]
fn test_accuse_invalid_suspect_zero() {
    let (env, mut contract, _admin, player1, _player2, salt) = setup_with_game();

    let result = contract.accuse(&env, 100, 1, player1, 0, 1, 1, &salt);
    assert_eq!(result, Err(Error::InvalidAccusationId));
}

#[test]
fn test_accuse_invalid_suspect_too_high() {
    let (env, mut contract, _admin, player1, _player2, salt) = setup_with_game();

    let result = contract.accuse(&env, 100, 1, player1, 10, 1, 1, &salt);
    assert_eq!(result, Err(Error::InvalidAccusationId));
}

#[test]
fn test_accuse_invalid_weapon_zero() {
    let (env, mut contract, _admin, player1, _player2, salt) = setup_with_game();

    let result = contract.accuse(&env, 100, 1, player1, 1, 0, 1, &salt);
    assert_eq!(result, Err(Error::InvalidAccusationId));
}

#[test]
fn test_accuse_invalid_weapon_too_high() {
    let (env, mut contract, _admin, player1, _player2, salt) = setup_with_game();

    let result = contract.accuse(&env, 100, 1, player1, 1, 6, 1, &salt);
    assert_eq!(result, Err(Error::InvalidAccusationId));
}

#[test]
fn test_accuse_invalid_room_zero() {
    let (env, mut contract, _admin, player1, _player2, salt) = setup_with_game();

    let result = contract.accuse(&env, 100, 1, player1, 1, 1, 0, &salt);
    assert_eq!(result, Err(Error::InvalidAccusationId));
}

#[test]
fn test_accuse_invalid_room_too_high() {
    let (env, mut contract, _admin, player1, _player2, salt) = setup_with_game();

    let result = contract.accuse(&env, 100, 1, player1, 1, 1, 6, &salt);
    assert_eq!(result, Err(Error::InvalidAccusationId));
}

#[test]
fn test_accuse_game_not_found() {
    let (env, mut contract, _admin, player1, _player2) = setup_test();
    let salt = case_salt();
    let result = contract.accuse(&env, 100, 999, player1, 1, 1, 1, &salt);
    assert_eq!(result, Err(Error::GameNotFound));
}

#[test]
fn test_abandon_game() {
    let (_env, mut contract, _admin, _player1, _player2, _salt) = setup_with_game();

    contract.abandon_game(1).unwrap();

    let game = contract.get_game(1).unwrap();
    assert_eq!(game.status, GameStatus::Abandoned);
    assert!(game.winner.is_none());
}

#[test]
fn test_abandon_already_ended() {
    let (env, mut contract, _admin, player1, _player2, salt) = setup_with_game();

    // Solve it first
    contract.accuse(&env, 100, 1, player1, 1, 1, 1, &salt).unwrap();

    let result = contract.abandon_game(1);
    assert_eq!(result, Err(Error::GameAlreadyEnded));
}

#[test]
fn test_accuse_after_abandon() {
    let (env, mut contract, _admin, player1, _player2, salt) = setup_with_game();

    contract.abandon_game(1).unwrap();

    let result = contract.accuse(&env, 100, 1, player1, 1, 1, 1, &salt);
    assert_eq!(result, Err(Error::GameNotActive));
}

#[test]
fn test_player_stats_default() {
    let (_env, contract, _admin, player1, _player2) = setup_test();

    let stats = contract.get_player_stats(player1);
    assert_eq!(stats.best_score, 0);
    assert_eq!(stats.cases_solved, 0);
    assert_eq!(stats.total_games, 0);
}

#[test]
fn test_player_stats_after_solve() {
    let (env, mut contract, _admin, player1, _player2, salt) = setup_with_game();

    contract.accuse(&env, 100, 1, player1, 1, 1, 1, &salt).unwrap();

    let stats = contract.get_player_stats(player1);
    assert_eq!(stats.cases_solved, 1);
    assert_eq!(stats.total_games, 1);
    assert!(stats.best_score > 0);
}

#[test]
fn test_player_stats_score_with_wrong_accusations() {
    let (env, mut contract, _admin, player1, _player2, salt) = setup_with_game();

    // Two wrong accusations first
    let wrong_salt = Bytes32 { bytes: [0xFF; 32] };
    contract
        .accuse(&env, 100, 1, player1, 2, 1, 1, &wrong_salt)
        .unwrap();
    contract
        .accuse(&env, 100, 1, player1, 3, 1, 1, &wrong_salt)
        .unwrap();

    // Then solve
    contract.accuse(&env, 100, 1, player1, 1, 1, 1, &salt).unwrap();

    let stats_with_wrongs = contract.get_player_stats(player1);

    // Score should be less than a clean solve (penalty of 500*2 = 1000)
    // Base 10000 - 0 time penalty - 1000 accusation penalty = ~9000 range
    assert!(stats_with_wrongs.best_score < 10000);
}

#[test]
fn test_player_stats_score_with_time() {
    let (env, mut contract, _admin, player1, player2, salt) = setup_with_case();

    // Start game at tick 100
    let points: i128 = 100;
    contract
        .start_game(100, 1, player1, player2, points, points, 1)
        .unwrap();

    // Solve 1000 ticks later
    contract.accuse(&env, 1100, 1, player1, 1, 1, 1, &salt).unwrap();

    let stats = contract.get_player_stats(player1);
    // Base 10000 - 1000 time penalty = ~9000 range
    assert!(stats.best_score < 10000);
    assert!(stats.best_score > 0);
}

#[test]
fn test_player_stats_exploration_bonus() {
    let (env, mut contract, _admin, player1, _player2, salt) = setup_with_game();

    // Update progress before solving
    contract.update_progress(1, player1, 8, 4).unwrap();

    contract.accuse(&env, 100, 1, player1, 1, 1, 1, &salt).unwrap();

    let stats = contract.get_player_stats(player1);
    // Base 10000 + (8*100 + 4*50) exploration bonus = 11000
    // Should be > base because of exploration
    assert!(stats.best_score > 10000);
}

#[test]
fn test_player_stats_best_score_updates() {
    let (env, mut contract, _admin, player1, player2, _salt) = setup_with_case();

    let salt = case_salt();

    // First game: solve with 2 wrong accusations
    let points: i128 = 100;
    contract
        .start_game(100, 1, player1, player2, points, points, 1)
        .unwrap();
    let wrong_salt = Bytes32 { bytes: [0xFF; 32] };
    contract
        .accuse(&env, 100, 1, player1, 2, 1, 1, &wrong_salt)
        .unwrap();
    contract
        .accuse(&env, 100, 1, player1, 3, 1, 1, &wrong_salt)
        .unwrap();
    contract.accuse(&env, 100, 1, player1, 1, 1, 1, &salt).unwrap();

    let first_score = contract.get_player_stats(player1).best_score;

    // Second game: clean solve
    contract
        .start_game(100, 2, player1, player2, points, points, 1)
        .unwrap();
    contract.accuse(&env, 100, 2, player1, 1, 1, 1, &salt).unwrap();

    let second_score = contract.get_player_stats(player1).best_score;
    let stats = contract.get_player_stats(player1);

    assert!(second_score > first_score, "Clean solve should have higher score");
    assert_eq!(stats.cases_solved, 2);
    assert_eq!(stats.total_games, 2);
}

#[test]
fn test_set_admin() {
    let (_env, mut contract, _admin, _p1, _p2) = setup_test();
    let new_admin = AccountId { id: 70 };

    contract.set_admin(new_admin);
    assert_eq!(contract.get_admin(), new_admin);
}

#[test]
fn test_set_hub() {
    let (_env, mut contract, _admin, _p1, _p2) = setup_test();
    let new_hub = AccountId { id: 71 };

    contract.set_hub(new_hub);
    assert_eq!(contract.get_hub(), new_hub);
}

#[test]
fn test_full_game_flow() {
    let (env, mut contract, _admin, player1, player2) = setup_test();

    // 1. Create case: suspect 1, weapon 1, room 1
    let salt = case_salt();
    let commitment = compute_commitment(&env, 1, 1, 1, &salt);
    contract.create_case(1, commitment).unwrap();

    // 2. Start game at tick 100
    let points: i128 = 100_0000000;
    contract
        .start_game(100, 1, player1, player2, points, points, 1)
        .unwrap();

    // 3. Player investigates
    contract.update_progress(1, player1, 6, 4).unwrap();

    // 4. Wrong accusation
    let wrong_salt = Bytes32 { bytes: [0xFF; 32] };
    let wrong = contract
        .accuse(&env, 100, 1, player1, 2, 2, 2, &wrong_salt)
        .unwrap();
    assert!(!wrong);

    // 5. Correct accusation at tick 200
    let correct = contract.accuse(&env, 200, 1, player1, 1, 1, 1, &salt).unwrap();
    assert!(correct);

    // 6. Verify final state
    let game = contract.get_game(1).unwrap();
    assert_eq!(game.status, GameStatus::Solved);
    assert_eq!(game.winner, Some(player1));
    assert_eq!(game.wrong_accusations, 1);
    assert_eq!(game.clues_inspected, 6);
    assert_eq!(game.rooms_visited, 4);
    assert_eq!(game.solve_ledger, 200);

    // 7. Verify player stats
    let stats = contract.get_player_stats(player1);
    assert_eq!(stats.cases_solved, 1);
    assert!(stats.best_score > 0);
}

#[test]
fn test_player2_can_solve() {
    let (env, mut contract, _admin, _player1, player2, salt) = setup_with_game();

    let result = contract.accuse(&env, 100, 1, player2, 1, 1, 1, &salt).unwrap();
    assert!(result);

    let game = contract.get_game(1).unwrap();
    assert_eq!(game.winner, Some(player2));
    assert_eq!(game.status, GameStatus::Solved);
}

#[test]
fn test_commitment_integrity() {
    let (env, _contract, _admin, _p1, _p2) = setup_test();

    // Different solutions produce different commitments
    let salt = case_salt();
    let comm_a = compute_commitment(&env, 1, 1, 1, &salt);
    let comm_b = compute_commitment(&env, 2, 1, 1, &salt);
    let comm_c = compute_commitment(&env, 1, 2, 1, &salt);
    let comm_d = compute_commitment(&env, 1, 1, 2, &salt);

    assert_ne!(comm_a, comm_b, "Different suspect should produce different hash");
    assert_ne!(comm_a, comm_c, "Different weapon should produce different hash");
    assert_ne!(comm_a, comm_d, "Different room should produce different hash");

    // Same inputs produce same commitment
    let comm_a2 = compute_commitment(&env, 1, 1, 1, &salt);
    assert_eq!(comm_a, comm_a2, "Same inputs should produce same hash");
}

#[test]
fn test_set_poseidon_commitment() {
    let (_env, mut contract, _admin, _p1, _p2) = setup_test();
    let commitment = Bytes32 { bytes: [0x42; 32] };
    contract.set_poseidon_commitment(1, commitment);

    let stored = contract.get_poseidon_commitment(1).unwrap();
    assert_eq!(stored, commitment);
}

#[test]
fn test_get_poseidon_commitment_not_set() {
    let (_env, contract, _admin, _p1, _p2) = setup_test();
    let result = contract.get_poseidon_commitment(999);
    assert_eq!(result, Err(Error::PoseidonCommitmentNotSet));
}

#[test]
fn test_validate_accusation_ids_bounds() {
    assert_eq!(validate_accusation_ids(1, 1, 1), Ok(()));
    assert_eq!(validate_accusation_ids(9, 5, 5), Ok(()));
    assert_eq!(validate_accusation_ids(0, 1, 1), Err(Error::InvalidAccusationId));
    assert_eq!(validate_accusation_ids(10, 1, 1), Err(Error::InvalidAccusationId));
    assert_eq!(validate_accusation_ids(1, 6, 1), Err(Error::InvalidAccusationId));
    assert_eq!(validate_accusation_ids(1, 1, 6), Err(Error::InvalidAccusationId));
}

#[test]
fn test_salt_change_changes_commitment() {
    let (env, _contract, _admin, _p1, _p2) = setup_test();

    let salt_a = Bytes32 { bytes: [0xAB; 32] };
    let mut other = [0xAB; 32];
    other[31] = 0xAC;
    let salt_b = Bytes32 { bytes: other };

    let comm_a = compute_commitment(&env, 1, 1, 1, &salt_a);
    let comm_b = compute_commitment(&env, 1, 1, 1, &salt_b);
    assert_ne!(comm_a, comm_b, "A single changed salt byte should change the hash");

    // The digest is a hash of the inputs, not any input echoed back
    assert_ne!(comm_a, salt_a);

    // Digest equality is reflexive
    assert!(comm_a.equals(&comm_a));
}
