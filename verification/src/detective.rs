//! Single-commitment accusation game.
//!
//! A case's solution is committed once at setup. Players submit guesses that
//! are checked by recomputing the commitment digest and comparing it against
//! the stored one; a match ends the session and credits the solver, a
//! mismatch counts a wrong attempt and leaves the session active.

use std::collections::HashMap;
use vstd::prelude::*;

use crate::codec::{commit, commit_of, AccountId, Bytes32};
use crate::score::{score_value, spec_score};

verus! {

broadcast use vstd::std_specs::hash::group_hash_axioms;

/// Why an operation on the single-commitment game was refused.
#[derive(Clone, Copy, Debug, PartialEq, Eq, PartialOrd, Ord, Structural)]
pub enum Error {
    /// Game session not found or expired
    GameNotFound,
    /// Case not found
    CaseNotFound,
    /// Player is not part of this game session
    NotPlayer,
    /// Game has already ended (solved or abandoned)
    GameAlreadyEnded,
    /// Game is not in active state
    GameNotActive,
    /// Case already exists with this ID
    CaseAlreadyExists,
    /// Invalid suspect/weapon/room ID (must be 1-9/1-5/1-5)
    InvalidAccusationId,
    /// Session already exists with this ID
    SessionAlreadyExists,
    /// No auxiliary commitment is stored for the case
    PoseidonCommitmentNotSet,
}

/// Lifecycle status of a session; `Solved` and `Abandoned` are terminal.
#[derive(Clone, Copy, Debug, PartialEq, Eq, Structural)]
pub enum GameStatus {
    Active,
    Solved,
    Abandoned,
}

/// One session of the single-commitment game.
#[derive(Clone, Copy, Debug, PartialEq, Eq)]
pub struct GameState {
    pub session_id: u32,
    pub case_id: u32,
    pub player1: AccountId,
    pub player2: AccountId,
    pub start_ledger: u32,
    pub solve_ledger: u32,
    pub clues_inspected: u32,
    pub rooms_visited: u32,
    pub wrong_accusations: u32,
    pub status: GameStatus,
    pub winner: Option<AccountId>,
}

/// Per-player leaderboard record, created lazily on first solve.
#[derive(Clone, Copy, Debug, PartialEq, Eq)]
pub struct PlayerStats {
    pub best_score: i128,
    pub cases_solved: u32,
    pub total_games: u32,
}

/// The single-commitment game engine: definitions, sessions and stats.
pub struct ZkDetectiveContract {
    admin: AccountId,
    hub: AccountId,
    cases: HashMap<u32, Bytes32>,
    poseidon: HashMap<u32, Bytes32>,
    games: HashMap<u32, GameState>,
    stats: HashMap<u64, PlayerStats>,
}

/// The abstract state of the engine: its roles and its keyed records.
pub struct DetectiveView {
    pub admin: AccountId,
    pub hub: AccountId,
    pub cases: Map<u32, Bytes32>,
    pub poseidon: Map<u32, Bytes32>,
    pub games: Map<u32, GameState>,
    pub stats: Map<u64, PlayerStats>,
}

impl View for ZkDetectiveContract {
    type V = DetectiveView;

    closed spec fn view(&self) -> DetectiveView {
        DetectiveView {
            admin: self.admin,
            hub: self.hub,
            cases: self.cases@,
            poseidon: self.poseidon@,
            games: self.games@,
            stats: self.stats@,
        }
    }
}

/// Accusation ids lie in their declared ranges: suspects 1-9, weapons 1-5,
/// rooms 1-5.
pub open spec fn valid_accusation_ids(suspect_id: u32, weapon_id: u32, room_id: u32) -> bool {
    &&& 1 <= suspect_id <= 9
    &&& 1 <= weapon_id <= 5
    &&& 1 <= room_id <= 5
}

/// Validate accusation IDs are within valid ranges.
pub fn validate_accusation_ids(suspect_id: u32, weapon_id: u32, room_id: u32) -> (r: Result<
    (),
    Error,
>)
    ensures
        r == if valid_accusation_ids(suspect_id, weapon_id, room_id) {
            Ok::<(), Error>(())
        } else {
            Err::<(), Error>(Error::InvalidAccusationId)
        },
{
    if suspect_id == 0 || suspect_id > 9 {
        return Err(Error::InvalidAccusationId);
    }
    if weapon_id == 0 || weapon_id > 5 {
        return Err(Error::InvalidAccusationId);
    }
    if room_id == 0 || room_id > 5 {
        return Err(Error::InvalidAccusationId);
    }
    Ok(())
}

/// The case commitment digest: the three accusation fields, big-endian, then
/// the salt, hashed; no binding identity.
pub open spec fn case_commit_of(suspect_id: u32, weapon_id: u32, room_id: u32, salt: Seq<u8>) -> Seq<
    u8,
> {
    commit_of(seq![suspect_id, weapon_id, room_id], salt, Option::<AccountId>::None)
}

/// Compute the case commitment over the accusation fields and a salt.
pub fn compute_commitment(env: &soroban_sdk::Env, suspect_id: u32, weapon_id: u32, room_id: u32,
    salt: &Bytes32) -> (r: Bytes32)
    ensures
        r@ == case_commit_of(suspect_id, weapon_id, room_id, salt@),
{
    let fields: Vec<u32> = vec![suspect_id, weapon_id, room_id];
    proof {
        assert(fields@ =~= seq![suspect_id, weapon_id, room_id]);
    }
    commit(env, &fields, salt, None)
}

/// The empty leaderboard record handed out before a player's first solve.
pub open spec fn default_stats() -> PlayerStats {
    PlayerStats { best_score: 0, cases_solved: 0, total_games: 0 }
}

/// A player's leaderboard record, or the empty record if none exists yet.
pub open spec fn stats_or_default(pre: DetectiveView, player: AccountId) -> PlayerStats {
    if pre.stats.contains_key(player.id) {
        pre.stats[player.id]
    } else {
        default_stats()
    }
}

/// A fresh session record: active, zeroed counters, no winner.
pub open spec fn fresh_game(session_id: u32, case_id: u32, player1: AccountId, player2: AccountId,
    now: u32) -> GameState {
    GameState {
        session_id,
        case_id,
        player1,
        player2,
        start_ledger: now,
        solve_ledger: 0,
        clues_inspected: 0,
        rooms_visited: 0,
        wrong_accusations: 0,
        status: GameStatus::Active,
        winner: None,
    }
}

/// The leaderboard record after a solve scoring `score`: both counters up by
/// one, the best score raised if beaten.
pub open spec fn solve_updated_stats(prev: PlayerStats, score: int) -> PlayerStats {
    PlayerStats {
        best_score: if score > prev.best_score {
            score as i128
        } else {
            prev.best_score
        },
        cases_solved: (prev.cases_solved + 1) as u32,
        total_games: (prev.total_games + 1) as u32,
    }
}

/// The score of a session solved at tick `solve_ledger`, from its telemetry.
pub open spec fn game_score(g: GameState) -> int {
    spec_score(
        g.start_ledger as int,
        g.solve_ledger as int,
        g.wrong_accusations as int,
        g.clues_inspected as int,
        g.rooms_visited as int,
    )
}

/// All of an accusation's ordered checks pass, so the call will reach the
/// digest comparison and then bump a counter or credit the solver.
pub open spec fn accuse_checks_pass(pre: DetectiveView, session_id: u32, player: AccountId,
    suspect_id: u32, weapon_id: u32, room_id: u32) -> bool {
    &&& valid_accusation_ids(suspect_id, weapon_id, room_id)
    &&& pre.games.contains_key(session_id)
    &&& pre.games[session_id].status == GameStatus::Active
    &&& (player == pre.games[session_id].player1 || player == pre.games[session_id].player2)
    &&& pre.cases.contains_key(pre.games[session_id].case_id)
}

/// The engine state after a correct accusation by `player` at tick `now`:
/// the session solved with `player` as winner, and the player's leaderboard
/// record credited.
pub open spec fn accuse_solved_post(pre: DetectiveView, session_id: u32, player: AccountId, now:
    u32) -> DetectiveView {
    let g = pre.games[session_id];
    let g2 = GameState {
        status: GameStatus::Solved,
        winner: Some(player),
        solve_ledger: now,
        ..g
    };
    DetectiveView {
        games: pre.games.insert(session_id, g2),
        stats: pre.stats.insert(
            player.id,
            solve_updated_stats(stats_or_default(pre, player), game_score(g2)),
        ),
        ..pre
    }
}

/// The engine state after a wrong accusation: one more wrong attempt on the
/// session, everything else untouched.
pub open spec fn accuse_missed_post(pre: DetectiveView, session_id: u32) -> DetectiveView {
    let g = pre.games[session_id];
    DetectiveView {
        games: pre.games.insert(
            session_id,
            GameState { wrong_accusations: (g.wrong_accusations + 1) as u32, ..g },
        ),
        ..pre
    }
}

impl ZkDetectiveContract {
    /// Initialize the engine with its admin and game-hub identities.
    pub fn new(admin: AccountId, game_hub: AccountId) -> (r: ZkDetectiveContract)
        ensures
            r@ == (DetectiveView {
                admin,
                hub: game_hub,
                cases: Map::empty(),
                poseidon: Map::empty(),
                games: Map::empty(),
                stats: Map::empty(),
            }),
    {
        ZkDetectiveContract {
            admin,
            hub: game_hub,
            cases: HashMap::new(),
            poseidon: HashMap::new(),
            games: HashMap::new(),
            stats: HashMap::new(),
        }
    }

    /// Register a new case with its solution commitment digest; refused if
    /// the id is already taken.
    pub fn create_case(&mut self, case_id: u32, commitment: Bytes32) -> (r: Result<(), Error>)
        ensures
            ({
                let pre = old(self)@;
                let post = final(self)@;
                if pre.cases.contains_key(case_id) {
                    r == Err::<(), Error>(Error::CaseAlreadyExists) && post == pre
                } else {
                    r == Ok::<(), Error>(()) && post == (DetectiveView {
                        cases: pre.cases.insert(case_id, commitment),
                        ..pre
                    })
                }
            }),
    {
        if self.cases.contains_key(&case_id) {
            return Err(Error::CaseAlreadyExists);
        }
        self.cases.insert(case_id, commitment);
        Ok(())
    }

    /// Get the commitment digest for a case.
    pub fn get_case(&self, case_id: u32) -> (r: Result<Bytes32, Error>)
        ensures
            r == if self@.cases.contains_key(case_id) {
                Ok::<Bytes32, Error>(self@.cases[case_id])
            } else {
                Err::<Bytes32, Error>(Error::CaseNotFound)
            },
    {
        match self.cases.get(&case_id) {
            Some(c) => Ok(*c),
            None => Err(Error::CaseNotFound),
        }
    }

    /// Store an auxiliary commitment for a case, overwriting any earlier one.
    pub fn set_poseidon_commitment(&mut self, case_id: u32, commitment: Bytes32)
        ensures
            final(self)@ == (DetectiveView {
                poseidon: old(self)@.poseidon.insert(case_id, commitment),
                ..old(self)@
            }),
    {
        self.poseidon.insert(case_id, commitment);
    }

    /// Get the auxiliary commitment stored for a case.
    pub fn get_poseidon_commitment(&self, case_id: u32) -> (r: Result<Bytes32, Error>)
        ensures
            r == if self@.poseidon.contains_key(case_id) {
                Ok::<Bytes32, Error>(self@.poseidon[case_id])
            } else {
                Err::<Bytes32, Error>(Error::PoseidonCommitmentNotSet)
            },
    {
        match self.poseidon.get(&case_id) {
            Some(c) => Ok(*c),
            None => Err(Error::PoseidonCommitmentNotSet),
        }
    }

    /// Start a new session against an existing case at tick `now`. The point
    /// stakes are carried for the host's authorization and hub notification
    /// and do not enter this engine's state.
    #[allow(unused_variables)]
    pub fn start_game(&mut self, now: u32, session_id: u32, player1: AccountId, player2:
        AccountId, player1_points: i128, player2_points: i128, case_id: u32) -> (r: Result<
        (),
        Error,
    >)
        ensures
            ({
                let pre = old(self)@;
                let post = final(self)@;
                if !pre.cases.contains_key(case_id) {
                    r == Err::<(), Error>(Error::CaseNotFound) && post == pre
                } else if pre.games.contains_key(session_id) {
                    r == Err::<(), Error>(Error::SessionAlreadyExists) && post == pre
                } else {
                    r == Ok::<(), Error>(()) && post == (DetectiveView {
                        games: pre.games.insert(
                            session_id,
                            fresh_game(session_id, case_id, player1, player2, now),
                        ),
                        ..pre
                    })
                }
            }),
    {
        if !self.cases.contains_key(&case_id) {
            return Err(Error::CaseNotFound);
        }
        if self.games.contains_key(&session_id) {
            return Err(Error::SessionAlreadyExists);
        }
        let game = GameState {
            session_id,
            case_id,
            player1,
            player2,
            start_ledger: now,
            solve_ledger: 0,
            clues_inspected: 0,
            rooms_visited: 0,
            wrong_accusations: 0,
            status: GameStatus::Active,
            winner: None,
        };
        self.games.insert(session_id, game);
        Ok(())
    }

    /// Record investigation progress. Overwrites the exploration counters of
    /// an active session on behalf of one of its participants.
    pub fn update_progress(&mut self, session_id: u32, player: AccountId, clues_inspected: u32,
        rooms_visited: u32) -> (r: Result<(), Error>)
        ensures
            ({
                let pre = old(self)@;
                let post = final(self)@;
                if !pre.games.contains_key(session_id) {
                    r == Err::<(), Error>(Error::GameNotFound) && post == pre
                } else {
                    let g = pre.games[session_id];
                    if g.status != GameStatus::Active {
                        r == Err::<(), Error>(Error::GameNotActive) && post == pre
                    } else if player != g.player1 && player != g.player2 {
                        r == Err::<(), Error>(Error::NotPlayer) && post == pre
                    } else {
                        r == Ok::<(), Error>(()) && post == (DetectiveView {
                            games: pre.games.insert(
                                session_id,
                                GameState { clues_inspected, rooms_visited, ..g },
                            ),
                            ..pre
                        })
                    }
                }
            }),
    {
        let mut game = match self.games.get(&session_id) {
            Some(g) => *g,
            None => {
                return Err(Error::GameNotFound);
            },
        };
        if game.status != GameStatus::Active {
            return Err(Error::GameNotActive);
        }
        if player != game.player1 && player != game.player2 {
            return Err(Error::NotPlayer);
        }
        game.clues_inspected = clues_inspected;
        game.rooms_visited = rooms_visited;
        self.games.insert(session_id, game);
        Ok(())
    }

    /// Submit an accusation at tick `now`, verified by recomputing the case
    /// commitment. Returns whether the accusation matched — the protocol's
    /// answer, not an error channel. A match ends the session in favour of
    /// the caller and credits their leaderboard record; a mismatch counts
    /// one wrong attempt.
    pub fn accuse(&mut self, env: &soroban_sdk::Env, now: u32, session_id: u32, player: AccountId,
        suspect_id: u32, weapon_id: u32, room_id: u32, salt: &Bytes32) -> (r: Result<bool, Error>)
        requires
            accuse_checks_pass(old(self)@, session_id, player, suspect_id, weapon_id, room_id)
                ==> {
                &&& old(self)@.games[session_id].wrong_accusations < u32::MAX
                &&& stats_or_default(old(self)@, player).cases_solved < u32::MAX
                &&& stats_or_default(old(self)@, player).total_games < u32::MAX
            },
        ensures
            ({
                let pre = old(self)@;
                let post = final(self)@;
                if !valid_accusation_ids(suspect_id, weapon_id, room_id) {
                    r == Err::<bool, Error>(Error::InvalidAccusationId) && post == pre
                } else if !pre.games.contains_key(session_id) {
                    r == Err::<bool, Error>(Error::GameNotFound) && post == pre
                } else {
                    let g = pre.games[session_id];
                    if g.status != GameStatus::Active {
                        r == Err::<bool, Error>(Error::GameNotActive) && post == pre
                    } else if player != g.player1 && player != g.player2 {
                        r == Err::<bool, Error>(Error::NotPlayer) && post == pre
                    } else if !pre.cases.contains_key(g.case_id) {
                        r == Err::<bool, Error>(Error::CaseNotFound) && post == pre
                    } else {
                        let correct = case_commit_of(suspect_id, weapon_id, room_id, salt@)
                            == pre.cases[g.case_id]@;
                        r == Ok::<bool, Error>(correct) && post == if correct {
                            accuse_solved_post(pre, session_id, player, now)
                        } else {
                            accuse_missed_post(pre, session_id)
                        }
                    }
                }
            }),
    {
        match validate_accusation_ids(suspect_id, weapon_id, room_id) {
            Err(e) => {
                return Err(e);
            },
            Ok(()) => {},
        }
        let mut game = match self.games.get(&session_id) {
            Some(g) => *g,
            None => {
                return Err(Error::GameNotFound);
            },
        };
        if game.status != GameStatus::Active {
            return Err(Error::GameNotActive);
        }
        if player != game.player1 && player != game.player2 {
            return Err(Error::NotPlayer);
        }
        let commitment = match self.cases.get(&game.case_id) {
            Some(c) => *c,
            None => {
                return Err(Error::CaseNotFound);
            },
        };
        let accusation_hash = compute_commitment(env, suspect_id, weapon_id, room_id, salt);
        let is_correct = accusation_hash.equals(&commitment);
        if is_correct {
            game.status = GameStatus::Solved;
            game.winner = Some(player);
            game.solve_ledger = now;
            self.games.insert(session_id, game);
            self.update_player_stats(player, &game);
        } else {
            game.wrong_accusations = game.wrong_accusations + 1;
            self.games.insert(session_id, game);
        }
        Ok(is_correct)
    }

    /// Abandon an active session: terminal, with no winner.
    pub fn abandon_game(&mut self, session_id: u32) -> (r: Result<(), Error>)
        ensures
            ({
                let pre = old(self)@;
                let post = final(self)@;
                if !pre.games.contains_key(session_id) {
                    r == Err::<(), Error>(Error::GameNotFound) && post == pre
                } else {
                    let g = pre.games[session_id];
                    if g.status != GameStatus::Active {
                        r == Err::<(), Error>(Error::GameAlreadyEnded) && post == pre
                    } else {
                        r == Ok::<(), Error>(()) && post == (DetectiveView {
                            games: pre.games.insert(
                                session_id,
                                GameState { status: GameStatus::Abandoned, ..g },
                            ),
                            ..pre
                        })
                    }
                }
            }),
    {
        let mut game = match self.games.get(&session_id) {
            Some(g) => *g,
            None => {
                return Err(Error::GameNotFound);
            },
        };
        if game.status != GameStatus::Active {
            return Err(Error::GameAlreadyEnded);
        }
        game.status = GameStatus::Abandoned;
        self.games.insert(session_id, game);
        Ok(())
    }

    /// Get the current state of a session.
    pub fn get_game(&self, session_id: u32) -> (r: Result<GameState, Error>)
        ensures
            r == if self@.games.contains_key(session_id) {
                Ok::<GameState, Error>(self@.games[session_id])
            } else {
                Err::<GameState, Error>(Error::GameNotFound)
            },
    {
        match self.games.get(&session_id) {
            Some(g) => Ok(*g),
            None => Err(Error::GameNotFound),
        }
    }

    /// Get a player's leaderboard record, or the empty record if the player
    /// has not solved anything yet.
    pub fn get_player_stats(&self, player: AccountId) -> (r: PlayerStats)
        ensures
            r == stats_or_default(self@, player),
    {
        match self.stats.get(&player.id) {
            Some(s) => *s,
            None => PlayerStats { best_score: 0, cases_solved: 0, total_games: 0 },
        }
    }

    /// Get the admin identity.
    pub fn get_admin(&self) -> (r: AccountId)
        ensures
            r == self@.admin,
    {
        self.admin
    }

    /// Replace the admin identity.
    pub fn set_admin(&mut self, new_admin: AccountId)
        ensures
            final(self)@ == (DetectiveView { admin: new_admin, ..old(self)@ }),
    {
        self.admin = new_admin;
    }

    /// Get the game-hub identity.
    pub fn get_hub(&self) -> (r: AccountId)
        ensures
            r == self@.hub,
    {
        self.hub
    }

    /// Replace the game-hub identity.
    pub fn set_hub(&mut self, new_hub: AccountId)
        ensures
            final(self)@ == (DetectiveView { hub: new_hub, ..old(self)@ }),
    {
        self.hub = new_hub;
    }

    /// Compute the score of a solved session from its final telemetry.
    pub fn compute_score(game: &GameState) -> (r: i128)
        ensures
            r == game_score(*game),
    {
        score_value(
            game.start_ledger,
            game.solve_ledger,
            game.wrong_accusations,
            game.clues_inspected,
            game.rooms_visited,
        )
    }

    /// Credit a player's leaderboard record for a solved session.
    fn update_player_stats(&mut self, player: AccountId, game: &GameState)
        requires
            stats_or_default(old(self)@, player).cases_solved < u32::MAX,
            stats_or_default(old(self)@, player).total_games < u32::MAX,
        ensures
            final(self)@ == (DetectiveView {
                stats: old(self)@.stats.insert(
                    player.id,
                    solve_updated_stats(stats_or_default(old(self)@, player), game_score(*game)),
                ),
                ..old(self)@
            }),
    {
        let mut stats = match self.stats.get(&player.id) {
            Some(s) => *s,
            None => PlayerStats { best_score: 0, cases_solved: 0, total_games: 0 },
        };
        let score = Self::compute_score(game);
        stats.cases_solved = stats.cases_solved + 1;
        stats.total_games = stats.total_games + 1;
        if score > stats.best_score {
            stats.best_score = score;
        }
        self.stats.insert(player.id, stats);
    }
}

} // verus!
