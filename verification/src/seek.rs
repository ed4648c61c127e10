//! Two-phase commit-reveal search game.
//!
//! Both players commit a digest of their private coordinates; only after
//! both have committed may either reveal, and each reveal is checked against
//! that player's own earlier commitment, bound to their identity so that
//! neither can replay the other's digest. An adjudicator, itself bound by a
//! pre-existing target commitment, resolves the winner deterministically.

use std::collections::HashMap;
use vstd::prelude::*;

use crate::codec::{
    commit, commit_bytes, commit_of, lemma_distinct_inputs_distinct_preimages, AccountId, Bytes32,
};
use crate::resolution::{
    dist_sq, distance_squared, in_tolerance, is_within_tolerance, player1_wins, player1_wins_spec,
};

verus! {

broadcast use vstd::std_specs::hash::group_hash_axioms;

/// Why an operation on the commit-reveal game was refused.
#[derive(Clone, Copy, Debug, PartialEq, Eq, PartialOrd, Ord, Structural)]
pub enum Error {
    GameNotFound,
    SceneNotFound,
    SceneInactive,
    NotPlayer,
    AlreadyCommitted,
    NotAllCommitted,
    AlreadyRevealed,
    NotAllRevealed,
    CommitmentMismatch,
    GameAlreadyEnded,
    InvalidTargetReveal,
    SessionAlreadyExists,
    SceneAlreadyExists,
}

/// A scene definition: the adjudicator's target commitment, the tolerance
/// radius for a valid find, and whether new sessions may reference it.
#[derive(Clone, Copy, Debug, PartialEq, Eq)]
pub struct Scene {
    pub target_commitment: Bytes32,
    pub tolerance: u32,
    pub active: bool,
}

/// One session of the commit-reveal game. Each optional slot is filled
/// exactly once, commitments before reveals.
#[derive(Clone, Copy, Debug, PartialEq, Eq)]
pub struct Game {
    pub scene_id: u32,
    pub player1: AccountId,
    pub player2: AccountId,
    pub player1_points: i128,
    pub player2_points: i128,
    pub player1_commitment: Option<Bytes32>,
    pub player2_commitment: Option<Bytes32>,
    pub player1_commit_ledger: Option<u32>,
    pub player2_commit_ledger: Option<u32>,
    pub player1_x: Option<u32>,
    pub player1_y: Option<u32>,
    pub player2_x: Option<u32>,
    pub player2_y: Option<u32>,
    pub winner: Option<AccountId>,
}

/// The commit-reveal game engine: scenes and sessions.
pub struct ZkSeekContract {
    admin: AccountId,
    hub: AccountId,
    scenes: HashMap<u32, Scene>,
    games: HashMap<u32, Game>,
}

/// The abstract state of the engine: its roles and its keyed records.
pub struct SeekView {
    pub admin: AccountId,
    pub hub: AccountId,
    pub scenes: Map<u32, Scene>,
    pub games: Map<u32, Game>,
}

impl View for ZkSeekContract {
    type V = SeekView;

    closed spec fn view(&self) -> SeekView {
        SeekView { admin: self.admin, hub: self.hub, scenes: self.scenes@, games: self.games@ }
    }
}

/// Well-formedness of a session record: a commitment slot and its timestamp
/// are set together, a reveal slot's two coordinates are set together,
/// reveals only exist once both commitments do, and the participants differ.
pub open spec fn game_wf(g: Game) -> bool {
    &&& g.player1_commitment is Some <==> g.player1_commit_ledger is Some
    &&& g.player2_commitment is Some <==> g.player2_commit_ledger is Some
    &&& g.player1_x is Some <==> g.player1_y is Some
    &&& g.player2_x is Some <==> g.player2_y is Some
    &&& g.player1_x is Some ==> g.player1_commitment is Some && g.player2_commitment is Some
    &&& g.player2_x is Some ==> g.player1_commitment is Some && g.player2_commitment is Some
    &&& g.player1 != g.player2
}

/// Well-formedness of the engine state: every stored session is well-formed.
pub open spec fn seek_wf(v: SeekView) -> bool {
    forall|sid: u32| #[trigger] v.games.contains_key(sid) ==> game_wf(v.games[sid])
}

/// A player's coordinate commitment digest: the two coordinates, big-endian,
/// then the salt, then the player's identity bound in.
pub open spec fn seek_commit_of(x: u32, y: u32, salt: Seq<u8>, player: AccountId) -> Seq<u8> {
    commit_of(seq![x, y], salt, Some(player))
}

/// Identity binding: the commitments of two different players never share a
/// hash preimage, whatever coordinates and salts each chose, so replaying
/// the other player's digest can only pass reveal checking if the hash
/// primitive itself collides.
pub proof fn lemma_identity_binding(
    x1: u32,
    y1: u32,
    s1: Seq<u8>,
    p1: AccountId,
    x2: u32,
    y2: u32,
    s2: Seq<u8>,
    p2: AccountId,
)
    requires
        p1 != p2,
        s1.len() == 32,
        s2.len() == 32,
    ensures
        commit_bytes(seq![x1, y1], s1, Some(p1)) != commit_bytes(seq![x2, y2], s2, Some(p2)),
{
    lemma_distinct_inputs_distinct_preimages(
        seq![x1, y1],
        s1,
        Some(p1),
        seq![x2, y2],
        s2,
        Some(p2),
    );
}

/// The scene's target commitment digest: the target coordinates and the
/// scene salt; no binding identity.
pub open spec fn target_commit_of(x: u32, y: u32, salt: Seq<u8>) -> Seq<u8> {
    commit_of(seq![x, y], salt, Option::<AccountId>::None)
}

/// Compute a player's coordinate commitment, bound to their identity.
pub fn compute_commitment(env: &soroban_sdk::Env, x: u32, y: u32, salt: &Bytes32, player:
    AccountId) -> (r: Bytes32)
    ensures
        r@ == seek_commit_of(x, y, salt@, player),
{
    let fields: Vec<u32> = vec![x, y];
    proof {
        assert(fields@ =~= seq![x, y]);
    }
    commit(env, &fields, salt, Some(player))
}

/// Compute the scene target commitment over the target coordinates and salt.
pub fn compute_target_commitment(env: &soroban_sdk::Env, x: u32, y: u32, salt: &Bytes32) -> (r:
    Bytes32)
    ensures
        r@ == target_commit_of(x, y, salt@),
{
    let fields: Vec<u32> = vec![x, y];
    proof {
        assert(fields@ =~= seq![x, y]);
    }
    commit(env, &fields, salt, None)
}

/// A fresh session record: all slots empty.
pub open spec fn fresh_seek_game(scene_id: u32, player1: AccountId, player2: AccountId,
    player1_points: i128, player2_points: i128) -> Game {
    Game {
        scene_id,
        player1,
        player2,
        player1_points,
        player2_points,
        player1_commitment: None,
        player2_commitment: None,
        player1_commit_ledger: None,
        player2_commit_ledger: None,
        player1_x: None,
        player1_y: None,
        player2_x: None,
        player2_y: None,
        winner: None,
    }
}

/// The distance computations of a resolution stay within the machine range
/// for the revealed coordinates and the given target. Demanded only where
/// resolution reaches the distance arithmetic: an ended, unrevealed or
/// sceneless session returns its typed error before any distance is taken.
/// The target-digest check cannot thin this further, since a caller cannot
/// evaluate the digest.
pub open spec fn resolve_distances_ok(pre: SeekView, session_id: u32, tx: u32, ty: u32) -> bool {
    pre.games.contains_key(session_id) ==> {
        let g = pre.games[session_id];
        (g.winner is None && g.player1_x is Some && g.player1_y is Some && g.player2_x is Some
            && g.player2_y is Some && pre.scenes.contains_key(g.scene_id)) ==> {
            &&& dist_sq(g.player1_x->0 as int, g.player1_y->0 as int, tx as int, ty as int)
                <= i64::MAX
            &&& dist_sq(g.player2_x->0 as int, g.player2_y->0 as int, tx as int, ty as int)
                <= i64::MAX
        }
    }
}

/// The winner of a fully revealed session against the true target, by the
/// three-tier resolution rule.
pub open spec fn resolved_winner(g: Game, tx: u32, ty: u32, tol: u32) -> AccountId {
    let d1 = dist_sq(g.player1_x->0 as int, g.player1_y->0 as int, tx as int, ty as int);
    let d2 = dist_sq(g.player2_x->0 as int, g.player2_y->0 as int, tx as int, ty as int);
    let in1 = in_tolerance(
        g.player1_x->0 as int,
        g.player1_y->0 as int,
        tx as int,
        ty as int,
        tol as int,
    );
    let in2 = in_tolerance(
        g.player2_x->0 as int,
        g.player2_y->0 as int,
        tx as int,
        ty as int,
        tol as int,
    );
    if player1_wins_spec(
        d1,
        d2,
        in1,
        in2,
        g.player1_commit_ledger->0 as int,
        g.player2_commit_ledger->0 as int,
    ) {
        g.player1
    } else {
        g.player2
    }
}

impl ZkSeekContract {
    /// Initialize the engine with its admin and game-hub identities.
    pub fn new(admin: AccountId, game_hub: AccountId) -> (r: ZkSeekContract)
        ensures
            r@ == (SeekView {
                admin,
                hub: game_hub,
                scenes: Map::empty(),
                games: Map::empty(),
            }),
            seek_wf(r@),
    {
        let r = ZkSeekContract {
            admin,
            hub: game_hub,
            scenes: HashMap::new(),
            games: HashMap::new(),
        };
        proof {
            assert(seek_wf(r@));
        }
        r
    }

    /// Register a scene with its target commitment and tolerance, active.
    /// A scene is created once and immutable afterwards apart from its
    /// `active` flag, so an already-used id is a conflict.
    pub fn create_scene(&mut self, scene_id: u32, target_commitment: Bytes32, tolerance: u32) -> (r:
        Result<(), Error>)
        ensures
            ({
                let pre = old(self)@;
                let post = final(self)@;
                if pre.scenes.contains_key(scene_id) {
                    r == Err::<(), Error>(Error::SceneAlreadyExists) && post == pre
                } else {
                    r == Ok::<(), Error>(()) && post == (SeekView {
                        scenes: pre.scenes.insert(
                            scene_id,
                            Scene { target_commitment, tolerance, active: true },
                        ),
                        ..pre
                    })
                }
            }),
    {
        if self.scenes.contains_key(&scene_id) {
            return Err(Error::SceneAlreadyExists);
        }
        let scene = Scene { target_commitment, tolerance, active: true };
        self.scenes.insert(scene_id, scene);
        Ok(())
    }

    /// Deactivate a scene so that no new session may reference it; existing
    /// sessions are unaffected.
    pub fn deactivate_scene(&mut self, scene_id: u32) -> (r: Result<(), Error>)
        ensures
            ({
                let pre = old(self)@;
                let post = final(self)@;
                if !pre.scenes.contains_key(scene_id) {
                    r == Err::<(), Error>(Error::SceneNotFound) && post == pre
                } else {
                    r == Ok::<(), Error>(()) && post == (SeekView {
                        scenes: pre.scenes.insert(
                            scene_id,
                            Scene { active: false, ..pre.scenes[scene_id] },
                        ),
                        ..pre
                    })
                }
            }),
    {
        let mut scene = match self.scenes.get(&scene_id) {
            Some(s) => *s,
            None => {
                return Err(Error::SceneNotFound);
            },
        };
        scene.active = false;
        self.scenes.insert(scene_id, scene);
        Ok(())
    }

    /// Start a new session against an active scene. Self-play is a caller
    /// bug, rejected before any state is touched. The point stakes are
    /// carried for the host's authorization and hub notification and stored
    /// with the session.
    pub fn start_game(&mut self, session_id: u32, player1: AccountId, player2: AccountId,
        player1_points: i128, player2_points: i128, scene_id: u32) -> (r: Result<(), Error>)
        requires
            player1 != player2,
            seek_wf(old(self)@),
        ensures
            seek_wf(final(self)@),
            ({
                let pre = old(self)@;
                let post = final(self)@;
                if !pre.scenes.contains_key(scene_id) {
                    r == Err::<(), Error>(Error::SceneNotFound) && post == pre
                } else if !pre.scenes[scene_id].active {
                    r == Err::<(), Error>(Error::SceneInactive) && post == pre
                } else if pre.games.contains_key(session_id) {
                    r == Err::<(), Error>(Error::SessionAlreadyExists) && post == pre
                } else {
                    r == Ok::<(), Error>(()) && post == (SeekView {
                        games: pre.games.insert(
                            session_id,
                            fresh_seek_game(
                                scene_id,
                                player1,
                                player2,
                                player1_points,
                                player2_points,
                            ),
                        ),
                        ..pre
                    })
                }
            }),
    {
        let scene = match self.scenes.get(&scene_id) {
            Some(s) => *s,
            None => {
                return Err(Error::SceneNotFound);
            },
        };
        if !scene.active {
            return Err(Error::SceneInactive);
        }
        if self.games.contains_key(&session_id) {
            return Err(Error::SessionAlreadyExists);
        }
        let game = Game {
            scene_id,
            player1,
            player2,
            player1_points,
            player2_points,
            player1_commitment: None,
            player2_commitment: None,
            player1_commit_ledger: None,
            player2_commit_ledger: None,
            player1_x: None,
            player1_y: None,
            player2_x: None,
            player2_y: None,
            winner: None,
        };
        self.games.insert(session_id, game);
        proof {
            assert forall|sid: u32| #[trigger] final(self)@.games.contains_key(sid) implies game_wf(
                final(self)@.games[sid],
            ) by {
                if sid != session_id {
                    assert(old(self)@.games.contains_key(sid));
                }
            }
        }
        Ok(())
    }

    /// Record a player's commitment digest and its timestamp at tick `now`,
    /// each slot fillable exactly once, only before the session has ended.
    pub fn submit_commitment(&mut self, now: u32, session_id: u32, player: AccountId, commitment:
        Bytes32) -> (r: Result<(), Error>)
        requires
            seek_wf(old(self)@),
        ensures
            seek_wf(final(self)@),
            ({
                let pre = old(self)@;
                let post = final(self)@;
                if !pre.games.contains_key(session_id) {
                    r == Err::<(), Error>(Error::GameNotFound) && post == pre
                } else {
                    let g = pre.games[session_id];
                    if g.winner is Some {
                        r == Err::<(), Error>(Error::GameAlreadyEnded) && post == pre
                    } else if player == g.player1 {
                        if g.player1_commitment is Some {
                            r == Err::<(), Error>(Error::AlreadyCommitted) && post == pre
                        } else {
                            r == Ok::<(), Error>(()) && post == (SeekView {
                                games: pre.games.insert(
                                    session_id,
                                    Game {
                                        player1_commitment: Some(commitment),
                                        player1_commit_ledger: Some(now),
                                        ..g
                                    },
                                ),
                                ..pre
                            })
                        }
                    } else if player == g.player2 {
                        if g.player2_commitment is Some {
                            r == Err::<(), Error>(Error::AlreadyCommitted) && post == pre
                        } else {
                            r == Ok::<(), Error>(()) && post == (SeekView {
                                games: pre.games.insert(
                                    session_id,
                                    Game {
                                        player2_commitment: Some(commitment),
                                        player2_commit_ledger: Some(now),
                                        ..g
                                    },
                                ),
                                ..pre
                            })
                        }
                    } else {
                        r == Err::<(), Error>(Error::NotPlayer) && post == pre
                    }
                }
            }),
    {
        let mut game = match self.games.get(&session_id) {
            Some(g) => *g,
            None => {
                return Err(Error::GameNotFound);
            },
        };
        if game.winner.is_some() {
            return Err(Error::GameAlreadyEnded);
        }
        if player == game.player1 {
            if game.player1_commitment.is_some() {
                return Err(Error::AlreadyCommitted);
            }
            game.player1_commitment = Some(commitment);
            game.player1_commit_ledger = Some(now);
        } else if player == game.player2 {
            if game.player2_commitment.is_some() {
                return Err(Error::AlreadyCommitted);
            }
            game.player2_commitment = Some(commitment);
            game.player2_commit_ledger = Some(now);
        } else {
            return Err(Error::NotPlayer);
        }
        self.games.insert(session_id, game);
        proof {
            assert forall|sid: u32| #[trigger] final(self)@.games.contains_key(sid) implies game_wf(
                final(self)@.games[sid],
            ) by {
                if sid != session_id {
                    assert(old(self)@.games.contains_key(sid));
                }
            }
        }
        Ok(())
    }

    /// Reveal a player's coordinates together with their salt, checked by
    /// recomputing the identity-bound commitment against that player's own
    /// earlier digest. Allowed only once both commitments exist, and at most
    /// once per player.
    pub fn reveal_coords(&mut self, env: &soroban_sdk::Env, session_id: u32, player: AccountId,
        x: u32, y: u32, salt: &Bytes32) -> (r: Result<(), Error>)
        requires
            seek_wf(old(self)@),
        ensures
            seek_wf(final(self)@),
            ({
                let pre = old(self)@;
                let post = final(self)@;
                if !pre.games.contains_key(session_id) {
                    r == Err::<(), Error>(Error::GameNotFound) && post == pre
                } else {
                    let g = pre.games[session_id];
                    if g.winner is Some {
                        r == Err::<(), Error>(Error::GameAlreadyEnded) && post == pre
                    } else if g.player1_commitment is None || g.player2_commitment is None {
                        r == Err::<(), Error>(Error::NotAllCommitted) && post == pre
                    } else if player == g.player1 {
                        if g.player1_x is Some {
                            r == Err::<(), Error>(Error::AlreadyRevealed) && post == pre
                        } else if seek_commit_of(x, y, salt@, player) != g.player1_commitment->0@ {
                            r == Err::<(), Error>(Error::CommitmentMismatch) && post == pre
                        } else {
                            r == Ok::<(), Error>(()) && post == (SeekView {
                                games: pre.games.insert(
                                    session_id,
                                    Game { player1_x: Some(x), player1_y: Some(y), ..g },
                                ),
                                ..pre
                            })
                        }
                    } else if player == g.player2 {
                        if g.player2_x is Some {
                            r == Err::<(), Error>(Error::AlreadyRevealed) && post == pre
                        } else if seek_commit_of(x, y, salt@, player) != g.player2_commitment->0@ {
                            r == Err::<(), Error>(Error::CommitmentMismatch) && post == pre
                        } else {
                            r == Ok::<(), Error>(()) && post == (SeekView {
                                games: pre.games.insert(
                                    session_id,
                                    Game { player2_x: Some(x), player2_y: Some(y), ..g },
                                ),
                                ..pre
                            })
                        }
                    } else {
                        r == Err::<(), Error>(Error::NotPlayer) && post == pre
                    }
                }
            }),
    {
        let mut game = match self.games.get(&session_id) {
            Some(g) => *g,
            None => {
                return Err(Error::GameNotFound);
            },
        };
        if game.winner.is_some() {
            return Err(Error::GameAlreadyEnded);
        }
        if game.player1_commitment.is_none() || game.player2_commitment.is_none() {
            return Err(Error::NotAllCommitted);
        }
        let expected = compute_commitment(env, x, y, salt, player);
        if player == game.player1 {
            if game.player1_x.is_some() {
                return Err(Error::AlreadyRevealed);
            }
            let stored = match game.player1_commitment {
                Some(c) => c,
                None => {
                    return Err(Error::NotAllCommitted);
                },
            };
            if !expected.equals(&stored) {
                return Err(Error::CommitmentMismatch);
            }
            game.player1_x = Some(x);
            game.player1_y = Some(y);
        } else if player == game.player2 {
            if game.player2_x.is_some() {
                return Err(Error::AlreadyRevealed);
            }
            let stored = match game.player2_commitment {
                Some(c) => c,
                None => {
                    return Err(Error::NotAllCommitted);
                },
            };
            if !expected.equals(&stored) {
                return Err(Error::CommitmentMismatch);
            }
            game.player2_x = Some(x);
            game.player2_y = Some(y);
        } else {
            return Err(Error::NotPlayer);
        }
        self.games.insert(session_id, game);
        proof {
            assert forall|sid: u32| #[trigger] final(self)@.games.contains_key(sid) implies game_wf(
                final(self)@.games[sid],
            ) by {
                if sid != session_id {
                    assert(old(self)@.games.contains_key(sid));
                }
            }
        }
        Ok(())
    }

    /// Resolve a fully revealed session. The true target and scene salt are
    /// checked against the scene's stored target commitment, so the
    /// adjudicator cannot assert an arbitrary outcome; the winner then
    /// follows deterministically from the three-tier rule.
    pub fn resolve_game(&mut self, env: &soroban_sdk::Env, session_id: u32, target_x: u32,
        target_y: u32, scene_salt: &Bytes32) -> (r: Result<AccountId, Error>)
        requires
            seek_wf(old(self)@),
            resolve_distances_ok(old(self)@, session_id, target_x, target_y),
        ensures
            seek_wf(final(self)@),
            ({
                let pre = old(self)@;
                let post = final(self)@;
                if !pre.games.contains_key(session_id) {
                    r == Err::<AccountId, Error>(Error::GameNotFound) && post == pre
                } else {
                    let g = pre.games[session_id];
                    if g.winner is Some {
                        r == Err::<AccountId, Error>(Error::GameAlreadyEnded) && post == pre
                    } else if g.player1_x is None || g.player1_y is None || g.player2_x is None
                        || g.player2_y is None {
                        r == Err::<AccountId, Error>(Error::NotAllRevealed) && post == pre
                    } else if !pre.scenes.contains_key(g.scene_id) {
                        r == Err::<AccountId, Error>(Error::SceneNotFound) && post == pre
                    } else if target_commit_of(target_x, target_y, scene_salt@) != pre.scenes[
                        g.scene_id
                    ].target_commitment@ {
                        r == Err::<AccountId, Error>(Error::InvalidTargetReveal) && post == pre
                    } else {
                        let w = resolved_winner(
                            g,
                            target_x,
                            target_y,
                            pre.scenes[g.scene_id].tolerance,
                        );
                        r == Ok::<AccountId, Error>(w) && post == (SeekView {
                            games: pre.games.insert(session_id, Game { winner: Some(w), ..g }),
                            ..pre
                        })
                    }
                }
            }),
    {
        let mut game = match self.games.get(&session_id) {
            Some(g) => *g,
            None => {
                return Err(Error::GameNotFound);
            },
        };
        if game.winner.is_some() {
            return Err(Error::GameAlreadyEnded);
        }
        let (p1x, p1y, p2x, p2y) = match (game.player1_x, game.player1_y, game.player2_x,
            game.player2_y) {
            (Some(a), Some(b), Some(c), Some(d)) => (a, b, c, d),
            _ => {
                return Err(Error::NotAllRevealed);
            },
        };
        let scene = match self.scenes.get(&game.scene_id) {
            Some(s) => *s,
            None => {
                return Err(Error::SceneNotFound);
            },
        };
        let target_hash = compute_target_commitment(env, target_x, target_y, scene_salt);
        if !target_hash.equals(&scene.target_commitment) {
            return Err(Error::InvalidTargetReveal);
        }
        let (l1, l2) = match (game.player1_commit_ledger, game.player2_commit_ledger) {
            (Some(a), Some(b)) => (a, b),
            _ => {
                return Err(Error::NotAllCommitted);
            },
        };
        let dist1 = distance_squared(p1x, p1y, target_x, target_y);
        let dist2 = distance_squared(p2x, p2y, target_x, target_y);
        let p1_in = is_within_tolerance(p1x, p1y, target_x, target_y, scene.tolerance);
        let p2_in = is_within_tolerance(p2x, p2y, target_x, target_y, scene.tolerance);
        let winner = if player1_wins(dist1, dist2, p1_in, p2_in, l1, l2) {
            game.player1
        } else {
            game.player2
        };
        game.winner = Some(winner);
        self.games.insert(session_id, game);
        proof {
            assert forall|sid: u32| #[trigger] final(self)@.games.contains_key(sid) implies game_wf(
                final(self)@.games[sid],
            ) by {
                if sid != session_id {
                    assert(old(self)@.games.contains_key(sid));
                }
            }
        }
        Ok(winner)
    }

    /// Get the current state of a session.
    pub fn get_game(&self, session_id: u32) -> (r: Result<Game, Error>)
        ensures
            r == if self@.games.contains_key(session_id) {
                Ok::<Game, Error>(self@.games[session_id])
            } else {
                Err::<Game, Error>(Error::GameNotFound)
            },
    {
        match self.games.get(&session_id) {
            Some(g) => Ok(*g),
            None => Err(Error::GameNotFound),
        }
    }

    /// Get a scene definition.
    pub fn get_scene(&self, scene_id: u32) -> (r: Result<Scene, Error>)
        ensures
            r == if self@.scenes.contains_key(scene_id) {
                Ok::<Scene, Error>(self@.scenes[scene_id])
            } else {
                Err::<Scene, Error>(Error::SceneNotFound)
            },
    {
        match self.scenes.get(&scene_id) {
            Some(s) => Ok(*s),
            None => Err(Error::SceneNotFound),
        }
    }

    /// Get the admin identity.
    pub fn get_admin(&self) -> (r: AccountId)
        ensures
            r == self@.admin,
    {
        self.admin
    }

    /// Replace the admin identity.
    pub fn set_admin(&mut self, new_admin: AccountId)
        ensures
            final(self)@ == (SeekView { admin: new_admin, ..old(self)@ }),
    {
        self.admin = new_admin;
    }

    /// Get the game-hub identity.
    pub fn get_hub(&self) -> (r: AccountId)
        ensures
            r == self@.hub,
    {
        self.hub
    }

    /// Replace the game-hub identity.
    pub fn set_hub(&mut self, new_hub: AccountId)
        ensures
            final(self)@ == (SeekView { hub: new_hub, ..old(self)@ }),
    {
        self.hub = new_hub;
    }
}

} // verus!
