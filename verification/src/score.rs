//! Score engine: a pure numeric outcome score from session telemetry.
//!
//! `score = max(0, 10000 - min(elapsed, 5000) - 500*wrong + 100*clues + 50*rooms)`,
//! where `elapsed` is the resolution timestamp minus the creation timestamp,
//! floored at zero if the clock ran backwards.

use vstd::prelude::*;

verus! {

/// Elapsed ticks between creation and resolution, floored at zero so that a
/// clock irregularity never produces a negative penalty.
pub open spec fn elapsed_ticks(start: int, solve: int) -> int {
    if solve >= start {
        solve - start
    } else {
        0
    }
}

/// The score before the final floor at zero: base 10000, minus elapsed ticks
/// capped at 5000, minus 500 per wrong attempt, plus 100 per clue inspected
/// and 50 per room visited.
pub open spec fn raw_score(elapsed: int, wrong: int, clues: int, rooms: int) -> int {
    10000 - (if elapsed < 5000 {
        elapsed
    } else {
        5000
    }) - 500 * wrong + 100 * clues + 50 * rooms
}

/// The outcome score of a solved session, floored at zero.
pub open spec fn spec_score(start: int, solve: int, wrong: int, clues: int, rooms: int) -> int {
    let r = raw_score(elapsed_ticks(start, solve), wrong, clues, rooms);
    if r > 0 {
        r
    } else {
        0
    }
}

/// Compute the outcome score from final session telemetry.
pub fn score_value(start_ledger: u32, solve_ledger: u32, wrong_accusations: u32, clues_inspected:
    u32, rooms_visited: u32) -> (r: i128)
    ensures
        r == spec_score(
            start_ledger as int,
            solve_ledger as int,
            wrong_accusations as int,
            clues_inspected as int,
            rooms_visited as int,
        ),
{
    let base_score: i128 = 10000;
    let time_elapsed: u32 = if solve_ledger >= start_ledger {
        solve_ledger - start_ledger
    } else {
        0
    };
    let time_penalty: i128 = if (time_elapsed as i128) < 5000 {
        time_elapsed as i128
    } else {
        5000
    };
    let accusation_penalty: i128 = (wrong_accusations as i128) * 500;
    let exploration_bonus: i128 = (clues_inspected as i128) * 100 + (rooms_visited as i128) * 50;
    let raw: i128 = base_score - time_penalty - accusation_penalty + exploration_bonus;
    if raw > 0 {
        raw
    } else {
        0
    }
}

/// A clean solve at zero elapsed time, with no wrong attempts and no
/// exploration, scores exactly the base 10000.
pub proof fn lemma_clean_solve_score(t: int)
    ensures
        spec_score(t, t, 0, 0, 0) == 10000,
{
}

/// Each wrong attempt subtracts exactly 500 from the unfloored score, with
/// the overall result floored at zero.
pub proof fn lemma_wrong_attempt_penalty(start: int, solve: int, wrong: int, clues: int, rooms:
    int)
    ensures
        spec_score(start, solve, wrong + 1, clues, rooms) == ({
            let r = raw_score(elapsed_ticks(start, solve), wrong, clues, rooms) - 500;
            if r > 0 {
                r
            } else {
                0
            }
        }),
{
}

/// Each elapsed tick below the cap subtracts exactly one from the unfloored
/// score.
pub proof fn lemma_time_penalty_per_tick(start: int, solve: int, wrong: int, clues: int, rooms:
    int)
    requires
        start <= solve,
        solve - start < 5000,
    ensures
        raw_score(elapsed_ticks(start, solve + 1), wrong, clues, rooms) == raw_score(
            elapsed_ticks(start, solve),
            wrong,
            clues,
            rooms,
        ) - 1,
{
}

/// The time penalty is capped: elapsed ticks beyond 5000 change nothing.
pub proof fn lemma_time_penalty_cap(start: int, solve: int, wrong: int, clues: int, rooms: int)
    requires
        solve - start >= 5000,
    ensures
        spec_score(start, solve, wrong, clues, rooms) == spec_score(
            start,
            start + 5000,
            wrong,
            clues,
            rooms,
        ),
{
}

} // verus!
