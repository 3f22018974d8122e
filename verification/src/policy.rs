//! The opponent's move policy and the first-player draw: both are functions
//! of a single random draw supplied by the caller.

use vstd::prelude::*;

use crate::state::{DifficultyLevel, Player};

verus! {

/// The raw policy value taken from one random draw: `draw % max_move + 1`,
/// a value in `[1, max_move]`.
pub open spec fn policy_move(draw: u32, max_move: u32) -> int
    recommends
        max_move > 0,
{
    draw % max_move + 1
}

/// The move the opponent actually plays: the raw policy value, clamped to
/// the pebbles still in the pile so that the pile can never go negative.
/// The clamp binds only when fewer than `max_move` pebbles remain.
pub open spec fn opponent_move(draw: u32, max_move: u32, remaining: u32) -> int
    recommends
        max_move > 0,
        remaining > 0,
{
    if policy_move(draw, max_move) <= remaining {
        policy_move(draw, max_move)
    } else {
        remaining as int
    }
}

/// Who opens the match, decided by the parity of one random draw: even means
/// the user, odd means the opponent.
pub open spec fn first_player_of(draw: u32) -> Player {
    if draw % 2 == 0 {
        Player::User
    } else {
        Player::Opponent
    }
}

/// Chooses the opponent's move from one random draw.
///
/// Both difficulty levels deliberately share the same formula; see
/// [`DifficultyLevel`]. The result is clamped to `remaining`, so the caller
/// may subtract it from the pile without underflow.
pub fn choose_opponent_move(draw: u32, remaining: u32, max_move: u32, difficulty: DifficultyLevel) -> (m: u32)
    requires
        remaining >= 1,
        max_move >= 1,
    ensures
        m == opponent_move(draw, max_move, remaining),
        1 <= m <= max_move,
        m <= remaining,
{
    let raw = match difficulty {
        DifficultyLevel::Easy => draw % max_move + 1,
        DifficultyLevel::Hard => draw % max_move + 1,
    };
    if raw <= remaining {
        raw
    } else {
        remaining
    }
}

} // verus!
