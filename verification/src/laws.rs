//! Laws of the engine: properties that hold of every state and every
//! sequence of actions, proved once and for all over the transition
//! specifications of [`crate::engine`].

use vstd::prelude::*;

use crate::engine::{
    action_allowed, action_outcome, fresh_event, fresh_state, give_up_event, next_state,
    turn_valid,
};
use crate::state::{
    DifficultyLevel, GameAction, GameEvent, GameState, Player, ValidationError, state_inv,
    valid_params,
};

verus! {

/// One step preserves the record's invariant: from a well-formed state, any
/// allowed action leaves the pile within bounds and the winner recorded
/// exactly when the pile is empty.
pub proof fn lemma_next_state_preserves_inv(
    s: GameState,
    action: GameAction,
    draw_a: u32,
    draw_b: u32,
)
    requires
        state_inv(s),
        action_allowed(s, action),
    ensures
        state_inv(next_state(s, action, draw_a, draw_b)),
{
}

/// The state reached by running a sequence of actions, each step taking its
/// pair of random draws.
pub open spec fn run(s: GameState, steps: Seq<(GameAction, u32, u32)>) -> GameState
    decreases steps.len(),
{
    if steps.len() == 0 {
        s
    } else {
        run(next_state(s, steps[0].0, steps[0].1, steps[0].2), steps.drop_first())
    }
}

/// Whether every action of the sequence is allowed in the state it meets.
pub open spec fn run_allowed(s: GameState, steps: Seq<(GameAction, u32, u32)>) -> bool
    decreases steps.len(),
{
    steps.len() == 0 || {
        &&& action_allowed(s, steps[0].0)
        &&& run_allowed(next_state(s, steps[0].0, steps[0].1, steps[0].2), steps.drop_first())
    }
}

/// Invariant preservation over whole histories: from a well-formed state,
/// any sequence of allowed actions ends in a well-formed state. Since the
/// sequence is arbitrary, the invariant holds after every prefix of a
/// history, i.e. after every single action.
pub proof fn lemma_run_preserves_inv(s: GameState, steps: Seq<(GameAction, u32, u32)>)
    requires
        state_inv(s),
        run_allowed(s, steps),
    ensures
        state_inv(run(s, steps)),
    decreases steps.len(),
{
    if steps.len() > 0 {
        lemma_next_state_preserves_inv(s, steps[0].0, steps[0].1, steps[0].2);
        lemma_run_preserves_inv(
            next_state(s, steps[0].0, steps[0].1, steps[0].2),
            steps.drop_first(),
        );
    }
}

/// An illegal `Turn` is a true no-op: for every `n` that is zero, above the
/// move bound, or above the pile, the record is left untouched and nothing
/// is reported.
pub proof fn lemma_invalid_turn_noop(s: GameState, n: u32, draw_a: u32, draw_b: u32)
    requires
        !turn_valid(s, n),
    ensures
        next_state(s, GameAction::Turn(n), draw_a, draw_b) == s,
        action_outcome(s, GameAction::Turn(n), draw_a, draw_b) == Ok::<
            Option<GameEvent>,
            ValidationError,
        >(None),
{
}

/// Rejected `Restart` parameters change nothing: the prior record survives
/// untouched and the outcome is the validation error.
pub proof fn lemma_invalid_restart_noop(
    s: GameState,
    difficulty: DifficultyLevel,
    pile_size: u32,
    max_move: u32,
    draw_a: u32,
    draw_b: u32,
)
    requires
        !valid_params(pile_size, max_move),
    ensures
        next_state(s, GameAction::Restart { difficulty, pile_size, max_move }, draw_a, draw_b)
            == s,
        action_outcome(s, GameAction::Restart { difficulty, pile_size, max_move }, draw_a, draw_b)
            == Err::<Option<GameEvent>, ValidationError>(ValidationError),
{
}

/// Giving up never wins for the user: in any live, well-formed state,
/// `GiveUp` reports either the opponent's counter-move or the opponent's
/// win, never `Won(User)`.
pub proof fn lemma_give_up_never_user_win(s: GameState, draw: u32)
    requires
        state_inv(s),
        s.remaining > 0,
    ensures
        give_up_event(s, draw) != GameEvent::Won(Player::User),
        give_up_event(s, draw) matches GameEvent::Won(p) ==> p == Player::Opponent,
{
}

/// Restart resets exactly: whatever the prior record, a `Restart` with
/// accepted parameters installs precisely the record that a fresh
/// `initialize` with the same parameters and the same draws would, and
/// reports the event of that opening.
pub proof fn lemma_restart_matches_initialize(
    s: GameState,
    difficulty: DifficultyLevel,
    pile_size: u32,
    max_move: u32,
    draw_a: u32,
    draw_b: u32,
)
    requires
        valid_params(pile_size, max_move),
    ensures
        next_state(s, GameAction::Restart { difficulty, pile_size, max_move }, draw_a, draw_b)
            == fresh_state(difficulty, pile_size, max_move, draw_a, draw_b),
        action_outcome(s, GameAction::Restart { difficulty, pile_size, max_move }, draw_a, draw_b)
            == Ok::<Option<GameEvent>, ValidationError>(
            Some(fresh_event(pile_size, max_move, draw_a, draw_b)),
        ),
{
}

} // verus!
