//! The transitions of a match and the engine that owns the live record.
//!
//! Every transition is specified by a spec function over the current state,
//! the action and the random draws, and the executable code is proved to
//! return exactly that.

use vstd::prelude::*;

use crate::policy::{choose_opponent_move, first_player_of, opponent_move};
use crate::state::{
    DifficultyLevel, GameAction, GameEvent, GameState, Player, ValidationError, state_inv,
    valid_params,
};

verus! {

/// The record created by `initialize` or `Restart` from validated parameters
/// and two random draws: `player_draw` decides who opens, and, when the
/// opponent opens, `move_draw` picks its opening move, which is subtracted
/// from the pile before the caller ever observes the state.
///
/// Validation guarantees `max_move <= pile_size`, so the opening move is
/// never clamped; it can empty the pile only when `max_move == pile_size`,
/// and in that case the opponent is recorded as the winner at once, keeping
/// the record's invariant.
pub open spec fn fresh_state(
    difficulty: DifficultyLevel,
    pile_size: u32,
    max_move: u32,
    player_draw: u32,
    move_draw: u32,
) -> GameState
    recommends
        valid_params(pile_size, max_move),
{
    let first = first_player_of(player_draw);
    if first is Opponent {
        let m = opponent_move(move_draw, max_move, pile_size);
        GameState {
            pile_size: pile_size,
            max_move: max_move,
            remaining: (pile_size - m) as u32,
            difficulty: difficulty,
            first_player: first,
            winner: if pile_size - m == 0 {
                Some(Player::Opponent)
            } else {
                None
            },
        }
    } else {
        GameState {
            pile_size: pile_size,
            max_move: max_move,
            remaining: pile_size,
            difficulty: difficulty,
            first_player: first,
            winner: None,
        }
    }
}

/// The event a `Restart` reports for the record it created: `CounterTurn(0)`
/// when the user opens, otherwise the opponent's opening move, or `Won` when
/// that move already empties the pile.
pub open spec fn fresh_event(
    pile_size: u32,
    max_move: u32,
    player_draw: u32,
    move_draw: u32,
) -> GameEvent
    recommends
        valid_params(pile_size, max_move),
{
    if first_player_of(player_draw) is Opponent {
        let m = opponent_move(move_draw, max_move, pile_size);
        if pile_size - m == 0 {
            GameEvent::Won(Player::Opponent)
        } else {
            GameEvent::CounterTurn(m as u32)
        }
    } else {
        GameEvent::CounterTurn(0)
    }
}

/// A `Turn(n)` is legal when it removes at least one pebble, no more than
/// the move bound, and no more than are left in the pile.
pub open spec fn turn_valid(s: GameState, n: u32) -> bool {
    &&& 1 <= n
    &&& n <= s.max_move
    &&& n <= s.remaining
}

/// The state after a legal `Turn(n)`: the user's pebbles leave the pile; if
/// it is now empty the user wins, otherwise the opponent answers with the
/// move drawn from `draw` and wins in turn if that empties the pile.
pub open spec fn turn_state(s: GameState, n: u32, draw: u32) -> GameState
    recommends
        state_inv(s),
        turn_valid(s, n),
{
    let after_user = s.remaining - n;
    if after_user == 0 {
        GameState { remaining: 0, winner: Some(Player::User), ..s }
    } else {
        let m = opponent_move(draw, s.max_move, (s.remaining - n) as u32);
        GameState {
            remaining: (after_user - m) as u32,
            winner: if after_user - m == 0 {
                Some(Player::Opponent)
            } else {
                s.winner
            },
            ..s
        }
    }
}

/// The event a legal `Turn(n)` reports.
pub open spec fn turn_event(s: GameState, n: u32, draw: u32) -> GameEvent
    recommends
        state_inv(s),
        turn_valid(s, n),
{
    let after_user = s.remaining - n;
    if after_user == 0 {
        GameEvent::Won(Player::User)
    } else {
        let m = opponent_move(draw, s.max_move, (s.remaining - n) as u32);
        if after_user - m == 0 {
            GameEvent::Won(Player::Opponent)
        } else {
            GameEvent::CounterTurn(m as u32)
        }
    }
}

/// The state after `GiveUp`: the user removes nothing and the opponent moves
/// once against the unchanged pile.
pub open spec fn give_up_state(s: GameState, draw: u32) -> GameState
    recommends
        state_inv(s),
        s.remaining > 0,
{
    let m = opponent_move(draw, s.max_move, s.remaining);
    GameState {
        remaining: (s.remaining - m) as u32,
        winner: if s.remaining - m == 0 {
            Some(Player::Opponent)
        } else {
            s.winner
        },
        ..s
    }
}

/// The event `GiveUp` reports: the opponent's answer, or its win when that
/// answer empties the pile. It can never be `Won(User)`.
pub open spec fn give_up_event(s: GameState, draw: u32) -> GameEvent
    recommends
        state_inv(s),
        s.remaining > 0,
{
    let m = opponent_move(draw, s.max_move, s.remaining);
    if s.remaining - m == 0 {
        GameEvent::Won(Player::Opponent)
    } else {
        GameEvent::CounterTurn(m as u32)
    }
}

/// Whether `action` may be issued in state `s`. Only `GiveUp` is restricted:
/// it makes the opponent move, so the match must still be in progress.
pub open spec fn action_allowed(s: GameState, action: GameAction) -> bool {
    match action {
        GameAction::GiveUp => s.remaining > 0,
        _ => true,
    }
}

/// The record after an action: an illegal `Turn` and a `Restart` with
/// rejected parameters both leave it untouched.
pub open spec fn next_state(s: GameState, action: GameAction, draw_a: u32, draw_b: u32) -> GameState
    recommends
        state_inv(s),
        action_allowed(s, action),
{
    match action {
        GameAction::Turn(n) => if turn_valid(s, n) {
            turn_state(s, n, draw_a)
        } else {
            s
        },
        GameAction::GiveUp => give_up_state(s, draw_a),
        GameAction::Restart { difficulty, pile_size, max_move } => if valid_params(
            pile_size,
            max_move,
        ) {
            fresh_state(difficulty, pile_size, max_move, draw_a, draw_b)
        } else {
            s
        },
    }
}

/// What an action reports: `Ok(None)` is the silent no-op of an illegal
/// `Turn`, and only a `Restart` with rejected parameters is an error.
pub open spec fn action_outcome(
    s: GameState,
    action: GameAction,
    draw_a: u32,
    draw_b: u32,
) -> Result<Option<GameEvent>, ValidationError>
    recommends
        state_inv(s),
        action_allowed(s, action),
{
    match action {
        GameAction::Turn(n) => if turn_valid(s, n) {
            Ok(Some(turn_event(s, n, draw_a)))
        } else {
            Ok(None)
        },
        GameAction::GiveUp => Ok(Some(give_up_event(s, draw_a))),
        GameAction::Restart { difficulty: _, pile_size, max_move } => if valid_params(
            pile_size,
            max_move,
        ) {
            Ok(Some(fresh_event(pile_size, max_move, draw_a, draw_b)))
        } else {
            Err(ValidationError)
        },
    }
}

impl GameState {
    /// Builds the record for a new match together with the event a `Restart`
    /// would report, from validated parameters and two random draws.
    pub fn fresh(
        difficulty: DifficultyLevel,
        pile_size: u32,
        max_move: u32,
        player_draw: u32,
        move_draw: u32,
    ) -> (r: (GameState, GameEvent))
        requires
            valid_params(pile_size, max_move),
        ensures
            r.0 == fresh_state(difficulty, pile_size, max_move, player_draw, move_draw),
            r.1 == fresh_event(pile_size, max_move, player_draw, move_draw),
            state_inv(r.0),
    {
        let first_player = if player_draw % 2 == 0 {
            Player::User
        } else {
            Player::Opponent
        };
        match first_player {
            Player::Opponent => {
                let m = choose_opponent_move(move_draw, pile_size, max_move, difficulty);
                let remaining = pile_size - m;
                let state = GameState {
                    pile_size,
                    max_move,
                    remaining,
                    difficulty,
                    first_player,
                    winner: if remaining == 0 {
                        Some(Player::Opponent)
                    } else {
                        None
                    },
                };
                let event = if remaining == 0 {
                    GameEvent::Won(Player::Opponent)
                } else {
                    GameEvent::CounterTurn(m)
                };
                (state, event)
            },
            Player::User => {
                let state = GameState {
                    pile_size,
                    max_move,
                    remaining: pile_size,
                    difficulty,
                    first_player,
                    winner: None,
                };
                (state, GameEvent::CounterTurn(0))
            },
        }
    }

    /// Applies the user's attempt to remove `n` pebbles. An illegal `n` is a
    /// silent no-op reporting `None`; a legal one runs the full exchange of
    /// [`turn_state`] and reports its event.
    pub fn turn(&mut self, n: u32, draw: u32) -> (ev: Option<GameEvent>)
        requires
            state_inv(*old(self)),
        ensures
            turn_valid(*old(self), n) ==> {
                &&& *final(self) == turn_state(*old(self), n, draw)
                &&& ev == Some(turn_event(*old(self), n, draw))
            },
            !turn_valid(*old(self), n) ==> *final(self) == *old(self) && ev is None,
            state_inv(*final(self)),
    {
        if n == 0 || n > self.max_move || n > self.remaining {
            return None;
        }
        self.remaining = self.remaining - n;
        if self.remaining == 0 {
            self.winner = Some(Player::User);
            Some(GameEvent::Won(Player::User))
        } else {
            let m = choose_opponent_move(draw, self.remaining, self.max_move, self.difficulty);
            self.remaining = self.remaining - m;
            if self.remaining == 0 {
                self.winner = Some(Player::Opponent);
                Some(GameEvent::Won(Player::Opponent))
            } else {
                Some(GameEvent::CounterTurn(m))
            }
        }
    }

    /// Forfeits the user's turn: the opponent moves once against the
    /// unchanged pile, and wins if that move empties it.
    pub fn give_up(&mut self, draw: u32) -> (ev: GameEvent)
        requires
            state_inv(*old(self)),
            old(self).remaining > 0,
        ensures
            *final(self) == give_up_state(*old(self), draw),
            ev == give_up_event(*old(self), draw),
            state_inv(*final(self)),
    {
        let m = choose_opponent_move(draw, self.remaining, self.max_move, self.difficulty);
        self.remaining = self.remaining - m;
        if self.remaining == 0 {
            self.winner = Some(Player::Opponent);
            GameEvent::Won(Player::Opponent)
        } else {
            GameEvent::CounterTurn(m)
        }
    }
}

/// The engine: sole owner of the single live record, `None` until the first
/// successful `initialize`.
pub struct GameEngine {
    /// The live record, `None` before the first successful `initialize`.
    pub game: Option<GameState>,
}

impl GameEngine {
    /// Whether a match has ever been successfully initialized.
    pub open spec fn is_initialized(self) -> bool {
        self.game is Some
    }

    /// The live record; meaningful only once initialized.
    pub open spec fn state(self) -> GameState
        recommends
            self.is_initialized(),
    {
        self.game.unwrap()
    }

    /// Well-formedness of the engine: whatever record it holds satisfies the
    /// record's invariant. Established by every constructor and preserved by
    /// every operation.
    pub open spec fn wf(self) -> bool {
        self.is_initialized() ==> state_inv(self.state())
    }

    /// A fresh engine holding no match yet.
    pub fn new() -> (e: GameEngine)
        ensures
            !e.is_initialized(),
            e.wf(),
    {
        GameEngine { game: None }
    }

    /// Creates the first record of a match. Fails, touching nothing, exactly
    /// when the parameters are rejected: an empty pile, a zero move bound,
    /// or a move bound above the pile.
    pub fn initialize(
        &mut self,
        difficulty: DifficultyLevel,
        pile_size: u32,
        max_move: u32,
        player_draw: u32,
        move_draw: u32,
    ) -> (r: Result<(), ValidationError>)
        requires
            old(self).wf(),
        ensures
            r is Ok <==> valid_params(pile_size, max_move),
            r is Ok ==> {
                &&& final(self).is_initialized()
                &&& final(self).state() == fresh_state(
                    difficulty,
                    pile_size,
                    max_move,
                    player_draw,
                    move_draw,
                )
            },
            r is Err ==> *final(self) == *old(self),
            final(self).wf(),
    {
        if pile_size == 0 || max_move == 0 || max_move > pile_size {
            return Err(ValidationError);
        }
        let (state, _event) = GameState::fresh(difficulty, pile_size, max_move, player_draw, move_draw);
        self.game = Some(state);
        Ok(())
    }

    /// Runs one action of the state machine. `draw_a` feeds the opponent's
    /// reply to `Turn` and `GiveUp` and the first-player decision of
    /// `Restart`; `draw_b` feeds only the opponent's opening move of a
    /// `Restart`. The resulting record is exactly [`next_state`] and the
    /// report exactly [`action_outcome`].
    pub fn apply_action(&mut self, action: GameAction, draw_a: u32, draw_b: u32) -> (r: Result<
        Option<GameEvent>,
        ValidationError,
    >)
        requires
            old(self).is_initialized(),
            old(self).wf(),
            action_allowed(old(self).state(), action),
        ensures
            final(self).is_initialized(),
            final(self).wf(),
            final(self).state() == next_state(old(self).state(), action, draw_a, draw_b),
            r == action_outcome(old(self).state(), action, draw_a, draw_b),
    {
        let mut state = self.game.unwrap();
        match action {
            GameAction::Turn(n) => {
                let ev = state.turn(n, draw_a);
                self.game = Some(state);
                Ok(ev)
            },
            GameAction::GiveUp => {
                let ev = state.give_up(draw_a);
                self.game = Some(state);
                Ok(Some(ev))
            },
            GameAction::Restart { difficulty, pile_size, max_move } => {
                if pile_size == 0 || max_move == 0 || max_move > pile_size {
                    return Err(ValidationError);
                }
                let (fresh, event) = GameState::fresh(difficulty, pile_size, max_move, draw_a, draw_b);
                self.game = Some(fresh);
                Ok(Some(event))
            },
        }
    }

    /// A read-only snapshot of the live record.
    pub fn read_state(&self) -> (s: GameState)
        requires
            self.is_initialized(),
        ensures
            s == self.state(),
    {
        self.game.unwrap()
    }
}

} // verus!
