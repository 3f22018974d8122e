//! Data model of a pebbles match: the live record, the player intents, the
//! events the engine reports, and the record's invariant.

use vstd::prelude::*;

verus! {

/// Selects the automated opponent's move policy.
///
/// Both levels currently use the same policy: `Hard` is kept as a distinct
/// tag so that a stronger policy could be selected later, but it deliberately
/// mirrors `Easy` today rather than inventing a different behaviour.
#[derive(Clone, Copy, Debug, PartialEq, Eq, Structural)]
pub enum DifficultyLevel {
    Easy,
    Hard,
}

/// One of the two parties of a match.
#[derive(Clone, Copy, Debug, PartialEq, Eq, Structural)]
pub enum Player {
    User,
    Opponent,
}

/// The single live record of a match.
#[derive(Clone, Copy, Debug, PartialEq, Eq)]
pub struct GameState {
    /// Pile size at the start of the current match; set at creation and never
    /// mutated afterwards.
    pub pile_size: u32,
    /// Most pebbles a single turn may remove; constant for the match.
    pub max_move: u32,
    /// Pebbles currently left in the pile.
    pub remaining: u32,
    /// Move policy selector, fixed for the match.
    pub difficulty: DifficultyLevel,
    /// Who moved first; set once at creation.
    pub first_player: Player,
    /// `None` while the match is in progress; set exactly when the pile
    /// reaches zero.
    pub winner: Option<Player>,
}

/// A player intent handed to the engine.
#[derive(Clone, Copy, Debug, PartialEq, Eq, Structural)]
pub enum GameAction {
    /// Remove this many pebbles from the pile.
    Turn(u32),
    /// Forfeit the turn: the opponent still moves once.
    GiveUp,
    /// Discard the current match and start a new one with these parameters.
    Restart { difficulty: DifficultyLevel, pile_size: u32, max_move: u32 },
}

/// What the engine reports after a successful action.
#[derive(Clone, Copy, Debug, PartialEq, Eq, Structural)]
pub enum GameEvent {
    /// The match ended; this player took the last pebble.
    Won(Player),
    /// The opponent answered by removing this many pebbles.
    CounterTurn(u32),
}

/// Rejection of malformed `initialize`/`Restart` parameters. The operation
/// that raised it creates or replaces no state.
#[derive(Clone, Copy, Debug, PartialEq, Eq, Structural)]
pub struct ValidationError;

/// The constraint on match parameters: a non-empty pile, and a positive move
/// bound that does not exceed the pile.
pub open spec fn valid_params(pile_size: u32, max_move: u32) -> bool {
    &&& pile_size > 0
    &&& max_move > 0
    &&& max_move <= pile_size
}

/// Well-formedness of a live record: the move bound is positive and within
/// the original pile, the pile never grows, and the winner is recorded
/// exactly when the pile is empty.
pub open spec fn state_inv(s: GameState) -> bool {
    &&& 0 < s.max_move <= s.pile_size
    &&& s.remaining <= s.pile_size
    &&& (s.winner is Some <==> s.remaining == 0)
}

} // verus!
