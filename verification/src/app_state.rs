//! The coarse application phase and its transition rule.

use vstd::prelude::*;

verus! {

/// The coarse phase of the application. Exactly one value is active at a
/// time; the only transition is `Load` to `Game`, and `Game` is terminal.
#[derive(Clone, Copy, Debug, PartialEq, Eq, Hash, Structural)]
pub enum AppState {
    /// Assets are being requested and polled.
    Load,
    /// All assets are resolved; the game runs.
    Game,
}

/// The state transition was not in the allowed-transition table.
#[derive(Clone, Copy, Debug, PartialEq, Eq, Structural)]
pub struct InvalidTransition;

/// The allowed-transition table: the only move is `Load` to `Game`.
pub open spec fn transition_allowed(from: AppState, to: AppState) -> bool {
    from == AppState::Load && to == AppState::Game
}

/// Validate a requested state change against the allowed-transition table;
/// `Ok` carries the new state, and an invalid request changes nothing.
pub fn transition(from: AppState, to: AppState) -> (r: Result<AppState, InvalidTransition>)
    ensures
        r is Ok <==> transition_allowed(from, to),
        r is Ok ==> r->Ok_0 == to,
{
    match (from, to) {
        (AppState::Load, AppState::Game) => Ok(AppState::Game),
        _ => Err(InvalidTransition),
    }
}

} // verus!
