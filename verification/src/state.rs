//! Top-level game states.

use vstd::prelude::*;

verus! {

/// The coarse phase the whole game is in. The level engine moves the game to
/// `GameOver` when the timer runs out, when the player forfeits, or when the
/// last level is passed.
#[derive(Debug, Clone, Copy, PartialEq, Eq, Hash, Structural)]
pub enum GameState {
    AssetLoading,
    MainMenu,
    InOffice,
    GameOver,
}

} // verus!
