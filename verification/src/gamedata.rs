use vstd::prelude::*;

use crate::gamestate::GameState;

verus! {

/// The process-wide game state: where the flow stands and the points scored
/// in the current run.
#[derive(Clone, Copy, PartialEq, Eq, Structural, Debug)]
pub struct GameData {
    pub game_state: GameState,
    pub score: u32,
}

impl GameData {
    /// A fresh game: in the menu with no score.
    pub fn new() -> (g: GameData)
        ensures
            g == (GameData { game_state: GameState::Menu, score: 0u32 }),
    {
        GameData { game_state: GameState::Menu, score: 0 }
    }
}

} // verus!
