//! The selection that the frontend made last.

use vstd::prelude::*;

verus! {

/// The state shared between the event ingestor, which writes it, and the
/// hotkey dispatcher, which reads it.
#[derive(Clone, Debug)]
pub struct AppState {
    /// The system and the game of the most recent game selection.
    pub current_game: Option<(String, String)>,
}

impl AppState {
    /// The system and the game that are selected, as texts.
    pub open spec fn selection(self) -> Option<(Seq<char>, Seq<char>)> {
        match self.current_game {
            Some(pair) => Some((pair.0@, pair.1@)),
            None => None,
        }
    }

    /// The state in which no game has been selected yet.
    pub fn new() -> (state: AppState)
        ensures
            state.current_game is None,
    {
        AppState { current_game: None }
    }

    /// Records that `game_name` of `system_name` is selected.
    pub fn select(&mut self, system_name: &str, game_name: &str)
        ensures
            final(self).selection() == Some((system_name@, game_name@)),
    {
        self.current_game = Some((system_name.to_owned(), game_name.to_owned()));
    }
}

impl Default for AppState {
    fn default() -> (state: AppState)
        ensures
            state.current_game is None,
    {
        AppState { current_game: None }
    }
}

} // verus!
