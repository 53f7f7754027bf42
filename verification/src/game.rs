use vstd::prelude::*;

verus! {

/// Whether the player is in the menu or playing.
#[derive(Debug, PartialEq, Eq, Structural, Clone, Copy)]
pub enum GameState {
    Menu,
    Playing,
}

/// The name under which the audio patch knows a game state.
pub open spec fn scene_name(state: GameState) -> &'static str {
    match state {
        GameState::Menu => "menu",
        GameState::Playing => "playing",
    }
}

impl core::convert::From<GameState> for &'static str {
    /// The name of the state, as the audio patch's `scene` receiver expects it.
    fn from(value: GameState) -> (r: &'static str)
        ensures
            r == scene_name(value),
    {
        match value {
            GameState::Menu => "menu",
            GameState::Playing => "playing",
        }
    }
}

impl vstd::std_specs::convert::FromSpecImpl<GameState> for &'static str {
    open spec fn obeys_from_spec() -> bool {
        true
    }

    open spec fn from_spec(value: GameState) -> &'static str {
        scene_name(value)
    }
}

} // verus!
