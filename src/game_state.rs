use vstd::prelude::*;

verus! {

/// The phase the game is in: assets still loading, or playing.
#[derive(Clone, Copy, Debug, PartialEq, Eq, Hash, Structural)]
pub enum GameState {
    Loading,
    Playing,
}

impl GameState {
    /// The phase after a frame: Loading turns into Playing once the assets are ready.
    pub open spec fn spec_next(self, assets_ready: bool) -> GameState {
        match self {
            GameState::Loading => if assets_ready {
                GameState::Playing
            } else {
                GameState::Loading
            },
            GameState::Playing => GameState::Playing,
        }
    }

    pub fn next(&self, assets_ready: bool) -> (s: GameState)
        ensures
            s == self.spec_next(assets_ready),
    {
        match self {
            GameState::Loading => if assets_ready {
                GameState::Playing
            } else {
                GameState::Loading
            },
            GameState::Playing => GameState::Playing,
        }
    }

    pub fn is_playing(&self) -> (r: bool)
        ensures
            r == (*self == GameState::Playing),
    {
        match self {
            GameState::Loading => false,
            GameState::Playing => true,
        }
    }
}

} // verus!
