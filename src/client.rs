use vstd::prelude::*;

use crate::game::Game;
use crate::game_state::GameState;

verus! {

/// Width of the game window, in logical pixels.
pub const WINDOW_WIDTH: u32 = 1280;

/// Height of the game window, in logical pixels.
pub const WINDOW_HEIGHT: u32 = 720;

/// Samples per pixel of multisample anti-aliasing.
pub const MSAA_SAMPLES: u32 = 4;

/// The client as a whole: the phase it starts in and the window it opens.
#[derive(Clone, Copy, Debug, PartialEq, Eq, Structural)]
pub struct CoreClientPlugin;

impl CoreClientPlugin {
    /// The client starts in Loading and enters Playing once the assets are ready.
    pub fn initial_state(&self) -> (s: GameState)
        ensures
            s == GameState::Loading,
    {
        GameState::Loading
    }

    /// The game world as the client starts it: loading, with no player or camera yet.
    pub fn start(&self) -> (g: Game)
        ensures
            g.wf(),
            g == (Game { state: GameState::Loading, player: None, camera: None }),
    {
        Game::new(self.initial_state())
    }

    /// Title of the game window.
    pub fn window_title(&self) -> (t: String)
        ensures
            t@ == "Colony"@,
    {
        proof {
            reveal_strlit("Colony");
        }
        String::from_str("Colony")
    }
}

} // verus!
