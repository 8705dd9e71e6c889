use vstd::prelude::*;

use crate::camera::{focus_camera, is_stable_frame, CameraData, CameraPose, MAX_FRAME_NANOS};
use crate::game_state::GameState;
use crate::geometry::Point3;
use crate::player::{
    cell_position, player_controller, spawn_player, DirectionKeys, GridBounds, Player, PlayerPose,
    GRID_MAX, GRID_MIN, MOVE_COOLDOWN_NANOS,
};

verus! {

/// What the host hands the game each frame.
#[derive(Clone, Copy, Debug, PartialEq, Eq, Structural)]
pub struct FrameInput {
    /// The asset loader reports every asset loaded.
    pub assets_ready: bool,
    pub keys: DirectionKeys,
    /// Time since the previous frame, in nanoseconds.
    pub frame_nanos: u64,
}

/// What the game asks the host to do after a frame.
#[derive(Clone, Copy, Debug, PartialEq, Eq, Structural)]
pub struct FrameOutput {
    /// Playing was entered: create the player entity at the player's pose and
    /// the camera entity at `setup_camera`'s pose.
    pub entered_playing: bool,
    /// The new transform of the player entity, if it is to be written.
    pub player_pose: Option<PlayerPose>,
    /// The new transform of the camera entity, if it is to be written.
    pub camera_pose: Option<CameraPose>,
}

/// The game world: its phase, and the player and camera once they exist.
#[derive(Clone, Copy, Debug, PartialEq, Eq, Structural)]
pub struct Game {
    pub state: GameState,
    pub player: Option<Player>,
    pub camera: Option<CameraData>,
}

/// The player as it is created: in cell (0, 0) of the default grid, with the
/// default cooldown.
pub open spec fn start_player() -> Player {
    Player {
        grid_x: 0,
        grid_y: 0,
        bounds: GridBounds { min: GRID_MIN, max: GRID_MAX },
        move_cooldown: crate::player::Cooldown {
            duration: MOVE_COOLDOWN_NANOS,
            remaining: MOVE_COOLDOWN_NANOS,
        },
        facing: crate::player::Direction::Left,
    }
}

/// The camera's follow state as it is created: both points at the origin.
pub open spec fn start_camera() -> CameraData {
    CameraData {
        camera_should_focus: Point3 { x: 0, y: 0, z: 0 },
        camera_is_focus: Point3 { x: 0, y: 0, z: 0 },
    }
}

/// Where the camera finds the player: its cell's world position, if the player exists.
pub open spec fn player_position(player: Option<Player>) -> Option<Point3> {
    match player {
        Some(p) => Some(cell_position(p.grid_x as int, p.grid_y as int)),
        None => None,
    }
}

impl Game {
    pub open spec fn wf(self) -> bool {
        &&& (self.player matches Some(p) ==> p.wf())
        &&& (self.camera matches Some(c) ==> c.in_range())
    }

    /// The world after entering Playing: player and camera created.
    pub open spec fn entered(self) -> Game {
        Game { state: GameState::Playing, player: Some(start_player()), camera: Some(start_camera()) }
    }

    /// The player after a Playing frame.
    pub open spec fn next_player(self, input: FrameInput) -> Option<Player> {
        match self.player {
            Some(p) => Some(p.next(input.keys, input.frame_nanos)),
            None => None,
        }
    }

    /// The world after one frame. In Loading it waits for the assets, then
    /// enters Playing. In Playing the player controller runs first, then the
    /// camera follows the player's new position.
    pub open spec fn next(self, input: FrameInput) -> Game {
        match self.state {
            GameState::Loading => if input.assets_ready {
                self.entered()
            } else {
                self
            },
            GameState::Playing => {
                let player = self.next_player(input);
                Game {
                    state: GameState::Playing,
                    player,
                    camera: match self.camera {
                        Some(c) => Some(c.next(player_position(player), input.frame_nanos)),
                        None => None,
                    },
                }
            },
        }
    }

    /// What the host is asked to do after the frame.
    pub open spec fn output(self, input: FrameInput) -> FrameOutput {
        let after = self.next(input);
        match self.state {
            GameState::Loading => FrameOutput {
                entered_playing: input.assets_ready,
                player_pose: None,
                camera_pose: None,
            },
            GameState::Playing => FrameOutput {
                entered_playing: false,
                player_pose: match self.player {
                    Some(p) => if p.commits(input.keys, input.frame_nanos) {
                        Some(after.player.unwrap().pose())
                    } else {
                        None
                    },
                    None => None,
                },
                camera_pose: match after.camera {
                    Some(c) => Some(c.pose()),
                    None => None,
                },
            },
        }
    }

    /// A world in `initial` with nothing created yet; entering Playing at
    /// start creates the player and camera at once.
    pub fn new(initial: GameState) -> (g: Game)
        ensures
            g.wf(),
            g == (match initial {
                GameState::Loading => Game { state: GameState::Loading, player: None, camera: None },
                GameState::Playing => Game { state: GameState::Loading, player: None, camera: None }.entered(),
            }),
    {
        match initial {
            GameState::Loading => Game { state: GameState::Loading, player: None, camera: None },
            GameState::Playing => Game {
                state: GameState::Playing,
                player: Some(
                    spawn_player(0, 0, GridBounds { min: GRID_MIN, max: GRID_MAX }, MOVE_COOLDOWN_NANOS),
                ),
                camera: Some(CameraData::new()),
            },
        }
    }

    /// Tests `wf`.
    pub fn is_well_formed(&self) -> (r: bool)
        ensures
            r == self.wf(),
    {
        let player_ok = match &self.player {
            Some(p) => p.bounds.min <= p.bounds.max && p.bounds.min <= p.grid_x && p.grid_x
                <= p.bounds.max && p.bounds.min <= p.grid_y && p.grid_y <= p.bounds.max
                && p.move_cooldown.remaining <= p.move_cooldown.duration,
            None => true,
        };
        let camera_ok = match &self.camera {
            Some(c) => c.is_in_range(),
            None => true,
        };
        player_ok && camera_ok
    }

    /// Runs one frame: the phase machine in Loading, the player controller
    /// and then camera follow in Playing.
    pub fn frame(&mut self, input: FrameInput) -> (out: FrameOutput)
        requires
            old(self).wf(),
            input.frame_nanos <= MAX_FRAME_NANOS,
        ensures
            *final(self) == old(self).next(input),
            out == old(self).output(input),
            final(self).player matches Some(p) ==> p.wf(),
            is_stable_frame(input.frame_nanos as int) ==> final(self).wf(),
    {
        match self.state {
            GameState::Loading => {
                if input.assets_ready {
                    self.state = self.state.next(input.assets_ready);
                    self.player = Some(
                        spawn_player(0, 0, GridBounds { min: GRID_MIN, max: GRID_MAX }, MOVE_COOLDOWN_NANOS),
                    );
                    self.camera = Some(CameraData::new());
                }
                FrameOutput { entered_playing: input.assets_ready, player_pose: None, camera_pose: None }
            },
            GameState::Playing => {
                let mut player_pose: Option<PlayerPose> = None;
                let mut position: Option<Point3> = None;
                if let Some(mut p) = self.player {
                    player_pose = player_controller(&mut p, input.keys, input.frame_nanos);
                    position = Some(p.world_position());
                    proof {
                        lemma_cell_in_range(p.grid_x as int, p.grid_y as int);
                    }
                    self.player = Some(p);
                }
                let mut camera_pose: Option<CameraPose> = None;
                if let Some(mut c) = self.camera {
                    camera_pose = Some(focus_camera(&mut c, position, input.frame_nanos));
                    self.camera = Some(c);
                }
                FrameOutput { entered_playing: false, player_pose, camera_pose }
            },
        }
    }
}

/// The world position of any cell lies within the camera's range.
pub proof fn lemma_cell_in_range(x: int, y: int)
    requires
        i32::MIN <= x <= i32::MAX,
        i32::MIN <= y <= i32::MAX,
    ensures
        cell_position(x, y).in_range(),
{
}

} // verus!
