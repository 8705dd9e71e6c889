//! Game logic of the colony client: a grid-bound player controller with a
//! movement cooldown, a smoothed camera that follows the player, and the
//! loading/playing phase machine that drives both once per frame.
//!
//! Positions are fixed-point: one world unit is `UNITS_PER_WORLD_UNIT` units.
//! Times are nanoseconds, as the engine's frame `Duration` counts them.
pub mod camera;
pub mod client;
pub mod game;
pub mod game_state;
pub mod geometry;
pub mod player;

pub use camera::{
    focus_camera, setup_camera, CameraData, CameraPose, CAMERA_BACK_OFFSET, CAMERA_HEIGHT,
    FOCUS_SPEED, FOCUS_THRESHOLD, MAX_FRAME_NANOS, MIN_STEP_NANOS, NANOS_PER_SECOND,
};
pub use client::{CoreClientPlugin, MSAA_SAMPLES, WINDOW_HEIGHT, WINDOW_WIDTH};
pub use game::{FrameInput, FrameOutput, Game};
pub use game_state::GameState;
pub use geometry::{Point3, COORD_LIMIT, UNITS_PER_WORLD_UNIT};
pub use player::{
    player_controller, spawn_player, ControlFrame, Cooldown, Direction, DirectionKeys,
    GridBounds, Player, PlayerPose, GRID_MAX, GRID_MIN, MOVE_COOLDOWN_NANOS, PLAYER_HEIGHT,
};
