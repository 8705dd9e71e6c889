use vstd::prelude::*;

use crate::geometry::{Point3, UNITS_PER_WORLD_UNIT};

verus! {

/// Height of the player's feet above the ground plane, in fixed-point units (half a world unit).
pub const PLAYER_HEIGHT: i64 = 500;

/// Time between two committed moves, in nanoseconds (a fifth of a second).
pub const MOVE_COOLDOWN_NANOS: u64 = 200_000_000;

/// Default lower bound of both grid coordinates.
pub const GRID_MIN: i32 = -10;

/// Default upper bound of both grid coordinates.
pub const GRID_MAX: i32 = 10;

/// One of the four directions of the movement grid.
#[derive(Clone, Copy, Debug, PartialEq, Eq, Structural)]
pub enum Direction {
    Up,
    Down,
    Right,
    Left,
}

impl Direction {
    /// Rotation about the vertical axis that faces this direction, counted in
    /// quarter turns: Up is -1 (-pi/2), Down is 1 (pi/2), Right is 2 (pi), Left is 0.
    pub open spec fn spec_quarter_turns(self) -> int {
        match self {
            Direction::Up => -1,
            Direction::Down => 1,
            Direction::Right => 2,
            Direction::Left => 0,
        }
    }

    pub fn quarter_turns(&self) -> (r: i8)
        ensures
            r == self.spec_quarter_turns(),
    {
        match self {
            Direction::Up => -1,
            Direction::Down => 1,
            Direction::Right => 2,
            Direction::Left => 0,
        }
    }
}

/// Which direction keys are held down in a frame.
#[derive(Clone, Copy, Debug, PartialEq, Eq, Structural)]
pub struct DirectionKeys {
    pub up: bool,
    pub down: bool,
    pub right: bool,
    pub left: bool,
}

impl DirectionKeys {
    pub open spec fn any(self) -> bool {
        self.up || self.down || self.right || self.left
    }

    /// No key held.
    pub fn none() -> (k: DirectionKeys)
        ensures
            !k.any(),
    {
        DirectionKeys { up: false, down: false, right: false, left: false }
    }

    /// Only the key of `d` held.
    pub fn only(d: Direction) -> (k: DirectionKeys)
        ensures
            k.up == (d == Direction::Up),
            k.down == (d == Direction::Down),
            k.right == (d == Direction::Right),
            k.left == (d == Direction::Left),
    {
        DirectionKeys {
            up: d == Direction::Up,
            down: d == Direction::Down,
            right: d == Direction::Right,
            left: d == Direction::Left,
        }
    }
}

/// The inclusive range that both grid coordinates are kept in.
#[derive(Clone, Copy, Debug, PartialEq, Eq, Structural)]
pub struct GridBounds {
    pub min: i32,
    pub max: i32,
}

impl GridBounds {
    pub open spec fn wf(self) -> bool {
        self.min <= self.max
    }

    pub open spec fn contains(self, v: int) -> bool {
        self.min <= v <= self.max
    }
}

/// A countdown that gates how often the player may move. It never goes below zero.
#[derive(Clone, Copy, Debug, PartialEq, Eq, Structural)]
pub struct Cooldown {
    /// The time it is reset to, in nanoseconds.
    pub duration: u64,
    /// The time left before it has elapsed, in nanoseconds.
    pub remaining: u64,
}

/// `a - b`, or zero where `b` exceeds `a`.
pub open spec fn saturating_sub(a: int, b: int) -> int {
    if a > b {
        a - b
    } else {
        0
    }
}

impl Cooldown {
    pub open spec fn wf(self) -> bool {
        self.remaining <= self.duration
    }

    /// A cooldown of `duration` nanoseconds that has just started.
    pub fn new(duration: u64) -> (c: Cooldown)
        ensures
            c.duration == duration,
            c.remaining == duration,
    {
        Cooldown { duration, remaining: duration }
    }

    /// Lets `elapsed` nanoseconds pass.
    pub fn tick(&mut self, elapsed: u64)
        ensures
            final(self).duration == old(self).duration,
            final(self).remaining == saturating_sub(old(self).remaining as int, elapsed as int),
    {
        self.remaining = self.remaining.saturating_sub(elapsed);
    }

    pub fn is_finished(&self) -> (r: bool)
        ensures
            r == (self.remaining == 0),
    {
        self.remaining == 0
    }

    /// Starts the countdown again from its full duration.
    pub fn reset(&mut self)
        ensures
            final(self).duration == old(self).duration,
            final(self).remaining == old(self).duration,
    {
        self.remaining = self.duration;
    }
}

/// The controlled character: its cell on the movement grid, the cooldown
/// between moves, and the direction it faces.
#[derive(Clone, Copy, Debug, PartialEq, Eq, Structural)]
pub struct Player {
    pub grid_x: i32,
    pub grid_y: i32,
    pub bounds: GridBounds,
    pub move_cooldown: Cooldown,
    pub facing: Direction,
}

/// The transform written for the player entity: a world position and the
/// direction it faces (a rotation about the vertical axis).
#[derive(Clone, Copy, Debug, PartialEq, Eq, Structural)]
pub struct PlayerPose {
    pub position: Point3,
    pub facing: Direction,
}

/// One step up the grid axis, held at `b.max`.
pub open spec fn step_up(v: int, b: GridBounds) -> int {
    if v < b.max {
        v + 1
    } else {
        v
    }
}

/// One step down the grid axis, held at `b.min`.
pub open spec fn step_down(v: int, b: GridBounds) -> int {
    if v > b.min {
        v - 1
    } else {
        v
    }
}

/// World position of grid cell `(x, y)`: grid y runs along world x, grid x
/// along world z, at the player's height.
pub open spec fn cell_position(x: int, y: int) -> Point3 {
    Point3 {
        x: (y * UNITS_PER_WORLD_UNIT) as i64,
        y: PLAYER_HEIGHT,
        z: (x * UNITS_PER_WORLD_UNIT) as i64,
    }
}

impl Player {
    pub open spec fn wf(self) -> bool {
        &&& self.bounds.wf()
        &&& self.bounds.contains(self.grid_x as int)
        &&& self.bounds.contains(self.grid_y as int)
        &&& self.move_cooldown.wf()
    }

    /// The cooldown, after `frame_nanos` have passed, has elapsed and a key is held.
    pub open spec fn commits(self, keys: DirectionKeys, frame_nanos: u64) -> bool {
        saturating_sub(self.move_cooldown.remaining as int, frame_nanos as int) == 0 && keys.any()
    }

    /// Grid x after the held keys are applied: Right, then Left.
    pub open spec fn moved_x(self, keys: DirectionKeys) -> int {
        let x1 = if keys.right {
            step_up(self.grid_x as int, self.bounds)
        } else {
            self.grid_x as int
        };
        if keys.left {
            step_down(x1, self.bounds)
        } else {
            x1
        }
    }

    /// Grid y after the held keys are applied: Up, then Down.
    pub open spec fn moved_y(self, keys: DirectionKeys) -> int {
        let y1 = if keys.up {
            step_up(self.grid_y as int, self.bounds)
        } else {
            self.grid_y as int
        };
        if keys.down {
            step_down(y1, self.bounds)
        } else {
            y1
        }
    }

    /// Facing after the held keys are applied, in the order Up, Down, Right,
    /// Left: the last held one wins.
    pub open spec fn moved_facing(self, keys: DirectionKeys) -> Direction {
        if keys.left {
            Direction::Left
        } else if keys.right {
            Direction::Right
        } else if keys.down {
            Direction::Down
        } else if keys.up {
            Direction::Up
        } else {
            self.facing
        }
    }

    /// The player after one frame of `frame_nanos` with `keys` held.
    pub open spec fn next(self, keys: DirectionKeys, frame_nanos: u64) -> Player {
        if self.commits(keys, frame_nanos) {
            Player {
                grid_x: self.moved_x(keys) as i32,
                grid_y: self.moved_y(keys) as i32,
                facing: self.moved_facing(keys),
                move_cooldown: Cooldown {
                    remaining: self.move_cooldown.duration,
                    ..self.move_cooldown
                },
                ..self
            }
        } else {
            Player {
                move_cooldown: Cooldown {
                    remaining: saturating_sub(
                        self.move_cooldown.remaining as int,
                        frame_nanos as int,
                    ) as u64,
                    ..self.move_cooldown
                },
                ..self
            }
        }
    }

    /// The transform of the player as it stands.
    pub open spec fn pose(self) -> PlayerPose {
        PlayerPose { position: cell_position(self.grid_x as int, self.grid_y as int), facing: self.facing }
    }

    /// World position of the player's cell.
    pub fn world_position(&self) -> (p: Point3)
        ensures
            p == cell_position(self.grid_x as int, self.grid_y as int),
    {
        Point3 {
            x: self.grid_y as i64 * UNITS_PER_WORLD_UNIT,
            y: PLAYER_HEIGHT,
            z: self.grid_x as i64 * UNITS_PER_WORLD_UNIT,
        }
    }
}

/// A frame as the controller sees it: the held keys and the time it took.
#[derive(Clone, Copy, Debug, PartialEq, Eq, Structural)]
pub struct ControlFrame {
    pub keys: DirectionKeys,
    pub frame_nanos: u64,
}

/// The player after running the controller over `frames`, in order.
pub open spec fn run_player(p: Player, frames: Seq<ControlFrame>) -> Player
    decreases frames.len(),
{
    if frames.len() == 0 {
        p
    } else {
        run_player(p.next(frames[0].keys, frames[0].frame_nanos), frames.drop_first())
    }
}

/// Total time of `frames`, in nanoseconds.
pub open spec fn total_nanos(frames: Seq<ControlFrame>) -> int
    decreases frames.len(),
{
    if frames.len() == 0 {
        0
    } else {
        frames[0].frame_nanos + total_nanos(frames.drop_first())
    }
}

/// Whatever keys are held and however long the frames take, the grid
/// coordinates stay within the bounds, inclusive, and the bounds do not change.
pub proof fn lemma_grid_stays_in_bounds(p: Player, frames: Seq<ControlFrame>)
    requires
        p.wf(),
    ensures
        run_player(p, frames).wf(),
        run_player(p, frames).bounds == p.bounds,
        p.bounds.min <= run_player(p, frames).grid_x <= p.bounds.max,
        p.bounds.min <= run_player(p, frames).grid_y <= p.bounds.max,
    decreases frames.len(),
{
    if frames.len() > 0 {
        lemma_grid_stays_in_bounds(p.next(frames[0].keys, frames[0].frame_nanos), frames.drop_first());
    }
}

/// While the cooldown has not run out, held keys have no effect: over frames
/// that take less time in all than what is left of the cooldown, the player
/// keeps its cell and facing and only the cooldown runs down.
pub proof fn lemma_cooling_down_holds_still(p: Player, frames: Seq<ControlFrame>)
    requires
        p.wf(),
        total_nanos(frames) < p.move_cooldown.remaining,
    ensures
        run_player(p, frames).grid_x == p.grid_x,
        run_player(p, frames).grid_y == p.grid_y,
        run_player(p, frames).facing == p.facing,
        run_player(p, frames).move_cooldown.remaining == p.move_cooldown.remaining - total_nanos(frames),
        run_player(p, frames).move_cooldown.duration == p.move_cooldown.duration,
    decreases frames.len(),
{
    if frames.len() > 0 {
        let q = p.next(frames[0].keys, frames[0].frame_nanos);
        assert(total_nanos(frames) == frames[0].frame_nanos + total_nanos(frames.drop_first()));
        lemma_total_nanos_nonneg(frames.drop_first());
        lemma_cooling_down_holds_still(q, frames.drop_first());
    }
}

proof fn lemma_total_nanos_nonneg(frames: Seq<ControlFrame>)
    ensures
        total_nanos(frames) >= 0,
    decreases frames.len(),
{
    if frames.len() > 0 {
        lemma_total_nanos_nonneg(frames.drop_first());
    }
}

/// Moves commit at most once per cooldown duration: after a frame in which
/// the player moves, frames that take less than the cooldown's duration in
/// all leave its cell and facing as that move left them.
pub proof fn lemma_moves_are_spaced_by_cooldown(
    p: Player,
    keys: DirectionKeys,
    frame_nanos: u64,
    frames: Seq<ControlFrame>,
)
    requires
        p.wf(),
        p.commits(keys, frame_nanos),
        total_nanos(frames) < p.move_cooldown.duration,
    ensures
        run_player(p.next(keys, frame_nanos), frames).grid_x == p.next(keys, frame_nanos).grid_x,
        run_player(p.next(keys, frame_nanos), frames).grid_y == p.next(keys, frame_nanos).grid_y,
        run_player(p.next(keys, frame_nanos), frames).facing == p.next(keys, frame_nanos).facing,
{
    lemma_grid_stays_in_bounds(p, seq![ControlFrame { keys, frame_nanos }]);
    assert(seq![ControlFrame { keys, frame_nanos }].drop_first() =~= Seq::<ControlFrame>::empty());
    lemma_cooling_down_holds_still(p.next(keys, frame_nanos), frames);
}

/// Creates the player at cell `(x, y)`, facing Left, with its cooldown just started.
pub fn spawn_player(x: i32, y: i32, bounds: GridBounds, cooldown_nanos: u64) -> (p: Player)
    requires
        bounds.wf(),
        bounds.contains(x as int),
        bounds.contains(y as int),
    ensures
        p.wf(),
        p.grid_x == x,
        p.grid_y == y,
        p.bounds == bounds,
        p.move_cooldown.duration == cooldown_nanos,
        p.move_cooldown.remaining == cooldown_nanos,
        p.facing == Direction::Left,
{
    Player { grid_x: x, grid_y: y, bounds, move_cooldown: Cooldown::new(cooldown_nanos), facing: Direction::Left }
}

/// Runs one frame of the player controller: the cooldown advances by
/// `frame_nanos`; once it has elapsed, every held direction moves the player
/// one cell (held within the bounds) and turns it, the cooldown restarts, and
/// the new transform is returned. Otherwise nothing is written.
pub fn player_controller(player: &mut Player, keys: DirectionKeys, frame_nanos: u64) -> (written: Option<PlayerPose>)
    requires
        old(player).wf(),
    ensures
        *final(player) == old(player).next(keys, frame_nanos),
        final(player).wf(),
        written == (if old(player).commits(keys, frame_nanos) {
            Some(final(player).pose())
        } else {
            None::<PlayerPose>
        }),
{
    player.move_cooldown.tick(frame_nanos);
    if !player.move_cooldown.is_finished() {
        return None;
    }
    let mut moved = false;
    if keys.up {
        if player.grid_y < player.bounds.max {
            player.grid_y = player.grid_y + 1;
        }
        player.facing = Direction::Up;
        moved = true;
    }
    if keys.down {
        if player.grid_y > player.bounds.min {
            player.grid_y = player.grid_y - 1;
        }
        player.facing = Direction::Down;
        moved = true;
    }
    if keys.right {
        if player.grid_x < player.bounds.max {
            player.grid_x = player.grid_x + 1;
        }
        player.facing = Direction::Right;
        moved = true;
    }
    if keys.left {
        if player.grid_x > player.bounds.min {
            player.grid_x = player.grid_x - 1;
        }
        player.facing = Direction::Left;
        moved = true;
    }
    if !moved {
        return None;
    }
    player.move_cooldown.reset();
    Some(PlayerPose { position: player.world_position(), facing: player.facing })
}

} // verus!
