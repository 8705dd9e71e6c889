use vstd::arithmetic::div_mod::{
    lemma_div_is_ordered, lemma_div_multiples_vanish, lemma_fundamental_div_mod,
};
use vstd::prelude::*;

use crate::geometry::{length_squared, Point3, COORD_LIMIT};

verus! {

/// Below this distance from its target (0.2 world units) the camera focus stays put.
pub const FOCUS_THRESHOLD: i64 = 200;

/// Rate of the focus smoothing, per second.
pub const FOCUS_SPEED: i64 = 2;

pub const NANOS_PER_SECOND: u64 = 1_000_000_000;

/// Height of the camera above the ground (20 world units).
pub const CAMERA_HEIGHT: i64 = 20_000;

/// How far the camera stands back from its focus along world x (20 world units).
pub const CAMERA_BACK_OFFSET: i64 = 20_000;

/// Longest frame the camera accepts, in nanoseconds (a little under twenty-eight hours).
pub const MAX_FRAME_NANOS: u64 = 100_000_000_000_000;

/// The camera's follow state: where it should look (the player's position)
/// and the smoothed point it actually looks from.
#[derive(Clone, Copy, Debug, PartialEq, Eq, Structural)]
pub struct CameraData {
    pub camera_should_focus: Point3,
    pub camera_is_focus: Point3,
}

/// The transform written for the camera entity: its position, and the point
/// it looks at with the vertical axis up.
#[derive(Clone, Copy, Debug, PartialEq, Eq, Structural)]
pub struct CameraPose {
    pub eye: Point3,
    pub target: Point3,
}

/// `d * FOCUS_SPEED * frame_nanos` seconds, rounded toward zero.
pub open spec fn scaled_step(d: int, frame_nanos: int) -> int {
    if d >= 0 {
        d * FOCUS_SPEED * frame_nanos / NANOS_PER_SECOND as int
    } else {
        -((-d) * FOCUS_SPEED * frame_nanos / NANOS_PER_SECOND as int)
    }
}

/// The focus is farther than the threshold from where it should be.
pub open spec fn is_tracking(desired: Point3, current: Point3) -> bool {
    length_squared(
        desired.x - current.x,
        desired.y - current.y,
        desired.z - current.z,
    ) > FOCUS_THRESHOLD * FOCUS_THRESHOLD
}

/// One explicit Euler step of the focus toward `desired`, or no step within
/// the threshold.
pub open spec fn follow_focus(desired: Point3, current: Point3, frame_nanos: int) -> Point3 {
    if is_tracking(desired, current) {
        Point3 {
            x: (current.x + scaled_step(desired.x - current.x, frame_nanos)) as i64,
            y: (current.y + scaled_step(desired.y - current.y, frame_nanos)) as i64,
            z: (current.z + scaled_step(desired.z - current.z, frame_nanos)) as i64,
        }
    } else {
        current
    }
}

impl CameraData {
    pub open spec fn in_range(self) -> bool {
        self.camera_should_focus.in_range() && self.camera_is_focus.in_range()
    }

    /// The follow state after one frame: the target becomes the player's
    /// position where the player is known, and the focus takes one step.
    pub open spec fn next(self, player_position: Option<Point3>, frame_nanos: u64) -> CameraData {
        let desired = match player_position {
            Some(p) => p,
            None => self.camera_should_focus,
        };
        CameraData {
            camera_should_focus: desired,
            camera_is_focus: follow_focus(desired, self.camera_is_focus, frame_nanos as int),
        }
    }

    /// The camera stands at the focus height above and back from the focus, looking at the target.
    pub open spec fn pose(self) -> CameraPose {
        CameraPose {
            eye: Point3 {
                x: (self.camera_is_focus.x - CAMERA_BACK_OFFSET) as i64,
                y: CAMERA_HEIGHT,
                z: self.camera_is_focus.z,
            },
            target: self.camera_should_focus,
        }
    }

    /// Follow state with both points at the origin.
    pub fn new() -> (c: CameraData)
        ensures
            c.camera_should_focus.is_origin(),
            c.camera_is_focus.is_origin(),
    {
        CameraData { camera_should_focus: Point3::origin(), camera_is_focus: Point3::origin() }
    }

    /// Tests `in_range`.
    pub fn is_in_range(&self) -> (r: bool)
        ensures
            r == self.in_range(),
    {
        self.camera_should_focus.is_in_range() && self.camera_is_focus.is_in_range()
    }
}

proof fn lemma_step_bound(m: int, frame_nanos: int)
    requires
        0 <= m <= 2 * COORD_LIMIT,
        0 <= frame_nanos <= MAX_FRAME_NANOS,
    ensures
        0 <= m * FOCUS_SPEED * frame_nanos <= 4 * COORD_LIMIT * MAX_FRAME_NANOS,
        0 <= m * FOCUS_SPEED * frame_nanos / NANOS_PER_SECOND as int <= 1_600_000_000_000_000_000,
{
    assert(0 <= m * FOCUS_SPEED * frame_nanos <= 4 * COORD_LIMIT * MAX_FRAME_NANOS)
        by (nonlinear_arith)
        requires
            0 <= m <= 2 * COORD_LIMIT,
            0 <= frame_nanos <= MAX_FRAME_NANOS,
    ;
    assert(m * FOCUS_SPEED * frame_nanos / NANOS_PER_SECOND as int <= 1_600_000_000_000_000_000)
        by (nonlinear_arith)
        requires
            m * FOCUS_SPEED * frame_nanos <= 4 * COORD_LIMIT * MAX_FRAME_NANOS,
    ;
}

/// One component of the focus step: `scaled_step(d, frame_nanos)`.
fn scale_component(d: i64, frame_nanos: u64) -> (s: i64)
    requires
        -2 * COORD_LIMIT <= d <= 2 * COORD_LIMIT,
        frame_nanos <= MAX_FRAME_NANOS,
    ensures
        s == scaled_step(d as int, frame_nanos as int),
        -1_600_000_000_000_000_000 <= s <= 1_600_000_000_000_000_000,
{
    let negative = d < 0;
    let m: u128 = if negative {
        (-d) as u128
    } else {
        d as u128
    };
    proof {
        lemma_step_bound(m as int, frame_nanos as int);
    }
    let q: u128 = m * (FOCUS_SPEED as u128) * (frame_nanos as u128) / (NANOS_PER_SECOND as u128);
    if negative {
        -(q as i64)
    } else {
        q as i64
    }
}

proof fn lemma_square_bound(d: int)
    requires
        -2 * COORD_LIMIT <= d <= 2 * COORD_LIMIT,
    ensures
        0 <= d * d <= 4 * COORD_LIMIT * COORD_LIMIT,
{
    assert(0 <= d * d <= 4 * COORD_LIMIT * COORD_LIMIT) by (nonlinear_arith)
        requires
            -2 * COORD_LIMIT <= d <= 2 * COORD_LIMIT,
    ;
}

/// Tests `is_tracking`.
fn tracking(desired: &Point3, current: &Point3) -> (r: bool)
    requires
        desired.in_range(),
        current.in_range(),
    ensures
        r == is_tracking(*desired, *current),
{
    let dx = (desired.x - current.x) as i128;
    let dy = (desired.y - current.y) as i128;
    let dz = (desired.z - current.z) as i128;
    proof {
        lemma_square_bound(dx as int);
        lemma_square_bound(dy as int);
        lemma_square_bound(dz as int);
    }
    let t = FOCUS_THRESHOLD as i128;
    assert(t * t == 40_000) by (nonlinear_arith)
        requires
            t == 200,
    ;
    dx * dx + dy * dy + dz * dz > t * t
}

/// Runs one frame of camera follow. The target becomes the player's position
/// where one is given, else it stays. If the focus is farther than the
/// threshold from the target, it moves by the difference scaled by
/// `FOCUS_SPEED` times the frame time; otherwise it stays put. Returns the
/// camera transform to write.
pub fn focus_camera(camera: &mut CameraData, player_position: Option<Point3>, frame_nanos: u64) -> (pose: CameraPose)
    requires
        old(camera).in_range(),
        player_position matches Some(p) ==> p.in_range(),
        frame_nanos <= MAX_FRAME_NANOS,
    ensures
        *final(camera) == old(camera).next(player_position, frame_nanos),
        pose == final(camera).pose(),
        is_stable_frame(frame_nanos as int) ==> final(camera).in_range(),
{
    if let Some(p) = player_position {
        camera.camera_should_focus = p;
    }
    let desired = camera.camera_should_focus;
    let current = camera.camera_is_focus;
    proof {
        if is_stable_frame(frame_nanos as int) {
            lemma_follow_step_approaches(desired, current, frame_nanos);
        }
    }
    if tracking(&desired, &current) {
        let sx = scale_component(desired.x - current.x, frame_nanos);
        let sy = scale_component(desired.y - current.y, frame_nanos);
        let sz = scale_component(desired.z - current.z, frame_nanos);
        camera.camera_is_focus = Point3 { x: current.x + sx, y: current.y + sy, z: current.z + sz };
    }
    CameraPose {
        eye: Point3 {
            x: camera.camera_is_focus.x - CAMERA_BACK_OFFSET,
            y: CAMERA_HEIGHT,
            z: camera.camera_is_focus.z,
        },
        target: camera.camera_should_focus,
    }
}

/// `v` lies between `a` and `b`, inclusive.
pub open spec fn lies_between(a: int, b: int, v: int) -> bool {
    (a <= v <= b) || (b <= v <= a)
}

/// The follow state after frames of the given lengths, the player standing at `desired` throughout.
pub open spec fn run_camera(c: CameraData, desired: Point3, frames: Seq<u64>) -> CameraData
    decreases frames.len(),
{
    if frames.len() == 0 {
        c
    } else {
        run_camera(c.next(Some(desired), frames[0]), desired, frames.drop_first())
    }
}

/// Squared distance from `p` to `q`.
pub open spec fn distance_squared(p: Point3, q: Point3) -> int {
    length_squared(p.x - q.x, p.y - q.y, p.z - q.z)
}

/// A frame short enough for the smoothing to be stable: `FOCUS_SPEED` times its length is at most a second.
pub open spec fn is_stable_frame(frame_nanos: int) -> bool {
    0 <= frame_nanos && FOCUS_SPEED * frame_nanos <= NANOS_PER_SECOND
}

/// Frames of at least this length (5 ms) move a tracking focus by at least one unit.
pub const MIN_STEP_NANOS: u64 = 5_000_000;

proof fn lemma_step_within(d: int, frame_nanos: int)
    requires
        is_stable_frame(frame_nanos),
    ensures
        d >= 0 ==> 0 <= scaled_step(d, frame_nanos) <= d,
        d <= 0 ==> d <= scaled_step(d, frame_nanos) <= 0,
{
    let n = NANOS_PER_SECOND as int;
    let m = if d >= 0 {
        d
    } else {
        -d
    };
    assert(0 <= m * FOCUS_SPEED * frame_nanos <= m * n) by (nonlinear_arith)
        requires
            0 <= m,
            0 <= frame_nanos,
            FOCUS_SPEED * frame_nanos <= n,
    ;
    lemma_div_is_ordered(m * FOCUS_SPEED * frame_nanos, m * n, n);
    lemma_div_multiples_vanish(m, n);
    lemma_div_is_ordered(0, m * FOCUS_SPEED * frame_nanos, n);
}

proof fn lemma_between_closer(t: int, a: int, v: int)
    requires
        lies_between(t, a, v),
    ensures
        (t - v) * (t - v) <= (t - a) * (t - a),
{
    assert((t - v) * (t - v) <= (t - a) * (t - a)) by (nonlinear_arith)
        requires
            (t <= v <= a) || (a <= v <= t),
    ;
}

/// In a stable frame the focus never passes its target: each coordinate
/// ends between where it was and the target's, so the focus stays in range
/// and comes no farther from the target.
pub proof fn lemma_follow_step_approaches(desired: Point3, current: Point3, frame_nanos: u64)
    requires
        desired.in_range(),
        current.in_range(),
        is_stable_frame(frame_nanos as int),
    ensures
        follow_focus(desired, current, frame_nanos as int).in_range(),
        lies_between(desired.x as int, current.x as int, follow_focus(desired, current, frame_nanos as int).x as int),
        lies_between(desired.y as int, current.y as int, follow_focus(desired, current, frame_nanos as int).y as int),
        lies_between(desired.z as int, current.z as int, follow_focus(desired, current, frame_nanos as int).z as int),
        distance_squared(desired, follow_focus(desired, current, frame_nanos as int))
            <= distance_squared(desired, current),
{
    let f = frame_nanos as int;
    lemma_step_within(desired.x - current.x, f);
    lemma_step_within(desired.y - current.y, f);
    lemma_step_within(desired.z - current.z, f);
    let n = follow_focus(desired, current, f);
    lemma_between_closer(desired.x as int, current.x as int, n.x as int);
    lemma_between_closer(desired.y as int, current.y as int, n.y as int);
    lemma_between_closer(desired.z as int, current.z as int, n.z as int);
}

proof fn lemma_component_shrinks(d: int, frame_nanos: int)
    requires
        d >= 116 || d <= -116,
        MIN_STEP_NANOS <= frame_nanos,
        is_stable_frame(frame_nanos),
    ensures
        (d - scaled_step(d, frame_nanos)) * (d - scaled_step(d, frame_nanos)) < d * d,
{
    let n = NANOS_PER_SECOND as int;
    let m = if d >= 0 {
        d
    } else {
        -d
    };
    assert(n <= m * FOCUS_SPEED * frame_nanos) by (nonlinear_arith)
        requires
            m >= 116,
            frame_nanos >= 5_000_000,
            n == 1_000_000_000,
    ;
    lemma_div_is_ordered(n, m * FOCUS_SPEED * frame_nanos, n);
    lemma_step_within(d, frame_nanos);
    let s = scaled_step(d, frame_nanos);
    assert((d - s) * (d - s) < d * d) by (nonlinear_arith)
        requires
            (d >= 0 && 1 <= s <= d) || (d <= 0 && d <= s <= -1),
    ;
}

/// In a stable frame of at least `MIN_STEP_NANOS`, a focus farther than the
/// threshold from its target comes strictly closer to it.
pub proof fn lemma_tracking_step_shrinks(desired: Point3, current: Point3, frame_nanos: u64)
    requires
        desired.in_range(),
        current.in_range(),
        is_tracking(desired, current),
        MIN_STEP_NANOS <= frame_nanos,
        is_stable_frame(frame_nanos as int),
    ensures
        distance_squared(desired, follow_focus(desired, current, frame_nanos as int))
            < distance_squared(desired, current),
{
    let f = frame_nanos as int;
    let dx = desired.x - current.x;
    let dy = desired.y - current.y;
    let dz = desired.z - current.z;
    lemma_follow_step_approaches(desired, current, frame_nanos);
    lemma_step_within(dx, f);
    lemma_step_within(dy, f);
    lemma_step_within(dz, f);
    let n = follow_focus(desired, current, f);
    assert(desired.x - n.x == dx - scaled_step(dx, f));
    assert(desired.y - n.y == dy - scaled_step(dy, f));
    assert(desired.z - n.z == dz - scaled_step(dz, f));
    assert(FOCUS_THRESHOLD * FOCUS_THRESHOLD == 40_000);
    assert(dx >= 116 || dx <= -116 || dy >= 116 || dy <= -116 || dz >= 116 || dz <= -116)
        by (nonlinear_arith)
        requires
            dx * dx + dy * dy + dz * dz > 40_000,
    ;
    let ex = dx - scaled_step(dx, f);
    let ey = dy - scaled_step(dy, f);
    let ez = dz - scaled_step(dz, f);
    lemma_between_closer(desired.x as int, current.x as int, n.x as int);
    lemma_between_closer(desired.y as int, current.y as int, n.y as int);
    lemma_between_closer(desired.z as int, current.z as int, n.z as int);
    if dx >= 116 || dx <= -116 {
        lemma_component_shrinks(dx, f);
    } else if dy >= 116 || dy <= -116 {
        lemma_component_shrinks(dy, f);
    } else {
        lemma_component_shrinks(dz, f);
    }
    assert(ex * ex + ey * ey + ez * ez < dx * dx + dy * dy + dz * dz);
}

/// A frame in which the focus is within the threshold of its target and the
/// player stands at the target, or is not known, changes nothing: the
/// follow state and the camera transform stay as they were.
pub proof fn lemma_settled_frame_changes_nothing(
    c: CameraData,
    player_position: Option<Point3>,
    frame_nanos: u64,
)
    requires
        player_position matches Some(p) ==> p == c.camera_should_focus,
        !is_tracking(c.camera_should_focus, c.camera_is_focus),
    ensures
        c.next(player_position, frame_nanos) == c,
        c.next(player_position, frame_nanos).pose() == c.pose(),
{
}

proof fn lemma_gap_rate(g: int, frame_nanos: int)
    requires
        0 <= frame_nanos,
    ensures
        g >= 0 ==> g * (NANOS_PER_SECOND - FOCUS_SPEED * frame_nanos) <= (g - scaled_step(g, frame_nanos)) * NANOS_PER_SECOND
            < g * (NANOS_PER_SECOND - FOCUS_SPEED * frame_nanos) + NANOS_PER_SECOND,
        g <= 0 ==> g * (NANOS_PER_SECOND - FOCUS_SPEED * frame_nanos) - NANOS_PER_SECOND
            < (g - scaled_step(g, frame_nanos)) * NANOS_PER_SECOND <= g * (NANOS_PER_SECOND - FOCUS_SPEED * frame_nanos),
{
    let n = NANOS_PER_SECOND as int;
    let m = if g >= 0 {
        g
    } else {
        -g
    };
    let a = m * FOCUS_SPEED * frame_nanos;
    lemma_fundamental_div_mod(a, n);
    let q = a / n;
    assert(n * q <= a < n * q + n);
    if g >= 0 {
        assert(scaled_step(g, frame_nanos) == q);
        assert(g * (n - FOCUS_SPEED * frame_nanos) == g * n - a) by (nonlinear_arith)
            requires
                a == g * FOCUS_SPEED * frame_nanos,
        ;
        assert((g - q) * n == g * n - n * q) by (nonlinear_arith);
        if g == 0 {
            assert(a == 0) by (nonlinear_arith)
                requires
                    a == g * FOCUS_SPEED * frame_nanos,
                    g == 0,
            ;
            assert(q == 0);
        }
    } else {
        assert(scaled_step(g, frame_nanos) == -q);
        assert(g * (n - FOCUS_SPEED * frame_nanos) == g * n + a) by (nonlinear_arith)
            requires
                a == (-g) * FOCUS_SPEED * frame_nanos,
        ;
        assert((g + q) * n == g * n + n * q) by (nonlinear_arith);
    }
}

/// The rate at which a tracking focus closes in: in a stable frame each
/// coordinate's gap to the target becomes the old gap times
/// `1 - FOCUS_SPEED * frame seconds`, rounded toward zero to a whole unit
/// (the new gap, times a second in nanoseconds, lies within one second of
/// the old gap times `NANOS_PER_SECOND - FOCUS_SPEED * frame_nanos`, on the
/// old gap's side of zero).
pub proof fn lemma_tracking_step_rate(desired: Point3, current: Point3, frame_nanos: u64)
    requires
        desired.in_range(),
        current.in_range(),
        is_tracking(desired, current),
        is_stable_frame(frame_nanos as int),
    ensures
        ({
            let n = follow_focus(desired, current, frame_nanos as int);
            let k = NANOS_PER_SECOND - FOCUS_SPEED * frame_nanos;
            &&& gap_rate_holds(desired.x - current.x, desired.x - n.x, k)
            &&& gap_rate_holds(desired.y - current.y, desired.y - n.y, k)
            &&& gap_rate_holds(desired.z - current.z, desired.z - n.z, k)
        }),
{
    let f = frame_nanos as int;
    lemma_step_within(desired.x - current.x, f);
    lemma_step_within(desired.y - current.y, f);
    lemma_step_within(desired.z - current.z, f);
    lemma_gap_rate(desired.x - current.x, f);
    lemma_gap_rate(desired.y - current.y, f);
    lemma_gap_rate(desired.z - current.z, f);
}

/// `new_gap * NANOS_PER_SECOND` is `old_gap * k` rounded toward zero to a
/// multiple of `NANOS_PER_SECOND`.
pub open spec fn gap_rate_holds(old_gap: int, new_gap: int, k: int) -> bool {
    &&& old_gap >= 0 ==> old_gap * k <= new_gap * NANOS_PER_SECOND < old_gap * k + NANOS_PER_SECOND
    &&& old_gap <= 0 ==> old_gap * k - NANOS_PER_SECOND < new_gap * NANOS_PER_SECOND <= old_gap * k
}

/// Once the focus is within the threshold of a target that stays put, it
/// stays where it is, whatever the frames.
pub proof fn lemma_settled_focus_stays(c: CameraData, desired: Point3, frames: Seq<u64>)
    requires
        !is_tracking(desired, c.camera_is_focus),
    ensures
        run_camera(c, desired, frames).camera_is_focus == c.camera_is_focus,
    decreases frames.len(),
{
    if frames.len() > 0 {
        lemma_settled_focus_stays(c.next(Some(desired), frames[0]), desired, frames.drop_first());
    }
}

/// Over stable frames with the target fixed, the focus closes in on the
/// target without passing it: each coordinate stays between its start and
/// the target's, and the distance to the target never grows.
pub proof fn lemma_focus_closes_in(c: CameraData, desired: Point3, frames: Seq<u64>)
    requires
        c.in_range(),
        desired.in_range(),
        forall|i: int| 0 <= i < frames.len() ==> is_stable_frame(#[trigger] frames[i] as int),
    ensures
        run_camera(c, desired, frames).in_range(),
        lies_between(desired.x as int, c.camera_is_focus.x as int, run_camera(c, desired, frames).camera_is_focus.x as int),
        lies_between(desired.y as int, c.camera_is_focus.y as int, run_camera(c, desired, frames).camera_is_focus.y as int),
        lies_between(desired.z as int, c.camera_is_focus.z as int, run_camera(c, desired, frames).camera_is_focus.z as int),
        distance_squared(desired, run_camera(c, desired, frames).camera_is_focus)
            <= distance_squared(desired, c.camera_is_focus),
    decreases frames.len(),
{
    if frames.len() > 0 {
        assert(is_stable_frame(frames[0] as int));
        lemma_follow_step_approaches(desired, c.camera_is_focus, frames[0]);
        let c1 = c.next(Some(desired), frames[0]);
        let rest = frames.drop_first();
        assert forall|i: int| 0 <= i < rest.len() implies is_stable_frame(#[trigger] rest[i] as int) by {
            assert(rest[i] == frames[i + 1]);
        }
        lemma_focus_closes_in(c1, desired, rest);
    }
}

/// The camera's transform when it is created: high above the ground and
/// looking down at the origin.
pub fn setup_camera() -> (pose: CameraPose)
    ensures
        pose.eye.x == -2000 && pose.eye.y == 200_000 && pose.eye.z == 250,
        pose.target.is_origin(),
{
    CameraPose { eye: Point3::new(-2000, 200_000, 250), target: Point3::origin() }
}

} // verus!
